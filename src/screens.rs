//! Assembly of the display snapshot from what the operating system reports
//! for each monitor: labels, the primary and the active display, the
//! displays by name, and the bounding rectangle of all of them.
use vstd::prelude::*;
use crate::notify::BridgeError;
use crate::wide::{utf16_lossy, wide_text, wide_units, decode_name};

verus! {

/// Every coordinate and every far edge of a screen rectangle lies within
/// this distance of the origin.
pub const COORD_BOUND: i64 = 1099511627776;

/// The scale factor, in percent, that every display reports.
pub const DEFAULT_SCALE_PERCENT: u32 = 100;

/// A rectangle on the virtual desktop: origin, then size.
#[derive(Clone, Copy, Debug, PartialEq, Eq, Structural)]
pub struct ScreenRect {
    pub x: i64,
    pub y: i64,
    pub width: i64,
    pub height: i64,
}

impl ScreenRect {
    pub open spec fn wf(&self) -> bool {
        &&& -COORD_BOUND <= self.x <= COORD_BOUND
        &&& -COORD_BOUND <= self.y <= COORD_BOUND
        &&& -COORD_BOUND <= self.x + self.width <= COORD_BOUND
        &&& -COORD_BOUND <= self.y + self.height <= COORD_BOUND
    }

    pub open spec fn spec_is_empty(&self) -> bool {
        self.width <= 0 || self.height <= 0
    }

    /// The smallest rectangle holding both; an empty rectangle adds nothing.
    pub open spec fn spec_union(self, other: ScreenRect) -> ScreenRect {
        if self.spec_is_empty() {
            other
        } else if other.spec_is_empty() {
            self
        } else {
            let x0 = if self.x <= other.x { self.x } else { other.x };
            let y0 = if self.y <= other.y { self.y } else { other.y };
            let x1 = if self.x + self.width >= other.x + other.width {
                self.x + self.width
            } else {
                other.x + other.width
            };
            let y1 = if self.y + self.height >= other.y + other.height {
                self.y + self.height
            } else {
                other.y + other.height
            };
            ScreenRect { x: x0, y: y0, width: (x1 - x0) as i64, height: (y1 - y0) as i64 }
        }
    }

    /// The rectangle between the given edges.
    pub fn from_edges(left: i32, top: i32, right: i32, bottom: i32) -> (r: ScreenRect)
        ensures
            r == (ScreenRect {
                x: left as i64,
                y: top as i64,
                width: (right - left) as i64,
                height: (bottom - top) as i64,
            }),
            r.wf(),
    {
        ScreenRect {
            x: left as i64,
            y: top as i64,
            width: right as i64 - left as i64,
            height: bottom as i64 - top as i64,
        }
    }

    pub fn is_empty(&self) -> (r: bool)
        ensures
            r == self.spec_is_empty(),
    {
        self.width <= 0 || self.height <= 0
    }

    pub fn union(&self, other: &ScreenRect) -> (r: ScreenRect)
        requires
            self.wf(),
            other.wf(),
        ensures
            r == self.spec_union(*other),
            r.wf(),
    {
        if self.is_empty() {
            *other
        } else if other.is_empty() {
            *self
        } else {
            let x0 = if self.x <= other.x { self.x } else { other.x };
            let y0 = if self.y <= other.y { self.y } else { other.y };
            let x1 = if self.x + self.width >= other.x + other.width {
                self.x + self.width
            } else {
                other.x + other.width
            };
            let y1 = if self.y + self.height >= other.y + other.height {
                self.y + self.height
            } else {
                other.y + other.height
            };
            ScreenRect { x: x0, y: y0, width: x1 - x0, height: y1 - y0 }
        }
    }
}

/// One display of the snapshot.
#[derive(Debug)]
pub struct ScreenInfo {
    pub name: String,
    pub rect: ScreenRect,
    pub scale_percent: u32,
}

pub ghost struct ScreenInfoView {
    pub name: Seq<char>,
    pub rect: ScreenRect,
    pub scale_percent: u32,
}

impl View for ScreenInfo {
    type V = ScreenInfoView;

    open spec fn view(&self) -> ScreenInfoView {
        ScreenInfoView { name: self.name@, rect: self.rect, scale_percent: self.scale_percent }
    }
}

impl ScreenInfo {
    pub fn duplicate(&self) -> (r: ScreenInfo)
        ensures
            r@ == self@,
    {
        ScreenInfo { name: self.name.clone(), rect: self.rect, scale_percent: self.scale_percent }
    }
}

/// What the operating system reports for one monitor.
#[derive(Debug)]
pub struct MonitorData {
    /// The monitor's handle, as an integer.
    pub handle: u64,
    /// The device-name buffer, such as `\\.\DISPLAY1` followed by NULs.
    pub device: Vec<u16>,
    pub left: i32,
    pub top: i32,
    pub right: i32,
    pub bottom: i32,
    pub is_primary: bool,
    /// The generic device description buffer, where the device lookup
    /// succeeded.
    pub device_string: Option<Vec<u16>>,
}

pub ghost struct MonitorView {
    pub handle: u64,
    pub device: Seq<u16>,
    pub rect: ScreenRect,
    pub is_primary: bool,
    pub device_string: Option<Seq<u16>>,
}

impl View for MonitorData {
    type V = MonitorView;

    open spec fn view(&self) -> MonitorView {
        MonitorView {
            handle: self.handle,
            device: self.device@,
            rect: ScreenRect {
                x: self.left as i64,
                y: self.top as i64,
                width: (self.right - self.left) as i64,
                height: (self.bottom - self.top) as i64,
            },
            is_primary: self.is_primary,
            device_string: match self.device_string {
                Some(d) => Some(d@),
                None => None,
            },
        }
    }
}

/// A table from GDI device names to names, as text (no NUL).
pub type NameTable = Vec<(Vec<u16>, Vec<u16>)>;

pub open spec fn table_view(t: Seq<(Vec<u16>, Vec<u16>)>) -> Seq<(Seq<u16>, Seq<u16>)> {
    t.map_values(|e: (Vec<u16>, Vec<u16>)| (e.0@, e.1@))
}

/// The name that a table gives a key: the last entry for the key wins, as
/// with successive inserts into a map.
pub open spec fn lookup(entries: Seq<(Seq<u16>, Seq<u16>)>, key: Seq<u16>) -> Option<Seq<u16>>
    decreases entries.len(),
{
    if entries.len() == 0 {
        None
    } else if entries.last().0 == key {
        Some(entries.last().1)
    } else {
        lookup(entries.drop_last(), key)
    }
}

pub open spec fn unknown_units() -> Seq<u16> {
    seq![85u16, 110u16, 107u16, 110u16, 111u16, 119u16, 110u16]
}

pub open spec fn gdi_prefix() -> Seq<u16> {
    seq![92u16, 92u16, 46u16, 92u16]
}

/// A GDI device name without its leading `\\.\`.
pub open spec fn strip_gdi_prefix(s: Seq<u16>) -> Seq<u16> {
    if s.len() >= 4 && s.take(4) == gdi_prefix() {
        s.skip(4)
    } else {
        s
    }
}

/// The friendly name of a monitor: from the friendly-name table, else the
/// generic device description, else "Unknown".
pub open spec fn friendly_name(m: MonitorView, friendly: Seq<(Seq<u16>, Seq<u16>)>) -> Seq<u16> {
    match lookup(friendly, wide_text(m.device)) {
        Some(n) => n,
        None => match m.device_string {
            Some(d) => wide_text(d),
            None => unknown_units(),
        },
    }
}

/// The adapter name of a monitor, else "Unknown".
pub open spec fn adapter_name(m: MonitorView, adapters: Seq<(Seq<u16>, Seq<u16>)>) -> Seq<u16> {
    match lookup(adapters, wide_text(m.device)) {
        Some(n) => n,
        None => unknown_units(),
    }
}

/// `DISPLAY1: <friendly name> on <adapter name>`.
pub open spec fn monitor_label(
    m: MonitorView,
    friendly: Seq<(Seq<u16>, Seq<u16>)>,
    adapters: Seq<(Seq<u16>, Seq<u16>)>,
) -> Seq<u16> {
    strip_gdi_prefix(wide_text(m.device)) + seq![58u16, 32u16] + friendly_name(m, friendly)
        + seq![32u16, 111u16, 110u16, 32u16] + adapter_name(m, adapters)
}

pub open spec fn screen_of(
    m: MonitorView,
    friendly: Seq<(Seq<u16>, Seq<u16>)>,
    adapters: Seq<(Seq<u16>, Seq<u16>)>,
) -> ScreenInfoView {
    ScreenInfoView {
        name: utf16_lossy(monitor_label(m, friendly, adapters)),
        rect: m.rect,
        scale_percent: DEFAULT_SCALE_PERCENT,
    }
}

/// Whether `i` is the first position of `s` whose name is `name`.
pub open spec fn is_first_named(s: Seq<ScreenInfoView>, name: Seq<char>, i: int) -> bool {
    &&& 0 <= i < s.len()
    &&& s[i].name == name
    &&& forall|j: int| 0 <= j < i ==> s[j].name != name
}

/// The displays by name after adding `info`: it replaces the display of the
/// same name, or is appended.
pub open spec fn insert_named(s: Seq<ScreenInfoView>, info: ScreenInfoView) -> Seq<ScreenInfoView> {
    if exists|i: int| is_first_named(s, info.name, i) {
        s.update(choose|i: int| is_first_named(s, info.name, i), info)
    } else {
        s.push(info)
    }
}

/// The state of a display enumeration after it has seen some monitors.
pub ghost struct ScanView {
    pub primary: Option<ScreenInfoView>,
    pub active: Option<ScreenInfoView>,
    pub by_name: Seq<ScreenInfoView>,
    pub virtual_rect: ScreenRect,
}

pub open spec fn scan(
    monitors: Seq<MonitorView>,
    active_handle: u64,
    friendly: Seq<(Seq<u16>, Seq<u16>)>,
    adapters: Seq<(Seq<u16>, Seq<u16>)>,
) -> ScanView
    decreases monitors.len(),
{
    if monitors.len() == 0 {
        ScanView {
            primary: None,
            active: None,
            by_name: Seq::empty(),
            virtual_rect: ScreenRect { x: 0, y: 0, width: 0, height: 0 },
        }
    } else {
        let s = scan(monitors.drop_last(), active_handle, friendly, adapters);
        let m = monitors.last();
        let info = screen_of(m, friendly, adapters);
        ScanView {
            primary: if m.is_primary { Some(info) } else { s.primary },
            active: if m.handle == active_handle { Some(info) } else { s.active },
            by_name: insert_named(s.by_name, info),
            virtual_rect: s.virtual_rect.spec_union(info.rect),
        }
    }
}

/// The display snapshot.
#[derive(Debug)]
pub struct Screens {
    pub main: ScreenInfo,
    pub active: ScreenInfo,
    pub by_name: Vec<ScreenInfo>,
    pub virtual_rect: ScreenRect,
}

pub open spec fn infos_view(s: Seq<ScreenInfo>) -> Seq<ScreenInfoView> {
    s.map_values(|i: ScreenInfo| i@)
}

fn units_equal(a: &Vec<u16>, b: &Vec<u16>) -> (r: bool)
    ensures
        r == (a@ == b@),
{
    if a.len() != b.len() {
        return false;
    }
    let mut i: usize = 0;
    while i < a.len()
        invariant
            a@.len() == b@.len(),
            i <= a@.len(),
            forall|j: int| 0 <= j < i ==> a@[j] == b@[j],
        decreases a.len() - i,
    {
        if a[i] != b[i] {
            return false;
        }
        i = i + 1;
    }
    assert(a@ =~= b@);
    true
}

fn append_units(dst: &mut Vec<u16>, src: &[u16])
    ensures
        final(dst)@ == old(dst)@ + src@,
{
    let mut i: usize = 0;
    while i < src.len()
        invariant
            i <= src@.len(),
            dst@ == old(dst)@ + src@.take(i as int),
        decreases src.len() - i,
    {
        dst.push(src[i]);
        i = i + 1;
        assert(dst@ =~= old(dst)@ + src@.take(i as int));
    }
    assert(src@.take(src@.len() as int) =~= src@);
}

fn copy_units(src: &Vec<u16>) -> (r: Vec<u16>)
    ensures
        r@ == src@,
{
    let mut r: Vec<u16> = Vec::new();
    append_units(&mut r, src.as_slice());
    assert(r@ =~= src@);
    r
}

/// The name a table gives `key`, the last entry winning.
pub fn lookup_name(table: &NameTable, key: &Vec<u16>) -> (r: Option<Vec<u16>>)
    ensures
        match r {
            Some(n) => lookup(table_view(table@), key@) == Some(n@),
            None => lookup(table_view(table@), key@).is_none(),
        },
{
    let ghost tv = table_view(table@);
    let mut i: usize = table.len();
    assert(tv.take(i as int) =~= tv);
    while i > 0
        invariant
            i <= table@.len(),
            tv == table_view(table@),
            lookup(tv, key@) == lookup(tv.take(i as int), key@),
        decreases i,
    {
        let ghost pre = tv.take(i as int);
        assert(pre.drop_last() =~= tv.take(i as int - 1));
        assert(pre.last() == (table@[i as int - 1].0@, table@[i as int - 1].1@));
        if units_equal(&table[i - 1].0, key) {
            return Some(copy_units(&table[i - 1].1));
        }
        i = i - 1;
    }
    None
}

/// A name table built from pairs of raw buffers (device name, name), each
/// cut at its first NUL.
pub fn name_table(raw: &Vec<(Vec<u16>, Vec<u16>)>) -> (r: NameTable)
    ensures
        r@.len() == raw@.len(),
        forall|i: int|
            0 <= i < raw@.len() ==> #[trigger] table_view(r@)[i] == (
                wide_text(raw@[i].0@),
                wide_text(raw@[i].1@),
            ),
{
    let mut r: NameTable = Vec::new();
    let mut i: usize = 0;
    while i < raw.len()
        invariant
            i <= raw@.len(),
            r@.len() == i,
            forall|j: int|
                0 <= j < i ==> #[trigger] table_view(r@)[j] == (
                    wide_text(raw@[j].0@),
                    wide_text(raw@[j].1@),
                ),
        decreases raw.len() - i,
    {
        let key = wide_units(raw[i].0.as_slice());
        let name = wide_units(raw[i].1.as_slice());
        let ghost before = r@;
        r.push((key, name));
        assert forall|j: int| 0 <= j < i + 1 implies #[trigger] table_view(r@)[j] == (
            wide_text(raw@[j].0@),
            wide_text(raw@[j].1@),
        ) by {
            if j < i {
                assert(r@[j] == before[j]);
                assert(table_view(before)[j] == table_view(r@)[j]);
            }
        }
        i = i + 1;
    }
    r
}

/// The label of a monitor, as UTF-16 units.
pub fn label_units(m: &MonitorData, friendly: &NameTable, adapters: &NameTable) -> (r: Vec<u16>)
    ensures
        r@ == monitor_label(m@, table_view(friendly@), table_view(adapters@)),
{
    let gdi = wide_units(m.device.as_slice());
    let unknown: Vec<u16> = vec![85u16, 110u16, 107u16, 110u16, 111u16, 119u16, 110u16];
    assert(unknown@ =~= unknown_units());
    let friendly_units = match lookup_name(friendly, &gdi) {
        Some(n) => n,
        None => match &m.device_string {
            Some(d) => wide_units(d.as_slice()),
            None => copy_units(&unknown),
        },
    };
    let adapter_units = match lookup_name(adapters, &gdi) {
        Some(n) => n,
        None => unknown,
    };
    let mut r: Vec<u16> = Vec::new();
    let prefix: Vec<u16> = vec![92u16, 92u16, 46u16, 92u16];
    assert(prefix@ =~= gdi_prefix());
    let mut has_prefix = gdi.len() >= 4;
    if has_prefix {
        let mut k: usize = 0;
        while k < 4
            invariant
                k <= 4,
                gdi@.len() >= 4,
                prefix@ == gdi_prefix(),
                has_prefix == (forall|j: int| 0 <= j < k ==> gdi@[j] == prefix@[j]),
            decreases 4 - k,
        {
            if gdi[k] != prefix[k] {
                has_prefix = false;
            }
            k = k + 1;
        }
        assert(has_prefix == (gdi@.take(4) =~= gdi_prefix()));
    }
    let mut k: usize = if has_prefix { 4 } else { 0 };
    let ghost start = k;
    while k < gdi.len()
        invariant
            start <= k <= gdi@.len(),
            r@ == gdi@.subrange(start as int, k as int),
        decreases gdi.len() - k,
    {
        r.push(gdi[k]);
        k = k + 1;
        assert(r@ =~= gdi@.subrange(start as int, k as int));
    }
    assert(r@ =~= strip_gdi_prefix(gdi@));
    let sep: Vec<u16> = vec![58u16, 32u16];
    append_units(&mut r, sep.as_slice());
    append_units(&mut r, friendly_units.as_slice());
    let on: Vec<u16> = vec![32u16, 111u16, 110u16, 32u16];
    append_units(&mut r, on.as_slice());
    append_units(&mut r, adapter_units.as_slice());
    assert(sep@ =~= seq![58u16, 32u16]);
    assert(on@ =~= seq![32u16, 111u16, 110u16, 32u16]);
    r
}

/// The display of a monitor in the snapshot.
pub fn screen_info(m: &MonitorData, friendly: &NameTable, adapters: &NameTable) -> (r: ScreenInfo)
    ensures
        r@ == screen_of(m@, table_view(friendly@), table_view(adapters@)),
        r.rect.wf(),
{
    let label = label_units(m, friendly, adapters);
    ScreenInfo {
        name: decode_name(&label),
        rect: ScreenRect::from_edges(m.left, m.top, m.right, m.bottom),
        scale_percent: DEFAULT_SCALE_PERCENT,
    }
}

fn insert_by_name(by_name: &mut Vec<ScreenInfo>, info: ScreenInfo)
    ensures
        infos_view(final(by_name)@) == insert_named(infos_view(old(by_name)@), info@),
{
    let ghost s = infos_view(by_name@);
    let mut i: usize = 0;
    while i < by_name.len()
        invariant
            i <= by_name@.len(),
            s == infos_view(by_name@),
            s == infos_view(old(by_name)@),
            forall|j: int| 0 <= j < i ==> s[j].name != info@.name,
        decreases by_name.len() - i,
    {
        if by_name[i].name == info.name {
            assert(is_first_named(s, info@.name, i as int));
            let ghost c = choose|k: int| is_first_named(s, info@.name, k);
            assert(c == i as int) by {
                if c < i as int {
                    assert(s[c].name != info@.name);
                } else if c > i as int {
                    assert(s[i as int].name != info@.name);
                }
            }
            let ghost v = info@;
            by_name.set(i, info);
            assert(infos_view(by_name@) =~= s.update(i as int, v));
            assert(exists|k: int| is_first_named(s, v.name, k));
            assert(insert_named(s, v) == s.update(i as int, v));
            return;
        }
        i = i + 1;
    }
    assert(!exists|k: int| is_first_named(s, info@.name, k));
    let ghost v = info@;
    by_name.push(info);
    assert(infos_view(by_name@) =~= s.push(v));
}

/// Builds the display snapshot from the monitors in the order the operating
/// system enumerated them. The main display is the last one flagged
/// primary, and there must be one; the active display is the last one whose
/// handle is `active_handle`, else the main display.
pub fn assemble_screens(
    monitors: &Vec<MonitorData>,
    active_handle: u64,
    friendly: &NameTable,
    adapters: &NameTable,
) -> (r: Result<Screens, BridgeError>)
    ensures
        ({
            let s = scan(
                monitors@.map_values(|m: MonitorData| m@),
                active_handle,
                table_view(friendly@),
                table_view(adapters@),
            );
            match r {
                Ok(screens) => {
                    &&& s.primary == Some(screens.main@)
                    &&& screens.active@ == match s.active {
                        Some(a) => a,
                        None => screens.main@,
                    }
                    &&& infos_view(screens.by_name@) == s.by_name
                    &&& screens.virtual_rect == s.virtual_rect
                },
                Err(e) => s.primary.is_none() && e is NoPrimaryDisplay,
            }
        }),
{
    let ghost ms = monitors@.map_values(|m: MonitorData| m@);
    let ghost ft = table_view(friendly@);
    let ghost at = table_view(adapters@);
    let mut primary: Option<ScreenInfo> = None;
    let mut active: Option<ScreenInfo> = None;
    let mut by_name: Vec<ScreenInfo> = Vec::new();
    let mut virtual_rect = ScreenRect { x: 0, y: 0, width: 0, height: 0 };
    let mut i: usize = 0;
    assert(ms.take(0) =~= Seq::<MonitorView>::empty());
    while i < monitors.len()
        invariant
            i <= monitors@.len(),
            ms == monitors@.map_values(|m: MonitorData| m@),
            ft == table_view(friendly@),
            at == table_view(adapters@),
            virtual_rect.wf(),
            ({
                let s = scan(ms.take(i as int), active_handle, ft, at);
                &&& s.primary == match primary {
                    Some(p) => Some(p@),
                    None => None::<ScreenInfoView>,
                }
                &&& s.active == match active {
                    Some(a) => Some(a@),
                    None => None::<ScreenInfoView>,
                }
                &&& s.by_name == infos_view(by_name@)
                &&& s.virtual_rect == virtual_rect
            }),
        decreases monitors.len() - i,
    {
        let m = &monitors[i];
        let info = screen_info(m, friendly, adapters);
        proof {
            let pre = ms.take(i as int + 1);
            assert(pre.drop_last() =~= ms.take(i as int));
            assert(pre.last() == m@);
        }
        virtual_rect = virtual_rect.union(&info.rect);
        if m.is_primary {
            primary = Some(info.duplicate());
        }
        if m.handle == active_handle {
            active = Some(info.duplicate());
        }
        insert_by_name(&mut by_name, info);
        i = i + 1;
    }
    assert(ms.take(i as int) =~= ms);
    match primary {
        None => Err(BridgeError::NoPrimaryDisplay),
        Some(main) => {
            let active = match active {
                Some(a) => a,
                None => main.duplicate(),
            };
            Ok(Screens { main, active, by_name, virtual_rect })
        },
    }
}

} // verus!

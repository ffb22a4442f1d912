//! The per-window state that only the event loop may touch.
use vstd::prelude::*;
use crate::notify::Command;

verus! {

/// Bit of the window state mask: the window is hidden.
pub const STATE_HIDDEN: u8 = 1;

/// Bit of the window state mask: the window is maximized.
pub const STATE_MAXIMIZED: u8 = 2;

/// Bit of the window state mask: the window covers the whole screen.
pub const STATE_FULL_SCREEN: u8 = 4;

/// The geometry that a dimensions query reports.
#[derive(Clone, Copy, Debug, PartialEq, Eq, Structural)]
pub struct Dimensions {
    pub pixel_width: usize,
    pub pixel_height: usize,
    pub dpi: usize,
    pub is_full_screen: bool,
}

/// The mutable state of one realized window.
#[derive(Debug)]
pub struct WindowRecord {
    pub pixel_width: usize,
    pub pixel_height: usize,
    pub dpi: usize,
    pub x: i64,
    pub y: i64,
    /// A mask of the `STATE_*` bits.
    pub state: u8,
    pub right_status: String,
    /// The configuration as the window currently applies it.
    pub effective_config: String,
    /// Per-window configuration overrides, in their serialized form.
    pub config_overrides: String,
    /// Key actions handed to the window, oldest first, with the pane they target.
    pub pending_actions: Vec<(u64, String)>,
    /// Text that the window was asked to place on the clipboard, oldest first.
    pub clipboard_requests: Vec<String>,
    pub active_key_table: Option<String>,
    /// The text of a dead-key composition in progress, if any.
    pub composition: Option<String>,
    pub leader_active: bool,
}

/// The mathematical value of a `WindowRecord`.
pub ghost struct RecordView {
    pub pixel_width: usize,
    pub pixel_height: usize,
    pub dpi: usize,
    pub x: i64,
    pub y: i64,
    pub state: u8,
    pub right_status: Seq<char>,
    pub effective_config: Seq<char>,
    pub config_overrides: Seq<char>,
    pub pending_actions: Seq<(u64, Seq<char>)>,
    pub clipboard_requests: Seq<Seq<char>>,
    pub active_key_table: Option<Seq<char>>,
    pub composition: Option<Seq<char>>,
    pub leader_active: bool,
}

pub open spec fn opt_text(o: Option<String>) -> Option<Seq<char>> {
    match o {
        Some(s) => Some(s@),
        None => None,
    }
}

impl View for WindowRecord {
    type V = RecordView;

    open spec fn view(&self) -> RecordView {
        RecordView {
            pixel_width: self.pixel_width,
            pixel_height: self.pixel_height,
            dpi: self.dpi,
            x: self.x,
            y: self.y,
            state: self.state,
            right_status: self.right_status@,
            effective_config: self.effective_config@,
            config_overrides: self.config_overrides@,
            pending_actions: self.pending_actions@.map_values(|p: (u64, String)| (p.0, p.1@)),
            clipboard_requests: self.clipboard_requests@.map_values(|t: String| t@),
            active_key_table: opt_text(self.active_key_table),
            composition: opt_text(self.composition),
            leader_active: self.leader_active,
        }
    }
}

/// Whether a state mask has the full-screen bit set.
pub open spec fn spec_is_full_screen(state: u8) -> bool {
    state & STATE_FULL_SCREEN != 0
}

impl WindowRecord {
    /// A freshly realized window of the given size, at the origin, with no
    /// status text and no overrides.
    pub fn new(pixel_width: usize, pixel_height: usize, dpi: usize, effective_config: String) -> (r:
        WindowRecord)
        ensures
            r.pixel_width == pixel_width,
            r.pixel_height == pixel_height,
            r.dpi == dpi,
            r.x == 0,
            r.y == 0,
            r.state == 0,
            r.right_status@ == Seq::<char>::empty(),
            r.effective_config == effective_config,
            r.config_overrides@ == Seq::<char>::empty(),
            r.pending_actions@ == Seq::<(u64, String)>::empty(),
            r.clipboard_requests@ == Seq::<String>::empty(),
            r.active_key_table.is_none(),
            r.composition.is_none(),
            !r.leader_active,
    {
        WindowRecord {
            pixel_width,
            pixel_height,
            dpi,
            x: 0,
            y: 0,
            state: 0,
            right_status: String::new(),
            effective_config,
            config_overrides: String::new(),
            pending_actions: Vec::new(),
            clipboard_requests: Vec::new(),
            active_key_table: None,
            composition: None,
            leader_active: false,
        }
    }

    /// What a dimensions query reports for this window: the pixel size, the
    /// DPI, and the full-screen bit of the state mask (the other bits are not
    /// reported).
    pub fn dimensions(&self) -> (r: Dimensions)
        ensures
            r == self.spec_dimensions(),
    {
        Dimensions {
            pixel_width: self.pixel_width,
            pixel_height: self.pixel_height,
            dpi: self.dpi,
            is_full_screen: self.state & STATE_FULL_SCREEN != 0,
        }
    }

    /// Applies a command to this window.
    pub fn apply(&mut self, cmd: Command)
        ensures
            final(self)@ == old(self)@.after(cmd),
    {
        match cmd {
            Command::SetInnerSize { width, height } => {
                self.pixel_width = width;
                self.pixel_height = height;
            },
            Command::SetPosition { x, y } => {
                self.x = x;
                self.y = y;
            },
            Command::Maximize => {
                self.state = self.state | STATE_MAXIMIZED;
            },
            Command::Restore => {
                self.state = self.state & !(STATE_MAXIMIZED | STATE_FULL_SCREEN);
            },
            Command::ToggleFullscreen => {
                self.state = self.state ^ STATE_FULL_SCREEN;
            },
            Command::SetRightStatus(s) => {
                self.right_status = s;
            },
            Command::PerformAssignment { pane_id, action } => {
                let ghost before = self.pending_actions@;
                self.pending_actions.push((pane_id, action));
                assert(self.pending_actions@.map_values(|p: (u64, String)| (p.0, p.1@))
                    =~= before.map_values(|p: (u64, String)| (p.0, p.1@)).push(
                    (pane_id, action@),
                ));
            },
            Command::SetConfigOverrides(s) => {
                self.config_overrides = s;
            },
            Command::CopyToClipboard(s) => {
                let ghost before = self.clipboard_requests@;
                self.clipboard_requests.push(s);
                assert(self.clipboard_requests@.map_values(|t: String| t@) =~= before.map_values(
                    |t: String| t@,
                ).push(s@));
            },
        }
    }

    pub open spec fn spec_dimensions(&self) -> Dimensions {
        self@.dimensions()
    }
}

impl RecordView {
    /// The record after the event loop applied `cmd` to it.
    pub open spec fn after(self, cmd: Command) -> RecordView {
        match cmd {
            Command::SetInnerSize { width, height } => RecordView {
                pixel_width: width,
                pixel_height: height,
                ..self
            },
            Command::SetPosition { x, y } => RecordView { x, y, ..self },
            Command::Maximize => RecordView { state: self.state | STATE_MAXIMIZED, ..self },
            Command::Restore => RecordView {
                state: self.state & !(STATE_MAXIMIZED | STATE_FULL_SCREEN),
                ..self
            },
            Command::ToggleFullscreen => RecordView {
                state: self.state ^ STATE_FULL_SCREEN,
                ..self
            },
            Command::SetRightStatus(s) => RecordView { right_status: s@, ..self },
            Command::PerformAssignment { pane_id, action } => RecordView {
                pending_actions: self.pending_actions.push((pane_id, action@)),
                ..self
            },
            Command::SetConfigOverrides(s) => RecordView { config_overrides: s@, ..self },
            Command::CopyToClipboard(s) => RecordView {
                clipboard_requests: self.clipboard_requests.push(s@),
                ..self
            },
        }
    }

    pub open spec fn dimensions(self) -> Dimensions {
        Dimensions {
            pixel_width: self.pixel_width,
            pixel_height: self.pixel_height,
            dpi: self.dpi,
            is_full_screen: spec_is_full_screen(self.state),
        }
    }
}

} // verus!

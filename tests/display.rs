use window::appearance::{appearance_from_setting, Appearance};
use window::notify::BridgeError;
use window::retry::{next_step, ConfigStatus, Negotiation, MAX_CONFIG_ATTEMPTS};
use window::screens::{assemble_screens, name_table, MonitorData, ScreenRect};
use window::wide::wstr;

fn wide(s: &str, pad: usize) -> Vec<u16> {
    let mut v: Vec<u16> = s.encode_utf16().collect();
    v.extend(std::iter::repeat(0).take(pad));
    v
}

fn negotiate(statuses: &[ConfigStatus]) -> (Negotiation, u32) {
    let mut attempts: u32 = 0;
    for s in statuses {
        attempts += 1;
        let d = next_step(attempts, *s);
        if d != Negotiation::Retry {
            return (d, attempts);
        }
    }
    (Negotiation::Retry, attempts)
}

#[test]
fn fresh_theme_preference_is_light() {
    let a = appearance_from_setting(None);
    assert_eq!(a, Appearance::Light);
    assert_eq!(a.name(), "Light");
}

#[test]
fn stored_theme_values() {
    assert_eq!(appearance_from_setting(Some(1)), Appearance::Light);
    assert_eq!(appearance_from_setting(Some(0)), Appearance::Dark);
    assert_eq!(appearance_from_setting(Some(7)).name(), "Dark");
}

#[test]
fn negotiation_recovers_after_races() {
    let mut statuses = vec![ConfigStatus::InsufficientBuffer; 3];
    statuses.push(ConfigStatus::Success);
    assert_eq!(negotiate(&statuses), (Negotiation::Done, 4));
}

#[test]
fn negotiation_gives_up_under_sustained_churn() {
    let statuses = vec![ConfigStatus::InsufficientBuffer; 100];
    assert_eq!(negotiate(&statuses), (Negotiation::GaveUp, MAX_CONFIG_ATTEMPTS));
    assert_eq!(negotiate(&[ConfigStatus::Failed]), (Negotiation::Failed, 1));
}

#[test]
fn wstr_stops_at_first_nul() {
    assert_eq!(wstr(&wide("DISPLAY1", 3)), "DISPLAY1");
    let mut v = wide("Hi", 1);
    v.extend(wide("there", 1));
    assert_eq!(wstr(&v), "Hi");
    assert_eq!(wstr(&wide("no terminator", 0)), "");
}

#[test]
fn rect_union() {
    let empty = ScreenRect { x: 0, y: 0, width: 0, height: 0 };
    let a = ScreenRect::from_edges(0, 0, 1920, 1080);
    let b = ScreenRect::from_edges(-1280, 100, 0, 1124);
    assert_eq!(empty.union(&a), a);
    assert_eq!(a.union(&empty), a);
    assert_eq!(a.union(&b), ScreenRect { x: -1280, y: 0, width: 3200, height: 1124 });
}

fn monitor(handle: u64, device: &str, edges: (i32, i32, i32, i32), primary: bool, generic: Option<&str>) -> MonitorData {
    MonitorData {
        handle,
        device: wide(device, 4),
        left: edges.0,
        top: edges.1,
        right: edges.2,
        bottom: edges.3,
        is_primary: primary,
        device_string: generic.map(|g| wide(g, 2)),
    }
}

#[test]
fn snapshot_of_two_displays() {
    let friendly = name_table(&vec![(wide("\\\\.\\DISPLAY1", 2), wide("Gigabyte M32U", 2))]);
    let adapters = name_table(&vec![
        (wide("\\\\.\\DISPLAY1", 2), wide("NVIDIA GeForce RTX 3080 Ti", 2)),
        (wide("\\\\.\\DISPLAY2", 2), wide("Old Adapter", 2)),
        (wide("\\\\.\\DISPLAY2", 2), wide("Intel UHD", 2)),
    ]);
    let monitors = vec![
        monitor(11, "\\\\.\\DISPLAY1", (0, 0, 3840, 2160), true, None),
        monitor(22, "\\\\.\\DISPLAY2", (3840, 0, 5760, 1080), false, Some("Generic PnP Monitor")),
    ];
    let s = assemble_screens(&monitors, 22, &friendly, &adapters).unwrap();
    assert_eq!(s.main.name, "DISPLAY1: Gigabyte M32U on NVIDIA GeForce RTX 3080 Ti");
    assert_eq!(s.active.name, "DISPLAY2: Generic PnP Monitor on Intel UHD");
    assert_eq!(s.by_name.len(), 2);
    assert_eq!(s.main.scale_percent, 100);
    assert_eq!(s.virtual_rect, ScreenRect { x: 0, y: 0, width: 5760, height: 2160 });
}

#[test]
fn active_defaults_to_main_and_unknown_names() {
    let monitors = vec![monitor(1, "DEV", (0, 0, 800, 600), true, None)];
    let s = assemble_screens(&monitors, 99, &Vec::new(), &Vec::new()).unwrap();
    assert_eq!(s.main.name, "DEV: Unknown on Unknown");
    assert_eq!(s.active.name, s.main.name);
    assert_eq!(s.active.rect, ScreenRect { x: 0, y: 0, width: 800, height: 600 });
}

#[test]
fn no_primary_display_is_an_error() {
    let monitors = vec![monitor(1, "\\\\.\\DISPLAY1", (0, 0, 800, 600), false, None)];
    let r = assemble_screens(&monitors, 1, &Vec::new(), &Vec::new());
    assert!(matches!(r, Err(BridgeError::NoPrimaryDisplay)));
}

#[test]
fn same_name_replaces_display() {
    let monitors = vec![
        monitor(1, "\\\\.\\DISPLAY1", (0, 0, 800, 600), true, None),
        monitor(2, "\\\\.\\DISPLAY1", (800, 0, 1600, 600), false, None),
    ];
    let s = assemble_screens(&monitors, 2, &Vec::new(), &Vec::new()).unwrap();
    assert_eq!(s.by_name.len(), 1);
    assert_eq!(s.by_name[0].rect.x, 800);
    assert_eq!(s.main.rect.x, 0);
}

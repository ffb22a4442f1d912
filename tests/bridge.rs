use window::actor::{Connection, LoopAction, NativeEvent, Subsystem};
use window::guiwin::GuiWin;
use window::notify::{Answer, BridgeError, Command, Message, Query, Reply, WorkItem};
use window::queue::WorkQueue;
use window::record::{Dimensions, WindowRecord, STATE_FULL_SCREEN, STATE_MAXIMIZED};

fn connection_with(windows: &[u64]) -> Connection {
    let mut conn = Connection::new();
    for w in windows {
        conn.realize(*w, WindowRecord::new(640, 480, 96, "font_size = 12".to_string()));
    }
    conn
}

fn drain(conn: &mut Connection, queue: &mut WorkQueue) -> Vec<Reply> {
    let items = queue.take_all();
    conn.run_items(items)
}

fn dims_of(reply: &Reply) -> Dimensions {
    match &reply.outcome {
        Ok(Answer::Dimensions(d)) => *d,
        other => panic!("expected dimensions, got {:?}", other),
    }
}

#[test]
fn commands_run_in_enqueue_order() {
    let mut conn = connection_with(&[1]);
    let win = GuiWin::new(10, 1);
    let mut queue = WorkQueue::new();
    queue.enqueue(win.set_inner_size(100, 100));
    queue.enqueue(win.command(Command::SetRightStatus("first".to_string())));
    queue.enqueue(win.set_inner_size(800, 600));
    queue.enqueue(win.command(Command::SetRightStatus("second".to_string())));
    queue.enqueue(win.set_position(-5, 7));
    let replies = drain(&mut conn, &mut queue);
    assert!(replies.is_empty());
    assert!(queue.is_empty());
    let rec = conn.windows.get(&1).unwrap();
    assert_eq!((rec.pixel_width, rec.pixel_height), (800, 600));
    assert_eq!(rec.right_status, "second");
    assert_eq!((rec.x, rec.y), (-5, 7));
}

#[test]
fn resize_then_dimensions_reflects_resize() {
    let mut conn = connection_with(&[1]);
    let resizer = GuiWin::new(10, 1);
    let asker = GuiWin::new(10, 1);
    let mut queue = WorkQueue::new();
    queue.enqueue(resizer.set_inner_size(800, 600));
    queue.enqueue(asker.get_dimensions(7));
    let replies = drain(&mut conn, &mut queue);
    assert_eq!(replies.len(), 1);
    assert_eq!(replies[0].id, 7);
    assert_eq!(
        dims_of(&replies[0]),
        Dimensions { pixel_width: 800, pixel_height: 600, dpi: 96, is_full_screen: false }
    );
}

#[test]
fn each_query_gets_its_own_reply() {
    let mut conn = connection_with(&[1, 2]);
    let mut queue = WorkQueue::new();
    queue.enqueue(GuiWin::new(10, 2).set_inner_size(300, 200));
    queue.enqueue(GuiWin::new(10, 1).get_dimensions(41));
    queue.enqueue(GuiWin::new(11, 2).get_dimensions(42));
    queue.enqueue(GuiWin::new(11, 2).query(43, Query::GetEffectiveConfig));
    let replies = drain(&mut conn, &mut queue);
    let ids: Vec<u64> = replies.iter().map(|r| r.id).collect();
    assert_eq!(ids, vec![41, 42, 43]);
    assert_eq!(dims_of(&replies[0]).pixel_width, 640);
    assert_eq!(dims_of(&replies[1]).pixel_width, 300);
    match &replies[2].outcome {
        Ok(Answer::Text(t)) => assert_eq!(t, "font_size = 12"),
        other => panic!("unexpected {:?}", other),
    }
}

#[test]
fn query_on_destroyed_window_resolves() {
    let mut conn = connection_with(&[1]);
    let mut queue = WorkQueue::new();
    queue.enqueue(GuiWin::new(10, 1).get_dimensions(5));
    conn.destroy(1);
    let replies = drain(&mut conn, &mut queue);
    assert_eq!(replies.len(), 1);
    assert_eq!(replies[0].id, 5);
    assert!(matches!(replies[0].outcome, Err(BridgeError::WindowGone)));
}

#[test]
fn command_on_destroyed_window_is_dropped() {
    let mut conn = connection_with(&[1]);
    conn.destroy(1);
    let r = conn.execute(GuiWin::new(10, 1).set_inner_size(1, 1));
    assert!(r.is_none());
    assert!(conn.windows.is_empty());
}

#[test]
fn selection_for_removed_pane_is_not_found() {
    let mut conn = connection_with(&[1]);
    conn.set_pane(42, "selected".to_string());
    conn.set_pane(43, "other".to_string());
    conn.remove_pane(42);
    let win = GuiWin::new(10, 1);
    let r = conn.execute(win.get_selection_text_for_pane(9, 42)).unwrap();
    assert_eq!(r.id, 9);
    assert!(matches!(r.outcome, Err(BridgeError::PaneNotFound(42))));
    let r = conn.execute(win.get_selection_text_for_pane(10, 43)).unwrap();
    match r.outcome {
        Ok(Answer::Text(t)) => assert_eq!(t, "other"),
        other => panic!("unexpected {:?}", other),
    }
}

#[test]
fn quit_clears_table_before_exit() {
    let mut conn = connection_with(&[1, 2, 3]);
    assert_eq!(conn.on_poll(None), LoopAction::Wait);
    assert_eq!(conn.on_poll(Some(NativeEvent::Other(15))), LoopAction::Dispatch);
    assert_eq!(conn.windows.len(), 3);
    assert_eq!(conn.on_poll(Some(NativeEvent::Quit)), LoopAction::Exit);
    assert!(conn.windows.is_empty());
}

#[test]
fn full_screen_bit_is_reported() {
    let mut conn = connection_with(&[1]);
    let win = GuiWin::new(10, 1);
    conn.execute(win.command(Command::Maximize));
    let d = dims_of(&conn.execute(win.get_dimensions(1)).unwrap());
    assert!(!d.is_full_screen);
    conn.execute(win.command(Command::ToggleFullscreen));
    assert_eq!(conn.windows.get(&1).unwrap().state, STATE_MAXIMIZED | STATE_FULL_SCREEN);
    let d = dims_of(&conn.execute(win.get_dimensions(2)).unwrap());
    assert!(d.is_full_screen);
    conn.execute(win.command(Command::Restore));
    assert_eq!(conn.windows.get(&1).unwrap().state, 0);
}

#[test]
fn overrides_actions_and_clipboard() {
    let mut conn = connection_with(&[1]);
    let win = GuiWin::new(10, 1);
    conn.execute(win.command(Command::SetConfigOverrides("{color_scheme='x'}".to_string())));
    conn.execute(win.command(Command::PerformAssignment { pane_id: 3, action: "Copy".to_string() }));
    conn.execute(win.command(Command::CopyToClipboard("hello".to_string())));
    let r = conn.execute(win.query(1, Query::GetConfigOverrides)).unwrap();
    match r.outcome {
        Ok(Answer::Text(t)) => assert_eq!(t, "{color_scheme='x'}"),
        other => panic!("unexpected {:?}", other),
    }
    let rec = conn.windows.get(&1).unwrap();
    assert_eq!(rec.pending_actions, vec![(3, "Copy".to_string())]);
    assert_eq!(rec.clipboard_requests, vec!["hello".to_string()]);
    let r = conn.execute(win.query(2, Query::CompositionStatus)).unwrap();
    assert!(matches!(r.outcome, Ok(Answer::MaybeText(None))));
    let r = conn.execute(win.query(3, Query::LeaderIsActive)).unwrap();
    assert!(matches!(r.outcome, Ok(Answer::Flag(false))));
}

#[test]
fn queue_hands_items_out_oldest_first() {
    let mut queue = WorkQueue::new();
    for id in 0..4u64 {
        queue.enqueue(WorkItem { window: id, message: Message::Query { id, query: Query::GetDimensions } });
    }
    assert_eq!(queue.len(), 4);
    let items = queue.take_all();
    let windows: Vec<u64> = items.iter().map(|i| i.window).collect();
    assert_eq!(windows, vec![0, 1, 2, 3]);
    assert!(queue.is_empty());
    assert!(queue.take_all().is_empty());
}

#[test]
fn subsystem_must_be_initialized() {
    let mut sys = Subsystem::new();
    let win = GuiWin::new(10, 1);
    assert!(matches!(sys.execute(win.get_dimensions(1)), Err(BridgeError::NotInitialized)));
    sys.init();
    match sys.execute(win.get_dimensions(2)) {
        Ok(Some(reply)) => {
            assert_eq!(reply.id, 2);
            assert!(matches!(reply.outcome, Err(BridgeError::WindowGone)));
        }
        other => panic!("unexpected {:?}", other),
    }
    sys.conn.as_mut().unwrap().realize(1, WindowRecord::new(1, 2, 3, String::new()));
    sys.init();
    assert_eq!(sys.conn.as_ref().unwrap().windows.len(), 1);
    assert!(matches!(sys.execute(win.set_inner_size(5, 5)), Ok(None)));
    assert_eq!(sys.conn.as_ref().unwrap().windows.get(&1).unwrap().pixel_width, 5);
    sys.shutdown();
    assert!(matches!(sys.execute(win.get_dimensions(3)), Err(BridgeError::NotInitialized)));
}

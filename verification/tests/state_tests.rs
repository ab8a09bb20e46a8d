use pyorion::context::AppContext;
use pyorion::event_loop::{loop_transition, LoopState};
use pyorion::pending::PendingTable;
use pyorion::utils::IdCounter;

#[test]
fn pending_register_resolve() {
    let mut t: PendingTable<&'static str> = PendingTable::new();
    assert_eq!(t.len(), 0);
    assert!(t.register(7, "waiter-7").is_none());
    assert!(t.register(9, "waiter-9").is_none());
    assert_eq!(t.len(), 2);
    assert!(t.contains(7));
    assert!(!t.contains(8));
    assert_eq!(t.remove(7), Some("waiter-7"));
    assert_eq!(t.remove(7), None);
    assert_eq!(t.remove(9), Some("waiter-9"));
    assert_eq!(t.len(), 0);
}

// Two requests with distinct ids each get exactly their own slot back:
// resolving one leaves the other untouched.
#[test]
fn pending_id_isolation() {
    let mut t: PendingTable<String> = PendingTable::new();
    t.register(1, String::from("first connection"));
    t.register(2, String::from("second connection"));
    assert_eq!(t.remove(1), Some(String::from("first connection")));
    assert!(!t.contains(1));
    assert_eq!(t.remove(2), Some(String::from("second connection")));
}

#[test]
fn pending_collision_orphans_old_waiter() {
    let mut t: PendingTable<u32> = PendingTable::new();
    assert!(t.register(5, 100).is_none());
    assert_eq!(t.register(5, 200), Some(100));
    assert_eq!(t.remove(5), Some(200));
}

#[test]
fn id_counter_skips_in_flight_ids() {
    let mut c = IdCounter::new();
    let mut t: PendingTable<()> = PendingTable::new();
    assert_eq!(c.next(&t), Ok(0));
    assert_eq!(c.next(&t), Ok(0));
    t.register(0, ());
    t.register(1, ());
    assert_eq!(c.next(&t), Ok(2));
    t.register(2, ());
    assert_eq!(c.next(&t), Ok(3));
}

#[test]
fn window_registry_lookup() {
    let mut ctx: AppContext<&'static str> = AppContext::new();
    assert!(!ctx.has_window());
    assert!(ctx.get_window().is_err());
    assert!(ctx._window_id().is_err());
    ctx.add_window(11, "main window");
    ctx.add_window(12, "second window");
    assert_eq!(ctx._window_id(), Ok(11));
    assert!(ctx.has_window());
    assert_eq!(ctx.get_window().unwrap(), &"main window");
    assert_eq!(ctx.get_webview().unwrap(), &"main window");
}

// The last open window closing fires the close signal exactly once:
// the first close reports it, and closing again fails without any
// signal.
#[test]
fn close_signal_fires_exactly_once() {
    let mut ctx: AppContext<&'static str> = AppContext::new();
    ctx.add_window(1, "only window");
    let (w, signal) = ctx.close_window().expect("first close succeeds");
    assert_eq!(w, "only window");
    assert!(signal);
    assert!(ctx.close_window().is_err());
    assert!(!ctx.has_window());
}

#[test]
fn close_does_not_signal_while_windows_remain() {
    let mut ctx: AppContext<u32> = AppContext::new();
    ctx.add_window(1, 10);
    ctx.add_window(2, 20);
    let (w, signal) = ctx.close_window().expect("close succeeds");
    assert_eq!(w, 10);
    assert!(!signal);
}

#[test]
fn loop_state_transitions() {
    assert_eq!(loop_transition(LoopState::Running, false), LoopState::Running);
    assert_eq!(loop_transition(LoopState::Running, true), LoopState::Exiting);
    assert_eq!(loop_transition(LoopState::Exiting, false), LoopState::Exiting);
    assert_eq!(loop_transition(LoopState::Exiting, true), LoopState::Exiting);
}

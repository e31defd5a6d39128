use skiboot::imu::AdvertiseRetry;
use skiboot::viewer::{window_action, WindowAction, WindowEventKind};

#[test]
fn no_state_ignores_everything() {
    for e in [
        WindowEventKind::CloseRequested,
        WindowEventKind::Resized { width: 1, height: 2 },
        WindowEventKind::RedrawRequested,
        WindowEventKind::Key { pressed: true },
        WindowEventKind::Other,
    ] {
        assert_eq!(window_action(false, e), WindowAction::Ignore);
    }
}

#[test]
fn with_state_dispatch() {
    assert_eq!(window_action(true, WindowEventKind::CloseRequested), WindowAction::Exit);
    assert_eq!(
        window_action(true, WindowEventKind::Resized { width: 800, height: 600 }),
        WindowAction::Resize { width: 800, height: 600 }
    );
    assert_eq!(window_action(true, WindowEventKind::RedrawRequested), WindowAction::Redraw);
    assert_eq!(
        window_action(true, WindowEventKind::Key { pressed: false }),
        WindowAction::Key { pressed: false }
    );
    assert_eq!(window_action(true, WindowEventKind::Other), WindowAction::Ignore);
}

#[test]
fn advertise_gives_up_on_sixth_error() {
    let mut r = AdvertiseRetry::new();
    for k in 1..=5u32 {
        assert!(!r.on_error());
        assert_eq!(r.errors(), k);
    }
    assert!(r.on_error());
}

use triangle::events::{poll_flags, EventFlags, WindowEventKind};

#[test]
fn no_events_leave_flags_cleared() {
    let flags = poll_flags(&vec![]);
    assert_eq!(flags, EventFlags { done: false, recreate_swapchain: false });
}

#[test]
fn close_request_sets_done_only() {
    let flags = poll_flags(&vec![WindowEventKind::Other, WindowEventKind::CloseRequested]);
    assert_eq!(flags, EventFlags { done: true, recreate_swapchain: false });
}

#[test]
fn resize_sets_recreate_only() {
    let flags = poll_flags(&vec![WindowEventKind::Resized, WindowEventKind::Other]);
    assert_eq!(flags, EventFlags { done: false, recreate_swapchain: true });
}

#[test]
fn both_kinds_set_both_flags() {
    let flags = poll_flags(&vec![
        WindowEventKind::CloseRequested,
        WindowEventKind::Other,
        WindowEventKind::Resized,
        WindowEventKind::Other,
    ]);
    assert_eq!(flags, EventFlags { done: true, recreate_swapchain: true });
}

#[test]
fn observing_one_by_one_matches_polling() {
    let events = vec![WindowEventKind::Other, WindowEventKind::Resized, WindowEventKind::Other];
    let mut flags = EventFlags::none();
    for e in &events {
        flags.observe(*e);
    }
    assert_eq!(flags, poll_flags(&events));
    assert!(!flags.done);
    assert!(flags.recreate_swapchain);
}

#[test]
fn flags_once_set_stay_set() {
    let mut flags = EventFlags::none();
    flags.observe(WindowEventKind::CloseRequested);
    flags.observe(WindowEventKind::Other);
    flags.observe(WindowEventKind::Resized);
    flags.observe(WindowEventKind::Other);
    assert_eq!(flags, EventFlags { done: true, recreate_swapchain: true });
}

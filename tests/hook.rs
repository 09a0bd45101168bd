use mouse_forward::hook::{
    hook_kind, hook_proc, ignore_cursor_events, settle, HookAction, HookKind, MouseHook, Offer,
    QUEUE_CAPACITY, WS_EX_LAYERED, WS_EX_TRANSPARENT,
};
use mouse_forward::listeners::Event;

#[test]
fn stalled_consumer_makes_the_hook_drop_not_block() {
    let (tx, rx) = crossbeam::channel::bounded::<Event>(QUEUE_CAPACITY);
    let n: i32 = 1000;
    let mut queued = 0;
    let mut dropped = 0;
    for i in 0..n {
        match hook_proc(0, 0x200, i, -i, Some(&tx)) {
            HookAction::Queued => queued += 1,
            HookAction::Dropped => dropped += 1,
            other => panic!("unexpected {:?}", other),
        }
    }
    assert_eq!(queued, QUEUE_CAPACITY as i32);
    assert_eq!(dropped, n - QUEUE_CAPACITY as i32);
    for i in 0..QUEUE_CAPACITY as i32 {
        assert_eq!(rx.try_recv().unwrap(), Event::new(0x200, i, -i));
    }
    assert!(rx.try_recv().is_err());
    assert_eq!(hook_proc(0, 0x200, 1, 1, Some(&tx)), HookAction::Queued);
}

#[test]
fn closed_or_missing_queue_drops_moves() {
    let (tx, rx) = crossbeam::channel::bounded::<Event>(QUEUE_CAPACITY);
    drop(rx);
    assert_eq!(hook_proc(0, 0x200, 1, 1, Some(&tx)), HookAction::Dropped);
    assert_eq!(hook_proc(0, 0x200, 1, 1, None), HookAction::Dropped);
}

#[test]
fn hook_sorts_messages() {
    assert_eq!(hook_kind(0, 0x200), HookKind::Move);
    assert_eq!(hook_kind(0, 0x2A3), HookKind::Leave);
    assert_eq!(hook_kind(0, 0x201), HookKind::Other);
    assert_eq!(hook_kind(-1, 0x200), HookKind::Other);
    assert_eq!(hook_kind(0, 0x1_0000_0200), HookKind::Move);
    let (tx, _rx) = crossbeam::channel::bounded::<Event>(QUEUE_CAPACITY);
    assert_eq!(hook_proc(0, 0x2A3, 0, 0, Some(&tx)), HookAction::Leave);
    assert_eq!(hook_proc(-1, 0x200, 0, 0, Some(&tx)), HookAction::Pass);
    assert_eq!(hook_proc(0, 0x201, 0, 0, Some(&tx)), HookAction::Pass);
}

#[test]
fn offers_settle_into_actions() {
    assert_eq!(settle(Offer::Queued), HookAction::Queued);
    assert_eq!(settle(Offer::Full), HookAction::Dropped);
    assert_eq!(settle(Offer::Closed), HookAction::Dropped);
}

#[test]
fn click_through_style_sets_and_clears_two_bits() {
    assert_eq!(WS_EX_LAYERED | WS_EX_TRANSPARENT, 0x80020);
    assert_eq!(ignore_cursor_events(0x100, true), 0x80120);
    assert_eq!(ignore_cursor_events(0x80120, false), 0x100);
    assert_eq!(ignore_cursor_events(0x80020, true), 0x80020);
}

#[test]
fn mouse_hook_is_installed_once() {
    let mut h = MouseHook::new();
    assert!(h.set_mouse_hook());
    h.installed(42);
    assert!(!h.set_mouse_hook());
    h.installed(43);
    assert_eq!(h.unset_mouse_hook(), Some(42));
    assert_eq!(h.unset_mouse_hook(), None);
    assert!(h.set_mouse_hook());
}

use std::sync::atomic::{AtomicUsize, Ordering};
use std::sync::Arc;

use iced_wgpu_embed::{CallbackNotifier, RedrawFlag, SimpleNotifier};

#[test]
fn simple_notifier_request_redraw_sets_flag() {
    let flag = RedrawFlag::new();
    flag.take(); // clear initial
    let notifier = SimpleNotifier::new(&flag);

    notifier.request_redraw();
    assert!(flag.take());
    assert!(!flag.take()); // cleared
}

#[test]
fn simple_notifier_invalidate_layout_sets_flag() {
    let flag = RedrawFlag::new();
    flag.take(); // clear initial
    let notifier = SimpleNotifier::new(&flag);

    notifier.invalidate_layout();
    assert!(flag.take());
}

#[test]
fn callback_notifier_calls_callback_on_redraw() {
    let flag = RedrawFlag::new();
    flag.take(); // clear initial
    let call_count = Arc::new(AtomicUsize::new(0));
    let count_clone = call_count.clone();
    let notifier = CallbackNotifier::new(&flag, move || {
        count_clone.fetch_add(1, Ordering::Relaxed);
    });

    notifier.request_redraw();
    assert!(flag.take());
    assert_eq!(call_count.load(Ordering::Relaxed), 1);

    notifier.request_redraw();
    assert_eq!(call_count.load(Ordering::Relaxed), 2);
}

#[test]
fn callback_notifier_invalidate_layout_calls_callback() {
    let flag = RedrawFlag::new();
    flag.take(); // clear initial
    let call_count = Arc::new(AtomicUsize::new(0));
    let count_clone = call_count.clone();
    let notifier = CallbackNotifier::new(&flag, move || {
        count_clone.fetch_add(1, Ordering::Relaxed);
    });

    notifier.invalidate_layout();
    assert!(flag.take());
    assert_eq!(call_count.load(Ordering::Relaxed), 1);
}

#[test]
fn simple_notifier_does_not_touch_other_flags() {
    let flag = RedrawFlag::new();
    let other = RedrawFlag::new();
    flag.take();
    other.take();
    let notifier = SimpleNotifier::new(&flag);
    notifier.request_redraw();
    assert!(!other.take());
    assert!(flag.take());
}

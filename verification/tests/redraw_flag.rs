use iced_wgpu_embed::RedrawFlag;

#[test]
fn redraw_flag_starts_true() {
    let flag = RedrawFlag::new();
    assert!(flag.take());
}

#[test]
fn redraw_flag_clears_after_take() {
    let flag = RedrawFlag::new();
    flag.take(); // clear initial
    assert!(!flag.take());
}

#[test]
fn redraw_flag_set_and_take() {
    let flag = RedrawFlag::new();
    flag.take(); // clear initial
    flag.set();
    assert!(flag.take());
    assert!(!flag.take());
}

#[test]
fn multiple_redraws_coalesce() {
    let flag = RedrawFlag::new();
    flag.take(); // clear initial
    flag.set();
    flag.set();
    flag.set();
    // Single take clears all
    assert!(flag.take());
    assert!(!flag.take());
}

#[test]
fn default_flag_starts_true() {
    let flag = RedrawFlag::default();
    assert!(flag.take());
    assert!(!flag.take());
}

#[test]
fn clone_and_inner_share_the_flag() {
    let flag = RedrawFlag::new();
    flag.take();
    let copy = flag.clone();
    copy.set();
    assert!(flag.take());
    let inner = flag.inner();
    inner.store(true, std::sync::atomic::Ordering::Release);
    assert!(copy.take());
    assert!(!inner.load(std::sync::atomic::Ordering::Acquire));
}

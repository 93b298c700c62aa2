use std::cell::Cell;

use rosin::view::{ViewState, ViewStateSize, ViewStateSizeBounds};

#[test]
fn default_sizes_are_unbounded() {
    let max = ViewStateSize::default_max();
    let min = ViewStateSize::default_min();
    assert_eq!((max.x, max.y), (i32::MAX, i32::MAX));
    assert_eq!((min.x, min.y), (0, 0));
    let b = ViewStateSizeBounds::default();
    assert_eq!((b.min.x, b.min.y, b.max.x, b.max.y), (0, 0, i32::MAX, i32::MAX));
}

#[test]
fn set_max_and_min_leave_the_other_bound() {
    let mut b = ViewStateSizeBounds::default();
    b.set_max(Some(ViewStateSize { x: 800, y: 600 }));
    assert_eq!((b.max.x, b.max.y), (800, 600));
    b.set_min(Some(ViewStateSize { x: 100, y: 50 }));
    assert_eq!((b.min.x, b.min.y, b.max.x, b.max.y), (100, 50, 800, 600));
    b.set_max(None);
    assert_eq!((b.min.x, b.min.y, b.max.x, b.max.y), (100, 50, i32::MAX, i32::MAX));
    b.set_min(None);
    assert_eq!((b.min.x, b.min.y), (0, 0));
}

#[test]
fn new_view_state_follows_the_factory_outcome() {
    let ok: Result<ViewState<u8, u16>, &str> = ViewState::new(Ok(3));
    let s = ok.unwrap();
    assert_eq!(s.factory, 3);
    assert!(s.render_target.is_none());
    assert_eq!(s.size_bounds.max.x, i32::MAX);
    let err: Result<ViewState<u8, u16>, &str> = ViewState::new(Err("no factory"));
    assert_eq!(err.err(), Some("no factory"));
}

#[test]
fn init_graphics_creates_the_render_target_once() {
    let calls = Cell::new(0);
    let mut s: ViewState<u8, u16> = ViewState::new::<()>(Ok(1)).unwrap();
    let r: Result<(), ()> = s.init(|| {
        calls.set(calls.get() + 1);
        Ok(40)
    });
    assert!(r.is_ok());
    assert_eq!(s.render_target, Some(40));
    let r: Result<(), ()> = s.init_graphics(|| {
        calls.set(calls.get() + 1);
        Ok(41)
    });
    assert!(r.is_ok());
    assert_eq!(s.render_target, Some(40));
    assert_eq!(calls.get(), 1);
}

#[test]
fn init_graphics_failure_leaves_no_render_target() {
    let mut s: ViewState<u8, u16> = ViewState::new::<()>(Ok(1)).unwrap();
    let r: Result<(), &str> = s.init_graphics(|| Err("lost device"));
    assert_eq!(r, Err("lost device"));
    assert!(s.render_target.is_none());
}

#[test]
fn release_drops_the_render_target() {
    let mut s: ViewState<u8, u16> = ViewState::new::<()>(Ok(1)).unwrap();
    let _ = s.init_graphics::<(), _>(|| Ok(9));
    s.release();
    assert!(s.render_target.is_none());
    let _ = s.init_graphics::<(), _>(|| Ok(10));
    s.release_graphics();
    assert!(s.render_target.is_none());
    assert_eq!(s.factory, 1);
}

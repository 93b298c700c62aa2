//! Per-window state: the size bounds of a window and its graphics
//! resources.

use vstd::prelude::*;

verus! {

/// A width and a height in pixels.
pub struct ViewStateSize {
    pub x: i32,
    pub y: i32,
}

impl ViewStateSize {
    /// The maximum size of a window that sets none.
    ///
    /// This library's choice: no upper bound (`i32::MAX` both ways), so the
    /// window manager's own limit applies.
    pub fn default_max() -> (r: Self)
        ensures
            r.x == i32::MAX,
            r.y == i32::MAX,
    {
        ViewStateSize { x: i32::MAX, y: i32::MAX }
    }

    /// The minimum size of a window that sets none.
    ///
    /// This library's choice: no lower bound (0 both ways), so the window
    /// manager's own limit applies.
    pub fn default_min() -> (r: Self)
        ensures
            r.x == 0,
            r.y == 0,
    {
        ViewStateSize { x: 0, y: 0 }
    }
}

/// The size bounds of a window.
pub struct ViewStateSizeBounds {
    pub min: ViewStateSize,
    pub max: ViewStateSize,
}

impl ViewStateSizeBounds {
    /// Sets the maximum size, or restores the default maximum with `None`.
    pub fn set_max(&mut self, size: Option<ViewStateSize>)
        ensures
            final(self).min == old(self).min,
            size matches Some(s) ==> final(self).max == s,
            size is None ==> final(self).max.x == i32::MAX && final(self).max.y == i32::MAX,
    {
        self.max = match size {
            Some(s) => s,
            None => ViewStateSize::default_max(),
        };
    }

    /// Sets the minimum size, or restores the default minimum with `None`.
    pub fn set_min(&mut self, size: Option<ViewStateSize>)
        ensures
            final(self).max == old(self).max,
            size matches Some(s) ==> final(self).min == s,
            size is None ==> final(self).min.x == 0 && final(self).min.y == 0,
    {
        self.min = match size {
            Some(s) => s,
            None => ViewStateSize::default_min(),
        };
    }
}

impl Default for ViewStateSizeBounds {
    fn default() -> (r: Self)
        ensures
            r.min.x == 0 && r.min.y == 0,
            r.max.x == i32::MAX && r.max.y == i32::MAX,
    {
        ViewStateSizeBounds { min: ViewStateSize::default_min(), max: ViewStateSize::default_max() }
    }
}

/// The state attached to a window: a graphics factory `F`, the render
/// target `T` made from it once the window is first painted, and the
/// window's size bounds.
pub struct ViewState<F, T> {
    pub factory: F,
    pub render_target: Option<T>,
    pub size_bounds: ViewStateSizeBounds,
}

impl<F, T> ViewState<F, T> {
    /// A fresh state from the outcome of creating the graphics factory:
    /// fails exactly when that failed, with its error.
    pub fn new<E>(factory: Result<F, E>) -> (r: Result<Self, E>)
        ensures
            match factory {
                Ok(f) => r matches Ok(s) && s.factory == f && s.render_target is None
                    && s.size_bounds.min.x == 0 && s.size_bounds.min.y == 0
                    && s.size_bounds.max.x == i32::MAX && s.size_bounds.max.y == i32::MAX,
                Err(e) => r == Err::<Self, E>(e),
            },
    {
        match factory {
            Ok(f) => Ok(ViewState { factory: f, render_target: None, size_bounds: ViewStateSizeBounds::default() }),
            Err(e) => Err(e),
        }
    }

    /// Initializes all the state: the graphics resources, made by `create`.
    pub fn init<E, C>(&mut self, create: C) -> (r: Result<(), E>)
        where
            C: FnOnce() -> Result<T, E>,
        requires
            old(self).render_target is None ==> create.requires(()),
        ensures
            graphics_initialized(*old(self), *final(self), create, r),
    {
        self.init_graphics(create)
    }

    /// Releases all the state.
    pub fn release(&mut self)
        ensures
            final(self).render_target is None,
            final(self).factory == old(self).factory,
            final(self).size_bounds == old(self).size_bounds,
    {
        self.release_graphics()
    }

    /// Makes the render target with `create` unless there is one already.
    ///
    /// `create` is not called when a render target exists; when it fails,
    /// its error is returned and the state is left without a render target.
    pub fn init_graphics<E, C>(&mut self, create: C) -> (r: Result<(), E>)
        where
            C: FnOnce() -> Result<T, E>,
        requires
            old(self).render_target is None ==> create.requires(()),
        ensures
            graphics_initialized(*old(self), *final(self), create, r),
    {
        if self.render_target.is_none() {
            match create() {
                Ok(target) => {
                    self.render_target = Some(target);
                    Ok(())
                },
                Err(e) => Err(e),
            }
        } else {
            Ok(())
        }
    }

    /// Drops the render target.
    pub fn release_graphics(&mut self)
        ensures
            final(self).render_target is None,
            final(self).factory == old(self).factory,
            final(self).size_bounds == old(self).size_bounds,
    {
        self.render_target = None;
    }
}

/// `post` and `r` are what `init_graphics` makes of `pre` with `create`.
pub open spec fn graphics_initialized<F, T, E, C: FnOnce() -> Result<T, E>>(
    pre: ViewState<F, T>,
    post: ViewState<F, T>,
    create: C,
    r: Result<(), E>,
) -> bool {
    &&& post.factory == pre.factory
    &&& post.size_bounds == pre.size_bounds
    &&& if pre.render_target is Some {
        post.render_target == pre.render_target && r is Ok
    } else {
        exists|made: Result<T, E>| #[trigger]
            create.ensures((), made) && match made {
                Ok(target) => post.render_target == Some(target) && r is Ok,
                Err(e) => post.render_target is None && r == Err::<(), E>(e),
            }
    }
}

/// Initializing the graphics twice makes one render target: once a render
/// target exists, a further initialization keeps it, does not fail, and
/// changes nothing else.
pub proof fn lemma_init_graphics_once<F, T, E, C1: FnOnce() -> Result<T, E>, C2: FnOnce() -> Result<T, E>>(
    pre: ViewState<F, T>,
    mid: ViewState<F, T>,
    post: ViewState<F, T>,
    first: C1,
    second: C2,
    r1: Result<(), E>,
    r2: Result<(), E>,
)
    requires
        graphics_initialized(pre, mid, first, r1),
        r1 is Ok,
        graphics_initialized(mid, post, second, r2),
    ensures
        mid.render_target is Some,
        post == mid,
        r2 is Ok,
{
}

} // verus!

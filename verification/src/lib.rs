//! Platform-independent core of the Win32 backend of the rosin GUI toolkit:
//! thread-affine dispatch of work onto a window's owning thread, the
//! decisions of the window procedure and of the message loop, window
//! geometry and style computations, and the text conversions used at the
//! Win32 boundary.

pub mod dispatch;
pub mod view;
pub mod geometry;
pub mod style;
pub mod message;
pub mod text;
pub mod menu;
pub mod app;

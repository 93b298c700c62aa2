//! Window style bits.

use vstd::prelude::*;

verus! {

/// A title bar (`WS_CAPTION`).
pub const WS_CAPTION: u32 = 0x00C0_0000;

/// A window menu in the title bar (`WS_SYSMENU`).
pub const WS_SYSMENU: u32 = 0x0008_0000;

/// A sizing border (`WS_SIZEBOX`).
pub const WS_SIZEBOX: u32 = 0x0004_0000;

/// A minimize button (`WS_MINIMIZEBOX`).
pub const WS_MINIMIZEBOX: u32 = 0x0002_0000;

/// A maximize button (`WS_MAXIMIZEBOX`).
pub const WS_MAXIMIZEBOX: u32 = 0x0001_0000;

/// The extended style of every window (`WS_EX_OVERLAPPEDWINDOW`).
pub const WS_EX_OVERLAPPEDWINDOW: u32 = 0x0000_0300;

/// The style of a new window: a title bar with a window menu, plus a
/// maximize button, a minimize button and a sizing border as asked.
pub open spec fn spec_window_style(maximize_button: bool, minimize_button: bool, resizeable: bool) -> u32 {
    WS_CAPTION | WS_SYSMENU | (if maximize_button { WS_MAXIMIZEBOX } else { 0 }) | (if minimize_button {
        WS_MINIMIZEBOX
    } else {
        0
    }) | (if resizeable { WS_SIZEBOX } else { 0 })
}

/// The style of a new window.
///
/// A window always has a close button: asking for none is not supported.
pub fn window_style(close_button: bool, maximize_button: bool, minimize_button: bool, resizeable: bool) -> (r: u32)
    requires
        close_button,
    ensures
        r == spec_window_style(maximize_button, minimize_button, resizeable),
        r & WS_CAPTION == WS_CAPTION,
        r & WS_SYSMENU == WS_SYSMENU,
        (r & WS_MAXIMIZEBOX != 0) == maximize_button,
        (r & WS_MINIMIZEBOX != 0) == minimize_button,
        (r & WS_SIZEBOX != 0) == resizeable,
        r & !(WS_CAPTION | WS_SYSMENU | WS_MAXIMIZEBOX | WS_MINIMIZEBOX | WS_SIZEBOX) == 0,
{
    let mut style: u32 = WS_CAPTION | WS_SYSMENU;
    let m: u32 = if maximize_button { WS_MAXIMIZEBOX } else { 0 };
    let n: u32 = if minimize_button { WS_MINIMIZEBOX } else { 0 };
    let s: u32 = if resizeable { WS_SIZEBOX } else { 0 };
    style = style | m;
    style = style | n;
    style = style | s;
    assert(
        style & 0x00C0_0000 == 0x00C0_0000
        && style & 0x0008_0000 == 0x0008_0000
        && (style & 0x0001_0000 != 0) == (m != 0)
        && (style & 0x0002_0000 != 0) == (n != 0)
        && (style & 0x0004_0000 != 0) == (s != 0)
        && style & !(0x00C0_0000u32 | 0x0008_0000u32 | 0x0001_0000u32 | 0x0002_0000u32 | 0x0004_0000u32) == 0
    ) by (bit_vector)
        requires
            style == 0x00C0_0000u32 | 0x0008_0000u32 | m | n | s,
            m == 0 || m == 0x0001_0000,
            n == 0 || n == 0x0002_0000,
            s == 0 || s == 0x0004_0000,
    ;
    style
}

/// A window style value (`GWL_STYLE`) with the sizing border switched on
/// or off.
pub open spec fn spec_resizable_style(style: isize, resizable: bool) -> isize {
    if resizable {
        style | (WS_SIZEBOX as isize)
    } else {
        style & !(WS_SIZEBOX as isize)
    }
}

/// Switches the sizing border of a window style value on or off, leaving
/// every other bit as it was.
pub fn resizable_style(style: isize, resizable: bool) -> (r: isize)
    ensures
        r == spec_resizable_style(style, resizable),
        (r & 0x0004_0000isize != 0) == resizable,
        r & !0x0004_0000isize == style & !0x0004_0000isize,
{
    let bit: isize = 0x0004_0000;
    let r = if resizable { style | bit } else { style & !bit };
    assert((r & 0x0004_0000isize != 0) == resizable && r & !0x0004_0000isize == style & !0x0004_0000isize)
        by (bit_vector)
        requires
            resizable ==> r == style | 0x0004_0000isize,
            !resizable ==> r == style & !0x0004_0000isize,
    ;
    r
}

/// The last call of `set_resizable` wins: switching the sizing border of
/// a style that was switched before gives what switching the original
/// style gives.
pub proof fn lemma_last_resizable_setting_wins(style: isize, first: bool, second: bool)
    ensures
        spec_resizable_style(spec_resizable_style(style, first), second) == spec_resizable_style(style, second),
{
    let a = spec_resizable_style(style, first);
    assert(spec_resizable_style(a, second) == spec_resizable_style(style, second)) by (bit_vector)
        requires
            first ==> a == style | 0x0004_0000isize,
            !first ==> a == style & !0x0004_0000isize,
            spec_resizable_style(a, second) == if second { a | 0x0004_0000isize } else { a & !0x0004_0000isize },
            spec_resizable_style(style, second) == if second { style | 0x0004_0000isize } else { style & !0x0004_0000isize },
    ;
}

} // verus!

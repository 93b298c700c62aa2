use rosin::style::{resizable_style, window_style, WS_CAPTION, WS_EX_OVERLAPPEDWINDOW, WS_MAXIMIZEBOX, WS_MINIMIZEBOX, WS_SIZEBOX, WS_SYSMENU};

#[test]
fn style_bits_have_their_win32_values() {
    assert_eq!(WS_CAPTION, 12582912);
    assert_eq!(WS_SYSMENU, 524288);
    assert_eq!(WS_SIZEBOX, 262144);
    assert_eq!(WS_MINIMIZEBOX, 131072);
    assert_eq!(WS_MAXIMIZEBOX, 65536);
    assert_eq!(WS_EX_OVERLAPPEDWINDOW, 768);
}

#[test]
fn window_style_has_caption_and_menu_plus_the_asked_buttons() {
    assert_eq!(window_style(true, false, false, false), WS_CAPTION | WS_SYSMENU);
    assert_eq!(window_style(true, true, false, true), 0x00CD_0000);
    assert_eq!(window_style(true, true, true, true), WS_CAPTION | WS_SYSMENU | WS_MAXIMIZEBOX | WS_MINIMIZEBOX | WS_SIZEBOX);
    assert_eq!(window_style(true, false, true, false), WS_CAPTION | WS_SYSMENU | WS_MINIMIZEBOX);
}

#[test]
fn resizable_style_switches_only_the_sizing_border() {
    let style: isize = 0x00CF_0000 | 0x1;
    assert_eq!(resizable_style(style, false), 0x00CB_0001);
    assert_eq!(resizable_style(0x00CB_0001, true), 0x00CF_0001);
    assert_eq!(resizable_style(-1, false), !0x0004_0000isize);
}

#[test]
fn last_resizable_setting_wins() {
    let style: isize = 0x1234_5678;
    for first in [false, true] {
        for second in [false, true] {
            assert_eq!(resizable_style(resizable_style(style, first), second), resizable_style(style, second));
        }
    }
}

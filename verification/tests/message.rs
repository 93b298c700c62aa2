use rosin::message::{
    decide_message, decode_resize, handler_result, message_loop_step, shell_execute_failed, LoopStep, MessageAction, Resize, SIZE_MAXHIDE,
    SIZE_MAXIMIZED, SIZE_MAXSHOW, SIZE_MINIMIZED, SIZE_RESTORED, WM_DESTROY, WM_GETMINMAXINFO, WM_NCCREATE, WM_PAINT, WM_SIZE,
};

#[test]
fn message_codes_have_their_win32_values() {
    assert_eq!((WM_DESTROY, WM_SIZE, WM_PAINT, WM_GETMINMAXINFO, WM_NCCREATE), (2, 5, 15, 36, 129));
    assert_eq!((SIZE_RESTORED, SIZE_MINIMIZED, SIZE_MAXIMIZED, SIZE_MAXSHOW, SIZE_MAXHIDE), (0, 1, 2, 3, 4));
}

#[test]
fn decode_resize_reads_each_size_code() {
    assert!(matches!(decode_resize(0), Resize::Restore(0, 0)));
    assert!(matches!(decode_resize(1), Resize::Minimize));
    assert!(matches!(decode_resize(2), Resize::Maximize));
    assert!(matches!(decode_resize(3), Resize::MaxShow(0, 0)));
    assert!(matches!(decode_resize(4), Resize::MaxHide));
}

#[test]
fn decide_message_per_message() {
    assert!(matches!(decide_message(WM_NCCREATE, 0, true), MessageAction::Default));
    assert!(matches!(decide_message(WM_PAINT, 0, false), MessageAction::Paint));
    assert!(matches!(decide_message(WM_PAINT, 0, true), MessageAction::Paint));
    assert!(matches!(decide_message(WM_SIZE, 2, true), MessageAction::Resize(Resize::Maximize)));
    assert!(matches!(decide_message(WM_SIZE, 99, false), MessageAction::Default));
    assert!(matches!(decide_message(WM_GETMINMAXINFO, 0, false), MessageAction::Handled));
    assert!(matches!(decide_message(WM_DESTROY, 0, true), MessageAction::Quit));
    assert!(matches!(decide_message(0x0100, 0, true), MessageAction::Default));
}

#[test]
fn handler_result_is_zero_or_minus_one() {
    assert_eq!(handler_result::<()>(Ok(())), 0);
    assert_eq!(handler_result(Err("failed")), -1);
}

#[test]
fn message_loop_step_by_fetch_result() {
    assert!(matches!(message_loop_step(1), LoopStep::Dispatch));
    assert!(matches!(message_loop_step(0), LoopStep::Stop));
    assert!(matches!(message_loop_step(-1), LoopStep::Fail(-1)));
}

#[test]
fn shell_execute_fails_up_to_thirty_two() {
    assert!(shell_execute_failed(0));
    assert!(shell_execute_failed(32));
    assert!(!shell_execute_failed(33));
    assert!(!shell_execute_failed(usize::MAX));
}

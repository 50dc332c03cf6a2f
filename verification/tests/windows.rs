use clipboard::common::{ClipboardError, CHANGED, DELIVERY_ERROR};
use clipboard::windows_clipboard::{
    create_window, encode_wide_null, get_msg, window_class_name, ClipboardListener, Handler,
    WindowsClipboardContext, LISTENER_ADDED,
};

fn wide_null_by_std(text: &str) -> Vec<u16> {
    let mut units: Vec<u16> = text.encode_utf16().collect();
    units.push(0);
    units
}

#[test]
fn class_name_is_static_with_a_zero() {
    assert_eq!(window_class_name(), vec![0x53, 0x54, 0x41, 0x54, 0x49, 0x43, 0]);
}

#[test]
fn empty_text_is_one_zero() {
    assert_eq!(encode_wide_null(""), vec![0]);
}

#[test]
fn wide_units_below_the_surrogates() {
    assert_eq!(encode_wide_null("a\u{fc}\u{20ac}"), vec![0x61, 0xfc, 0x20ac, 0]);
    assert_eq!(encode_wide_null("\u{d7ff}\u{e000}\u{ffff}"), vec![0xd7ff, 0xe000, 0xffff, 0]);
}

#[test]
fn wide_units_of_a_surrogate_pair() {
    assert_eq!(encode_wide_null("\u{1f4cb}"), vec![0xd83d, 0xdccb, 0]);
    assert_eq!(encode_wide_null("\u{10000}"), vec![0xd800, 0xdc00, 0]);
    assert_eq!(encode_wide_null("\u{10ffff}"), vec![0xdbff, 0xdfff, 0]);
}

#[test]
fn wide_units_are_those_of_std() {
    for text in ["STATIC", "", "x\u{0}y", "gr\u{fc}\u{df}e \u{1f4cb} \u{10ffff}\u{ffff}"] {
        assert_eq!(encode_wide_null(text), wide_null_by_std(text));
    }
}

#[test]
fn signals_are_zero_and_one() {
    assert_eq!(CHANGED, 0);
    assert_eq!(DELIVERY_ERROR, 1);
    assert_eq!(LISTENER_ADDED, 1);
}

#[test]
fn null_window_is_a_failed_registration() {
    assert_eq!(create_window(0), Err(ClipboardError::ListenerRegistrationFailed));
    assert_eq!(create_window(0x1f00), Ok(0x1f00));
    assert_eq!(create_window(usize::MAX), Ok(usize::MAX));
}

#[test]
fn listener_needs_a_window_and_an_enrolment() {
    let listener = ClipboardListener::new(0x1f00, 1).unwrap();
    assert_eq!(listener.hwnd(), 0x1f00);
    assert_eq!(
        ClipboardListener::new(0x1f00, 0).unwrap_err(),
        ClipboardError::ListenerRegistrationFailed
    );
    assert_eq!(
        ClipboardListener::new(0x1f00, 2).unwrap_err(),
        ClipboardError::ListenerRegistrationFailed
    );
    assert_eq!(
        ClipboardListener::new(0x1f00, -1).unwrap_err(),
        ClipboardError::ListenerRegistrationFailed
    );
    assert_eq!(
        ClipboardListener::new(0, 1).unwrap_err(),
        ClipboardError::ListenerRegistrationFailed
    );
}

#[test]
fn negative_wait_is_a_delivery_error() {
    assert_eq!(get_msg(-1), Err(ClipboardError::DeliveryError));
    assert_eq!(get_msg(i32::MIN), Err(ClipboardError::DeliveryError));
    assert_eq!(get_msg(0), Ok(()));
    assert_eq!(get_msg(1), Ok(()));
    assert_eq!(get_msg(i32::MAX), Ok(()));
}

#[test]
fn each_message_is_one_element() {
    let mut listener = ClipboardListener::new(0x20, 1).unwrap();
    assert_eq!(listener.next(1), Some(0));
    assert_eq!(listener.next(1), Some(0));
    assert_eq!(listener.next(0), Some(0));
}

#[test]
fn delivery_error_does_not_end_the_sequence() {
    let mut listener = ClipboardListener::new(0x20, 1).unwrap();
    assert_eq!(listener.next(-1), Some(1));
    assert_eq!(listener.next(1), Some(0));
    assert_eq!(listener.next(-1), Some(1));
    assert_eq!(listener.hwnd(), 0x20);
}

#[test]
fn release_hands_out_the_window() {
    let mut handles: Vec<usize> = Vec::new();
    for h in 1..6usize {
        let listener = ClipboardListener::new(h, 1).unwrap();
        handles.push(listener.release());
    }
    assert_eq!(handles, vec![1, 2, 3, 4, 5]);
}

#[test]
fn context_is_always_made() {
    assert_eq!(WindowsClipboardContext::new(), Ok(WindowsClipboardContext));
    assert_eq!(Handler, Handler);
}

#[test]
fn context_reads_and_writes() {
    let mut ctx = WindowsClipboardContext::new().unwrap();
    assert_eq!(ctx.get_contents(Some("hello".to_string())), Ok("hello".to_string()));
    assert_eq!(ctx.get_contents(Some(String::new())), Ok(String::new()));
    assert_eq!(ctx.get_contents(None), Err(ClipboardError::NoTextContent));
    assert_eq!(ctx.set_contents(true), Ok(()));
    assert_eq!(ctx.set_contents(false), Err(ClipboardError::WriteRejected));
}

#[test]
fn context_returns_a_failed_registration() {
    let mut ctx = WindowsClipboardContext::new().unwrap();
    assert_eq!(ctx.iter(0x44, 1).unwrap().hwnd(), 0x44);
    assert_eq!(ctx.iter(0x44, 0).unwrap_err(), ClipboardError::ListenerRegistrationFailed);
    assert_eq!(ctx.iter(0, 1).unwrap_err(), ClipboardError::ListenerRegistrationFailed);
}

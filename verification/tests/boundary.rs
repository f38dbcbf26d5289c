use zen_ffi::{
    release_bytes, release_text, try_borrow_raw, try_borrow_text, CallerPtr, ReleaseAction,
};

fn text_ptr(s: &str) -> CallerPtr {
    CallerPtr::Data { bytes: s.as_bytes().to_vec() }
}

#[test]
fn release_text_null_is_noop() {
    assert_eq!(release_text(None), ReleaseAction::Ignore);
}

#[test]
fn release_bytes_null_is_noop() {
    assert_eq!(release_bytes(None), ReleaseAction::Ignore);
}

#[test]
fn release_null_any_number_of_times() {
    for _ in 0..16 {
        assert_eq!(release_text(None), ReleaseAction::Ignore);
        assert_eq!(release_bytes(None), ReleaseAction::Ignore);
    }
}

#[test]
fn release_non_null_reclaims() {
    assert_eq!(release_text(Some(0x1000)), ReleaseAction::Reclaim);
    assert_eq!(release_bytes(Some(0x2000)), ReleaseAction::Reclaim);
}

#[test]
fn release_leaves_other_handles_alone() {
    // Two independent handles: releasing one decides nothing about the other.
    assert_eq!(release_text(Some(0x1000)), ReleaseAction::Reclaim);
    assert_eq!(release_text(Some(0x3000)), ReleaseAction::Reclaim);
}

#[test]
fn borrow_null_is_absent() {
    let p = CallerPtr::Null;
    assert!(try_borrow_raw(&p).is_none());
    assert!(try_borrow_text(&p).is_none());
}

#[test]
fn borrow_text_matches_contents() {
    let p = text_ptr("hello");
    let v = try_borrow_text(&p).expect("well-formed text must be present");
    assert_eq!(v.as_slice(), b"hello");
}

#[test]
fn borrow_text_multibyte_matches_contents() {
    let p = text_ptr("h\u{e9}llo \u{4e16}\u{754c} \u{1f600}");
    let v = try_borrow_text(&p).expect("well-formed text must be present");
    assert_eq!(v.as_slice(), "h\u{e9}llo \u{4e16}\u{754c} \u{1f600}".as_bytes());
}

#[test]
fn borrow_invalid_text_absent_raw_present() {
    let p = CallerPtr::Data { bytes: vec![0xff, 0x41, 0x42] };
    assert!(try_borrow_text(&p).is_none());
    let raw = try_borrow_raw(&p).expect("raw view is present for any non-null pointer");
    assert_eq!(raw.as_slice(), &[0xff, 0x41, 0x42]);
}

#[test]
fn borrow_truncated_multibyte_absent() {
    // A lead byte promising three bytes, cut off after two.
    let p = CallerPtr::Data { bytes: vec![0x41, 0xe2, 0x82] };
    assert!(try_borrow_text(&p).is_none());
    assert!(try_borrow_raw(&p).is_some());
}

#[test]
fn borrow_empty_text_present() {
    let p = CallerPtr::Data { bytes: Vec::new() };
    let v = try_borrow_text(&p).expect("the empty buffer is well-formed text");
    assert!(v.is_empty());
}

#[test]
fn text_handle_handoff_scenario() {
    // Allocate an owned text handle for "hello", read it through the
    // boundary, then release it: present view, matching contents, no fault.
    let p = text_ptr("hello");
    let v = try_borrow_text(&p).expect("present");
    assert_eq!(v.as_slice(), b"hello");
    assert_eq!(release_text(Some(0x5448)), ReleaseAction::Reclaim);
}

#[test]
fn byte_buffer_handoff_scenario() {
    // An owned byte-buffer handle for [0xFF, 0x00, 0x10]: its contents
    // never cross the borrow path, and releasing it reclaims exactly once.
    let _contents: [u8; 3] = [0xff, 0x00, 0x10];
    assert_eq!(release_bytes(Some(0x6000)), ReleaseAction::Reclaim);
}

use nwrfc::error::{RfcErrorGroup, Warning, KEY_LEN, MESSAGE_LEN};
use nwrfc::rc::{check_handle, check_rc, is_rc_ok, HandleSlot, RfcRc};
use nwrfc::uc::from_str;
use nwrfc::RfcErrorInfo;

#[test]
fn new_error_is_zeroed() {
    let e = RfcErrorInfo::new();
    assert_eq!(e.code(), RfcRc::RfcOk);
    assert_eq!(e.group(), RfcErrorGroup::NoFailure);
    assert_eq!(e.key().unwrap(), "");
    assert_eq!(e.message().unwrap(), "");
}

#[test]
fn custom_error_fields() {
    let e = RfcErrorInfo::custom("connection refused");
    assert_eq!(e.code(), RfcRc::UnknownError);
    assert_eq!(e.group(), RfcErrorGroup::ExternalApplicationFailure);
    assert_eq!(e.message().unwrap(), "connection refused");
    assert_eq!(e.key().unwrap(), "");
}

#[test]
fn custom_error_message_is_cut_to_field_width() {
    let long = "m".repeat(MESSAGE_LEN + 10);
    let e = RfcErrorInfo::custom(&long);
    assert_eq!(e.message().unwrap(), "m".repeat(MESSAGE_LEN));
}

#[test]
fn native_error_fields_are_kept() {
    let key = from_str("RFC_INVALID_PARAMETER");
    let msg = from_str("Parameter INVALID is unknown");
    let e = RfcErrorInfo::from_native(
        RfcRc::InvalidParameter,
        RfcErrorGroup::ExternalRuntimeFailure,
        &key,
        &msg,
        &[],
        &[],
        &[],
        &[],
        &[],
        &[],
        &[],
    );
    assert_eq!(e.code(), RfcRc::InvalidParameter);
    assert_eq!(e.group(), RfcErrorGroup::ExternalRuntimeFailure);
    assert_eq!(e.key().unwrap(), "RFC_INVALID_PARAMETER");
    assert_eq!(e.message().unwrap(), "Parameter INVALID is unknown");
    let long_key = vec![0x4Bu16; KEY_LEN + 3];
    let cut = RfcErrorInfo::from_native(
        RfcRc::UnknownError,
        RfcErrorGroup::NoFailure,
        &long_key,
        &[],
        &[],
        &[],
        &[],
        &[],
        &[],
        &[],
        &[],
    );
    assert_eq!(cut.key().unwrap(), "K".repeat(KEY_LEN));
}

#[test]
fn undecodable_key_is_an_error() {
    let e = RfcErrorInfo::from_native(
        RfcRc::UnknownError,
        RfcErrorGroup::NoFailure,
        &[0xDC00],
        &[],
        &[],
        &[],
        &[],
        &[],
        &[],
        &[],
        &[],
    );
    let err = e.key().unwrap_err();
    assert_eq!(err.code(), RfcRc::UnknownError);
    assert_eq!(err.message().unwrap(), "invalid wide-character text");
}

#[test]
fn status_codes() {
    assert!(is_rc_ok(RfcRc::RfcOk));
    assert!(!is_rc_ok(RfcRc::BufferTooSmall));
    assert!(check_rc(RfcRc::RfcOk, RfcErrorInfo::new()).is_ok());
    let e = check_rc(RfcRc::CommunicationFailure, RfcErrorInfo::custom("down")).unwrap_err();
    assert_eq!(e.message().unwrap(), "down");
}

#[test]
fn null_handles_are_errors() {
    assert_eq!(check_handle(42, RfcErrorInfo::new()).unwrap(), 42);
    let e = check_handle(0, RfcErrorInfo::custom("no handle")).unwrap_err();
    assert_eq!(e.message().unwrap(), "no handle");
}

#[test]
fn handle_slot_hands_out_once() {
    let mut slot = HandleSlot::new(17);
    assert!(!slot.is_null());
    assert_eq!(slot.take(), Some(17));
    assert!(slot.is_null());
    assert_eq!(slot.get(), 0);
    assert_eq!(slot.take(), None);
    let mut empty = HandleSlot::new(0);
    assert_eq!(empty.take(), None);
}

#[test]
fn warnings_carry_the_error() {
    let w = Warning::ConnectionCloseFailed(RfcErrorInfo::custom("close"));
    match w {
        Warning::ConnectionCloseFailed(e) => assert_eq!(e.message().unwrap(), "close"),
        _ => panic!("wrong warning"),
    }
}

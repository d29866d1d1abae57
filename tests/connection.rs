use nwrfc::error::Warning;
use nwrfc::rc::RfcRc;
use nwrfc::uc::from_str;
use nwrfc::{RfcConnection, RfcConnectionBuilder, RfcErrorInfo};

#[test]
fn builder_starts_empty() {
    assert!(RfcConnectionBuilder::new().encoded_params().is_empty());
    assert!(RfcConnection::builder().encoded_params().is_empty());
}

#[test]
fn builder_for_dest_sets_dest() {
    let b = RfcConnectionBuilder::for_dest("TEST");
    let p = b.encoded_params();
    assert_eq!(p.len(), 1);
    assert_eq!(p[0].0, from_str("dest"));
    assert_eq!(p[0].1, from_str("TEST"));
}

#[test]
fn set_param_holds_values_as_text() {
    let a = RfcConnectionBuilder::new().set_param("sysnr", 0);
    let b = RfcConnectionBuilder::new().set_param("sysnr", "0");
    assert_eq!(a.encoded_params(), b.encoded_params());
    assert_eq!(a.encoded_params()[0].1, from_str("0"));
}

#[test]
fn set_param_last_write_wins() {
    let b = RfcConnectionBuilder::new()
        .set_param("dest", "INVALID")
        .set_param("client", 100)
        .set_param("dest", "TEST");
    let p = b.encoded_params();
    assert_eq!(p.len(), 2);
    assert_eq!(p[0], (from_str("dest"), from_str("TEST")));
    assert_eq!(p[1], (from_str("client"), from_str("100")));
}

#[test]
fn builder_clone_keeps_entries() {
    let b = RfcConnectionBuilder::new().set_param("ashost", "10.0.0.1").set_param("user", "ME");
    let c = b.clone();
    assert_eq!(b.encoded_params(), c.encoded_params());
}

#[test]
fn null_open_handle_fails_with_its_error() {
    let err = RfcConnection::from_open(0, RfcErrorInfo::custom("destination INVALID")).unwrap_err();
    assert_eq!(err.message().unwrap(), "destination INVALID");
}

#[test]
fn connection_releases_once() {
    let mut conn = RfcConnection::from_open(0x1000, RfcErrorInfo::new()).unwrap();
    assert!(conn.is_open());
    assert_eq!(conn.handle(), 0x1000);
    assert_eq!(conn.release(), Some(0x1000));
    assert!(!conn.is_open());
    assert_eq!(conn.release(), None);
    assert_eq!(conn.release(), None);
}

#[test]
fn close_failure_is_only_a_warning() {
    assert!(RfcConnection::close_report(RfcRc::RfcOk, RfcErrorInfo::new()).is_none());
    match RfcConnection::close_report(RfcRc::Closed, RfcErrorInfo::custom("gone")) {
        Some(Warning::ConnectionCloseFailed(e)) => assert_eq!(e.message().unwrap(), "gone"),
        other => panic!("unexpected report {:?}", other),
    }
}

use nwrfc::error::Warning;
use nwrfc::function::ReleaseStep;
use nwrfc::parameter::{string_buffer_len, string_from_buffer, RfcDirection, RfcParameterDesc, RfcType};
use nwrfc::rc::RfcRc;
use nwrfc::uc::{from_str, from_str_to_abap_name};
use nwrfc::{RfcConnection, RfcErrorInfo, RfcFunction};

fn desc(name: &str, rfc_type: RfcType, direction: RfcDirection, optional: bool) -> RfcParameterDesc {
    RfcParameterDesc {
        name: from_str_to_abap_name(name),
        rfc_type,
        direction,
        nuc_length: 0,
        uc_length: 0,
        decimals: 0,
        optional,
    }
}

#[test]
fn failed_instance_creation_is_an_error() {
    let conn = RfcConnection::from_open(1, RfcErrorInfo::new()).unwrap();
    let err = RfcFunction::new(&conn, 2, 0, RfcErrorInfo::custom("out of memory")).unwrap_err();
    assert_eq!(err.message().unwrap(), "out of memory");
}

#[test]
fn function_handles() {
    let conn = RfcConnection::from_open(1, RfcErrorInfo::new()).unwrap();
    let f = RfcFunction::new(&conn, 2, 3, RfcErrorInfo::new()).unwrap();
    assert_eq!(f.connection_handle(), 1);
    assert_eq!(f.desc_handle(), 2);
    assert_eq!(f.func_handle(), 3);
}

#[test]
fn release_instance_then_description_once() {
    let conn = RfcConnection::from_open(1, RfcErrorInfo::new()).unwrap();
    let mut f = RfcFunction::new(&conn, 2, 3, RfcErrorInfo::new()).unwrap();
    assert_eq!(f.next_release(), Some(ReleaseStep::DestroyInstance(3)));
    assert_eq!(f.next_release(), Some(ReleaseStep::DestroyDescription(2)));
    assert_eq!(f.next_release(), None);
    assert_eq!(f.next_release(), None);
    assert_eq!(f.func_handle(), 0);
    assert_eq!(f.desc_handle(), 0);
}

#[test]
fn cached_description_is_no_failure() {
    assert!(RfcFunction::description_release_report(RfcRc::IllegalState, RfcErrorInfo::new()).is_none());
    assert!(RfcFunction::description_release_report(RfcRc::RfcOk, RfcErrorInfo::new()).is_none());
    match RfcFunction::description_release_report(RfcRc::InvalidHandle, RfcErrorInfo::custom("bad")) {
        Some(Warning::FunctionDescriptionDiscardFailed(e)) => assert_eq!(e.message().unwrap(), "bad"),
        other => panic!("unexpected report {:?}", other),
    }
}

#[test]
fn instance_release_failure_is_a_warning() {
    assert!(RfcFunction::instance_release_report(RfcRc::RfcOk, RfcErrorInfo::new()).is_none());
    match RfcFunction::instance_release_report(RfcRc::IllegalState, RfcErrorInfo::custom("busy")) {
        Some(Warning::FunctionDiscardFailed(e)) => assert_eq!(e.message().unwrap(), "busy"),
        other => panic!("unexpected report {:?}", other),
    }
}

#[test]
fn unknown_parameter_is_an_error() {
    let conn = RfcConnection::from_open(1, RfcErrorInfo::new()).unwrap();
    let f = RfcFunction::new(&conn, 2, 3, RfcErrorInfo::new()).unwrap();
    let d = desc("INVALID", RfcType::Char, RfcDirection::Import, false);
    let err = f
        .get_parameter(RfcRc::InvalidParameter, d, RfcErrorInfo::custom("no such parameter"))
        .err()
        .unwrap();
    assert_eq!(err.message().unwrap(), "no such parameter");
}

#[test]
fn import_string_parameter() {
    let conn = RfcConnection::from_open(1, RfcErrorInfo::new()).unwrap();
    let f = RfcFunction::new(&conn, 2, 3, RfcErrorInfo::new()).unwrap();
    let p = f
        .get_parameter(RfcRc::RfcOk, desc("IMP", RfcType::AbapString, RfcDirection::Import, false), RfcErrorInfo::new())
        .ok()
        .unwrap();
    assert_eq!(p.name().unwrap(), "IMP");
    assert!(p.is_import());
    assert!(!p.is_export());
    assert!(!p.is_optional());
    assert!(p.is_string());
    assert!(!p.is_int());
    assert!(!p.is_structure());
    assert!(!p.is_table());
    assert_eq!(p.container_handle(), 3);
}

#[test]
fn capability_checks() {
    let conn = RfcConnection::from_open(1, RfcErrorInfo::new()).unwrap();
    let f = RfcFunction::new(&conn, 2, 3, RfcErrorInfo::new()).unwrap();
    let changing = f
        .get_parameter(RfcRc::RfcOk, desc("CHG", RfcType::Int2, RfcDirection::Changing, true), RfcErrorInfo::new())
        .ok()
        .unwrap();
    assert!(changing.is_import());
    assert!(changing.is_export());
    assert!(changing.is_int());
    assert!(changing.is_optional());
    let num = f
        .get_parameter(RfcRc::RfcOk, desc("N", RfcType::Num, RfcDirection::Export, false), RfcErrorInfo::new())
        .ok()
        .unwrap();
    assert!(num.is_int());
    assert!(num.is_export());
    assert!(!num.is_import());
    let tab = f
        .get_parameter(RfcRc::RfcOk, desc("T", RfcType::Table, RfcDirection::Tables, false), RfcErrorInfo::new())
        .ok()
        .unwrap();
    assert!(tab.is_table());
    let st = f
        .get_parameter(RfcRc::RfcOk, desc("S", RfcType::Structure, RfcDirection::Import, false), RfcErrorInfo::new())
        .ok()
        .unwrap();
    assert!(st.is_structure());
    assert!(!st.is_table());
}

#[test]
fn structure_and_table_views() {
    let conn = RfcConnection::from_open(1, RfcErrorInfo::new()).unwrap();
    let f = RfcFunction::new(&conn, 2, 3, RfcErrorInfo::new()).unwrap();
    let st = f
        .get_parameter(RfcRc::RfcOk, desc("IMPORTSTRUCT", RfcType::Structure, RfcDirection::Import, false), RfcErrorInfo::new())
        .ok()
        .unwrap();
    let s = st.as_structure(10, 11, RfcErrorInfo::new()).ok().unwrap();
    assert_eq!(s.struct_handle(), 10);
    assert_eq!(s.type_desc_handle(), 11);
    let bad = f
        .get_parameter(RfcRc::RfcOk, desc("X", RfcType::Structure, RfcDirection::Import, false), RfcErrorInfo::new())
        .ok()
        .unwrap();
    let err = bad.as_structure(10, 0, RfcErrorInfo::custom("no type")).err().unwrap();
    assert_eq!(err.message().unwrap(), "no type");
    let tp = f
        .get_parameter(RfcRc::RfcOk, desc("T", RfcType::Table, RfcDirection::Tables, false), RfcErrorInfo::new())
        .ok()
        .unwrap();
    let mut t = tp.as_table(20, 21, RfcErrorInfo::new()).ok().unwrap();
    assert_eq!(t.table_handle(), 20);
    assert_eq!(t.type_desc_handle(), 21);
    {
        let row = t.row(30, 31);
        assert_eq!(row.struct_handle(), 30);
        assert_eq!(row.type_desc_handle(), 31);
    }
    {
        let appended = t.new_row(40, RfcErrorInfo::new()).ok().unwrap();
        assert_eq!(appended.struct_handle(), 40);
        assert_eq!(appended.type_desc_handle(), 21);
    }
    let err = t.new_row(0, RfcErrorInfo::custom("no row")).err().unwrap();
    assert_eq!(err.message().unwrap(), "no row");
}

#[test]
fn invoke_result_follows_status() {
    let conn = RfcConnection::from_open(1, RfcErrorInfo::new()).unwrap();
    let f = RfcFunction::new(&conn, 2, 3, RfcErrorInfo::new()).unwrap();
    assert!(f.invoke_result(RfcRc::RfcOk, RfcErrorInfo::new()).is_ok());
    let e = f.invoke_result(RfcRc::AbapException, RfcErrorInfo::custom("raised")).unwrap_err();
    assert_eq!(e.message().unwrap(), "raised");
}

#[test]
fn string_read_buffer_holds_every_unit() {
    for value in ["", "x", "Test String", &"long value ".repeat(200)] {
        let units = from_str(value);
        let cap = string_buffer_len(units.len() as u32);
        assert_eq!(cap as usize, units.len() + 1);
        let mut buf = units.clone();
        buf.push(0);
        assert_eq!(buf.len(), cap as usize);
        assert_eq!(string_from_buffer(&buf, units.len() as u32).unwrap(), value);
    }
}

#[test]
fn string_read_rejects_overlong_length() {
    let buf = vec![0x41u16; 3];
    let e = string_from_buffer(&buf, 4).unwrap_err();
    assert_eq!(e.message().unwrap(), "reported length exceeds the buffer");
}

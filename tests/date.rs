use nwrfc::date::{RfcDate, DATE_LEN};
use nwrfc::uc::{from_str, to_string};

#[test]
fn date_units_are_yyyymmdd() {
    let d = RfcDate::new(2024, 2, 29).unwrap();
    let units = d.to_units();
    assert_eq!(units.len(), DATE_LEN);
    assert_eq!(to_string(&units, units.len()).unwrap(), "20240229");
    let early = RfcDate::new(7, 1, 5).unwrap();
    assert_eq!(to_string(&early.to_units(), 8).unwrap(), "00070105");
}

#[test]
fn stored_date_reads_back() {
    let d = RfcDate::new(1999, 12, 31).unwrap();
    let back = RfcDate::from_units(&d.to_units()).unwrap();
    assert_eq!(back, d);
    assert_eq!(back.year_value(), 1999);
    assert_eq!(back.month_value(), 12);
    assert_eq!(back.day_value(), 31);
}

#[test]
fn nonexistent_days_are_refused() {
    assert!(RfcDate::new(2023, 2, 29).is_none());
    assert!(RfcDate::new(1900, 2, 29).is_none());
    assert!(RfcDate::new(2000, 2, 29).is_some());
    assert!(RfcDate::new(2023, 4, 31).is_none());
    assert!(RfcDate::new(2023, 13, 1).is_none());
    assert!(RfcDate::new(2023, 0, 1).is_none());
    assert!(RfcDate::new(2023, 1, 0).is_none());
    assert!(RfcDate::new(10000, 1, 1).is_none());
}

#[test]
fn malformed_stored_dates_are_errors() {
    let e = RfcDate::from_units(&from_str("00000000")).unwrap_err();
    assert_eq!(e.message().unwrap(), "invalid date");
    assert!(RfcDate::from_units(&from_str("2023AB01")).is_err());
    assert!(RfcDate::from_units(&from_str("2023011")).is_err());
    assert!(RfcDate::from_units(&from_str("20230230")).is_err());
    assert_eq!(
        RfcDate::from_units(&from_str("20230115")).unwrap(),
        RfcDate::new(2023, 1, 15).unwrap()
    );
}

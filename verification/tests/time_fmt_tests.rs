use jetbra_tools::error::ErrorKind;
use jetbra_tools::time_fmt::{datetime_to_timestamp, datetime_to_timestamp_v1, CertTime};

#[test]
fn test_datetime_to_timestamp_v1() {
    let cert_time = CertTime {
        year: 2008,
        month: 8,
        day: 8,
        hour: 8,
        minute: 8,
        second: 8,
        microsecond: 888888,
    };

    assert_eq!(datetime_to_timestamp_v1(&cert_time).unwrap(), 1218182888);
}

#[test]
fn test_datetime_to_timestamp() {
    let cert_time = CertTime {
        year: 2008,
        month: 8,
        day: 8,
        hour: 8,
        minute: 8,
        second: 8,
        microsecond: 888888,
    };

    assert_eq!(datetime_to_timestamp(&cert_time).unwrap(), 1218182888);
}

#[test]
fn test_default_cert_time_converts() {
    let cert_time = CertTime::default();
    assert_eq!(cert_time.year, 2099);
    assert_eq!(cert_time.microsecond, 999999);
    assert_eq!(datetime_to_timestamp(&cert_time).unwrap(), 4102444799);
}

#[test]
fn test_epoch_start() {
    let cert_time = CertTime {
        year: 1970,
        month: 1,
        day: 1,
        hour: 0,
        minute: 0,
        second: 0,
        microsecond: 0,
    };
    assert_eq!(datetime_to_timestamp(&cert_time).unwrap(), 0);
}

#[test]
fn test_pre_epoch_date() {
    let cert_time = CertTime {
        year: 1900,
        month: 1,
        day: 1,
        hour: 0,
        minute: 0,
        second: 0,
        microsecond: 0,
    };
    assert_eq!(datetime_to_timestamp(&cert_time).unwrap(), -2208988800);
}

#[test]
fn test_leap_day_valid() {
    let cert_time = CertTime {
        year: 2096,
        month: 2,
        day: 29,
        hour: 0,
        minute: 0,
        second: 0,
        microsecond: 0,
    };
    assert!(datetime_to_timestamp(&cert_time).is_ok());
}

#[test]
fn test_leap_day_invalid_on_century() {
    let cert_time = CertTime {
        year: 2100,
        month: 2,
        day: 29,
        hour: 0,
        minute: 0,
        second: 0,
        microsecond: 0,
    };
    let err = datetime_to_timestamp(&cert_time).unwrap_err();
    assert_eq!(err.kind, ErrorKind::Input);
}

#[test]
fn test_invalid_month() {
    let cert_time = CertTime {
        year: 2020,
        month: 13,
        day: 1,
        hour: 0,
        minute: 0,
        second: 0,
        microsecond: 0,
    };
    let err = datetime_to_timestamp(&cert_time).unwrap_err();
    assert_eq!(err.kind, ErrorKind::Input);
    assert_eq!(err.message(), "Invalid date");
}

#[test]
fn test_invalid_hour() {
    let cert_time = CertTime {
        year: 2020,
        month: 6,
        day: 15,
        hour: 24,
        minute: 0,
        second: 0,
        microsecond: 0,
    };
    let err = datetime_to_timestamp(&cert_time).unwrap_err();
    assert_eq!(err.kind, ErrorKind::Input);
    assert_eq!(err.message(), "Invalid time");
}

#[test]
fn test_leap_second_microseconds() {
    let cert_time = CertTime {
        year: 2016,
        month: 12,
        day: 31,
        hour: 23,
        minute: 59,
        second: 59,
        microsecond: 1500000,
    };
    // The first variant accepts the leap-second microsecond range.
    assert_eq!(datetime_to_timestamp_v1(&cert_time).unwrap(), 1483228799);
    // The second variant caps microseconds below one million.
    assert_eq!(
        datetime_to_timestamp(&cert_time).unwrap_err().kind,
        ErrorKind::Input
    );
}

#[test]
fn test_microsecond_too_large_for_both() {
    let cert_time = CertTime {
        year: 2016,
        month: 12,
        day: 31,
        hour: 23,
        minute: 59,
        second: 59,
        microsecond: 2000000,
    };
    assert!(datetime_to_timestamp_v1(&cert_time).is_err());
    assert!(datetime_to_timestamp(&cert_time).is_err());
}

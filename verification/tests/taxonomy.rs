use cdparanoia::classify;
use cdparanoia::Condition;
use cdparanoia::Error;
use cdparanoia::ErrorCode;

const TABLE: [(i32, ErrorCode); 17] = [
    (1, ErrorCode::NoReadMode),
    (2, ErrorCode::NoTocLeadout),
    (3, ErrorCode::IllegalTrackCount),
    (4, ErrorCode::NoTocHeader),
    (5, ErrorCode::NoTocEntry),
    (6, ErrorCode::CannotReadAnyData),
    (7, ErrorCode::UnknownReadError),
    (8, ErrorCode::NoCdromModel),
    (9, ErrorCode::IllegalToc),
    (100, ErrorCode::InterfaceNotSupported),
    (102, ErrorCode::PermissionDenied),
    (300, ErrorCode::KernelMemoryError),
    (400, ErrorCode::DeviceNotOpen),
    (401, ErrorCode::InvalidTrackNumber),
    (403, ErrorCode::NoAudioTracks),
    (404, ErrorCode::NoMediumPresent),
    (405, ErrorCode::OptionNotSupported),
];

#[test]
fn lookup_is_sign_independent_over_whole_table() {
    for (mag, code) in TABLE {
        assert_eq!(ErrorCode::from_raw(mag), Some(code));
        assert_eq!(ErrorCode::from_raw(-mag), Some(code));
        assert_eq!(ErrorCode::from_raw(mag), ErrorCode::from_raw(-mag));
    }
}

#[test]
fn nonnegative_raw_classifies_to_success() {
    for raw in [0, 1, 5, 9, 100, 102, 300, 400, 405, 1000, i32::MAX] {
        assert_eq!(classify(raw), Condition::Success);
    }
}

#[test]
fn negative_known_magnitude_classifies_to_named_condition() {
    for (mag, code) in TABLE {
        assert_eq!(classify(-mag), Condition::Code(code));
    }
}

#[test]
fn unknown_magnitude_keeps_original_raw_value() {
    for raw in [-10, -50, -99, -101, -299, -402, -406, -1000, i32::MIN] {
        assert_eq!(classify(raw), Condition::Unknown(raw));
    }
}

#[test]
fn error_from_raw_splits_on_sign() {
    assert!(Error::from_raw(0).is_ok());
    assert!(Error::from_raw(42).is_ok());
    let e = Error::from_raw(-401).unwrap_err();
    assert_eq!(e.as_raw(), -401);
    assert_eq!(e.code(), Some(ErrorCode::InvalidTrackNumber));
}

#[test]
fn error_from_raw_long_splits_on_sign() {
    assert!(Error::from_raw_long(0).is_ok());
    assert!(Error::from_raw_long(123_456_789).is_ok());
    let e = Error::from_raw_long(-404).unwrap_err();
    assert_eq!(e.as_raw(), -404);
    assert_eq!(e.code(), Some(ErrorCode::NoMediumPresent));
}

#[test]
fn unknown_error_keeps_the_raw_value_in_its_description() {
    let e = Error::from_raw(-77).unwrap_err();
    assert_eq!(e.code(), None);
    assert_eq!(e.description(), "Unknown error code -77");
    assert_eq!(e.as_raw(), -77);
    let e = Error::from_raw(-1000).unwrap_err();
    assert_eq!(e.description(), "Unknown error code -1000");
    let e = Error::from_raw(i32::MIN).unwrap_err();
    assert_eq!(e.description(), "Unknown error code -2147483648");
    // A hand-built status with a non-negative raw value still renders.
    let e = Error { raw: 50 };
    assert_eq!(e.description(), "Unknown error code 50");
    // The magnitude lookup also applies to hand-built positive statuses.
    let e = Error { raw: 5 };
    assert_eq!(e.description(), "005: Unable to read table of contents entry");
}

#[test]
fn known_error_descriptions_carry_their_magnitude() {
    assert_eq!(
        ErrorCode::DeviceNotOpen.description(),
        "400: Device not open"
    );
    assert_eq!(
        ErrorCode::NoAudioTracks.description(),
        "403: No audio tracks on disc"
    );
    assert_eq!(
        ErrorCode::NoReadMode.description(),
        "001: Unable to set CDROM to read audio mode"
    );
    for (mag, code) in TABLE {
        assert_eq!(code.magnitude(), mag);
    }
}

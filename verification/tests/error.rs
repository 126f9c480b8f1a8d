use winaudio::{native_result, EnumKind, Error};

use windows::Win32::Foundation::{E_FAIL, E_INVALIDARG, E_NOTIMPL, S_OK};

#[test]
fn success_codes_are_ok() {
    assert_eq!(Error::from_status(0), Ok(()));
    assert_eq!(Error::from_status(1), Ok(()));
    assert_eq!(Error::from_status(i32::MAX), Ok(()));
    assert_eq!(Error::from_status(S_OK.0), Ok(()));
}

#[test]
fn failure_codes_are_native_failures() {
    assert_eq!(Error::from_status(-1), Err(Error::NativeFailure(-1)));
    assert_eq!(Error::from_status(E_FAIL.0), Err(Error::NativeFailure(-2147467259)));
    assert_eq!(Error::from_status(i32::MIN), Err(Error::NativeFailure(i32::MIN)));
}

#[test]
fn statuses_of_the_errors_are_exact() {
    assert_eq!(Error::NativeFailure(-2147024891).to_status(), -2147024891);
    assert_eq!(Error::UnknownEnumValue(EnumKind::DataFlow, 9).to_status(), -2147024809);
    assert_eq!(Error::UnregisterFailed.to_status(), -2147467259);
    assert_eq!(Error::Unsupported.to_status(), -2147467263);
}

#[test]
fn statuses_of_the_errors_follow_the_platform() {
    assert_eq!(Error::UnknownEnumValue(EnumKind::DeviceState, 0).to_status(), E_INVALIDARG.0);
    assert_eq!(Error::UnregisterFailed.to_status(), E_FAIL.0);
    assert_eq!(Error::Unsupported.to_status(), E_NOTIMPL.0);
}

#[test]
fn a_native_failure_with_a_success_code_is_still_a_failure() {
    assert_eq!(Error::NativeFailure(0).to_status(), E_FAIL.0);
    assert_eq!(Error::NativeFailure(1).to_status(), -2147467259);
    assert_eq!(Error::NativeFailure(i32::MAX).to_status(), -2147467259);
}

#[test]
fn native_result_of_success_is_ok() {
    assert_eq!(native_result(&Ok(())), 0);
    assert_eq!(native_result(&Ok(())), S_OK.0);
}

#[test]
fn native_result_of_a_failure_is_its_status() {
    assert_eq!(native_result(&Err(Error::NativeFailure(-5))), -5);
    assert_eq!(native_result(&Err(Error::UnregisterFailed)), -2147467259);
    assert_eq!(native_result(&Err(Error::Unsupported)), -2147467263);
    assert_eq!(
        native_result(&Err(Error::UnknownEnumValue(EnumKind::DeviceRole, 3))),
        -2147024809
    );
    assert_eq!(native_result(&Err(Error::NativeFailure(7))), -2147467259);
}

#[test]
fn a_failure_is_never_reported_as_success() {
    let errors = [
        Error::NativeFailure(-1),
        Error::NativeFailure(0),
        Error::NativeFailure(12),
        Error::UnknownEnumValue(EnumKind::AudioSessionState, -4),
        Error::UnregisterFailed,
        Error::Unsupported,
    ];
    for e in errors {
        assert!(native_result(&Err(e)) < 0);
        assert!(Error::from_status(e.to_status()).is_err());
    }
}

#[test]
fn a_native_failure_survives_the_trip_through_its_status() {
    for code in [-1, -2147467259, i32::MIN] {
        let e = Error::NativeFailure(code);
        assert_eq!(Error::from_status(e.to_status()), Err(e));
    }
}

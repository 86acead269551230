use nvngx::result::read_result;
use nvngx::{Error, NgxResult};

#[test]
fn test_error_message() {
    let string = NgxResult::FailFeatureNotSupported.to_string();
    assert_eq!(string, "NVSDK_NGX_Result_FAIL_FeatureNotSupported");
}

#[test]
fn result_codes_follow_the_native_numbering() {
    assert_eq!(NgxResult::Success.code(), 1);
    assert_eq!(NgxResult::Fail.code(), 0xBAD0_0000);
    assert_eq!(NgxResult::FailFeatureNotSupported.code(), 0xBAD0_0001);
    assert_eq!(NgxResult::FailNotImplemented.code(), 0xBAD0_0012);
    assert_eq!(NgxResult::from_code(0xBAD0_000C), NgxResult::FailOutOfDate);
    assert_eq!(NgxResult::from_code(1), NgxResult::Success);
    assert_eq!(NgxResult::from_code(7), NgxResult::Unknown(7));
    assert_eq!(NgxResult::from_code(0xBAD0_0013), NgxResult::Unknown(0xBAD0_0013));
    for code in [0u32, 1, 2, 0xBAD0_0000, 0xBAD0_0005, 0xBAD0_0012, 0xBAD0_0013, u32::MAX] {
        assert_eq!(NgxResult::from_code(code).code(), code);
    }
}

#[test]
fn success_is_ok_and_failure_is_internal() {
    assert!(NgxResult::Success.into_result().is_ok());
    match NgxResult::FailDenied.into_result() {
        Err(Error::Internal(status)) => assert_eq!(status, NgxResult::FailDenied),
        other => panic!("unexpected {other:?}"),
    }
    assert_eq!(read_result(NgxResult::Success, 42u64).unwrap(), 42);
    assert!(matches!(
        read_result(NgxResult::FailInvalidParameter, 42u64),
        Err(Error::Internal(NgxResult::FailInvalidParameter))
    ));
}

#[test]
fn error_messages() {
    assert_eq!(
        Error::Internal(NgxResult::FailOutOfDate).to_string(),
        "Internal error: code=NVSDK_NGX_Result_FAIL_OutOfDate"
    );
    assert_eq!(Error::other("boom").to_string(), "Other error: boom");
    assert_eq!(NgxResult::Unknown(3).to_string(), "NVSDK_NGX_Result_Unknown");
    assert_eq!(NgxResult::Success.name(), "NVSDK_NGX_Result_Success");
}

use nvml_status::error::ErrorKind;
use nvml_status::error::NativeStatusCode;
use nvml_status::error::nvml_try;
use nvml_wrapper_sys::bindings;

fn all_codes() -> Vec<NativeStatusCode> {
    vec![
        NativeStatusCode::Success,
        NativeStatusCode::Uninitialized,
        NativeStatusCode::InvalidArgument,
        NativeStatusCode::NotSupported,
        NativeStatusCode::NoPermission,
        NativeStatusCode::AlreadyInitialized,
        NativeStatusCode::NotFound,
        NativeStatusCode::InsufficientSize,
        NativeStatusCode::InsufficientPower,
        NativeStatusCode::DriverNotLoaded,
        NativeStatusCode::Timeout,
        NativeStatusCode::IrqIssue,
        NativeStatusCode::LibraryNotFound,
        NativeStatusCode::FunctionNotFound,
        NativeStatusCode::CorruptedInfoRom,
        NativeStatusCode::GpuIsLost,
        NativeStatusCode::ResetRequired,
        NativeStatusCode::OperatingSystem,
        NativeStatusCode::LibRmVersionMismatch,
        NativeStatusCode::InUse,
        NativeStatusCode::NoData,
        NativeStatusCode::Unknown,
    ]
}

#[test]
fn nvml_try_success() {
    let res = nvml_try(NativeStatusCode::Success);
    assert_eq!(res.unwrap(), ())
}

#[test]
fn translate_not_found() {
    assert_eq!(
        nvml_try(NativeStatusCode::NotFound),
        Err(ErrorKind::NotFound)
    );
}

#[test]
fn translate_insufficient_size_reports_zero() {
    assert_eq!(
        nvml_try(NativeStatusCode::InsufficientSize),
        Err(ErrorKind::InsufficientSize(0))
    );
}

#[test]
fn translate_is_total_and_only_success_is_ok() {
    for code in all_codes() {
        let res = nvml_try(code);
        assert_eq!(res.is_ok(), code == NativeStatusCode::Success);
    }
}

#[test]
fn translate_failures_are_pairwise_distinct() {
    let errors: Vec<ErrorKind> = all_codes()
        .into_iter()
        .filter(|c| *c != NativeStatusCode::Success)
        .map(|c| nvml_try(c).unwrap_err())
        .collect();
    assert_eq!(errors.len(), 21);
    for i in 0..errors.len() {
        for j in 0..errors.len() {
            if i != j {
                assert_ne!(errors[i], errors[j]);
            }
        }
    }
}

#[test]
fn from_raw_decodes_the_alphabet() {
    assert_eq!(NativeStatusCode::from_raw(0), Ok(NativeStatusCode::Success));
    assert_eq!(
        NativeStatusCode::from_raw(6),
        Ok(NativeStatusCode::NotFound)
    );
    assert_eq!(NativeStatusCode::from_raw(21), Ok(NativeStatusCode::NoData));
    assert_eq!(
        NativeStatusCode::from_raw(999),
        Ok(NativeStatusCode::Unknown)
    );
}

#[test]
fn from_raw_rejects_unknown_tags() {
    assert_eq!(
        NativeStatusCode::from_raw(20),
        Err(ErrorKind::UnexpectedVariant)
    );
    assert_eq!(
        NativeStatusCode::from_raw(22),
        Err(ErrorKind::UnexpectedVariant)
    );
    assert_eq!(
        NativeStatusCode::from_raw(1000),
        Err(ErrorKind::UnexpectedVariant)
    );
    assert_eq!(
        NativeStatusCode::from_raw(u32::MAX),
        Err(ErrorKind::UnexpectedVariant)
    );
}

#[test]
fn raw_round_trip_over_the_alphabet() {
    for code in all_codes() {
        assert_eq!(NativeStatusCode::from_raw(code.raw_value()), Ok(code));
    }
}

#[test]
fn raw_values_match_native_bindings() {
    assert_eq!(
        NativeStatusCode::Success.raw_value(),
        bindings::nvmlReturn_enum_NVML_SUCCESS
    );
    assert_eq!(
        NativeStatusCode::Uninitialized.raw_value(),
        bindings::nvmlReturn_enum_NVML_ERROR_UNINITIALIZED
    );
    assert_eq!(
        NativeStatusCode::NotFound.raw_value(),
        bindings::nvmlReturn_enum_NVML_ERROR_NOT_FOUND
    );
    assert_eq!(
        NativeStatusCode::InsufficientSize.raw_value(),
        bindings::nvmlReturn_enum_NVML_ERROR_INSUFFICIENT_SIZE
    );
    assert_eq!(
        NativeStatusCode::InUse.raw_value(),
        bindings::nvmlReturn_enum_NVML_ERROR_IN_USE
    );
    assert_eq!(
        NativeStatusCode::NoData.raw_value(),
        bindings::nvmlReturn_enum_NVML_ERROR_NO_DATA
    );
    assert_eq!(
        NativeStatusCode::Unknown.raw_value(),
        bindings::nvmlReturn_enum_NVML_ERROR_UNKNOWN
    );
}

#[test]
fn descriptions_are_the_documented_texts() {
    assert_eq!(
        ErrorKind::NotFound.description(),
        "A query to find an object was unsuccessful."
    );
    assert_eq!(
        ErrorKind::Uninitialized.description(),
        "NVML was not first initialized with `nvmlInit()`."
    );
    assert_eq!(
        ErrorKind::IncorrectBits.description(),
        "Bits that did not correspond to a flag were encountered whilst attempting to interpret them as bitflags"
    );
    assert_eq!(ErrorKind::NoData.description(), "No data.");
}

#[test]
fn display_formats_string_too_long_payload() {
    let kind = ErrorKind::StringTooLong {
        max_len: 3,
        actual_len: 5,
    };
    assert_eq!(
        kind.display_message(),
        "The max String length was '3', but the actual String length was '5'"
    );
}

#[test]
fn display_formats_insufficient_size_payload() {
    assert_eq!(
        ErrorKind::InsufficientSize(0).display_message(),
        "An input argument is not large enough. Required size: '0'"
    );
    assert_eq!(
        ErrorKind::InsufficientSize(4096).display_message(),
        "An input argument is not large enough. Required size: '4096'"
    );
}

#[test]
fn display_passes_foreign_messages_through() {
    let kind = ErrorKind::Utf8Error(String::from("invalid utf-8 sequence"));
    assert_eq!(kind.display_message(), "invalid utf-8 sequence");
    let kind = ErrorKind::NulError(String::from("nul byte found at position 2"));
    assert_eq!(kind.display_message(), "nul byte found at position 2");
    let kind = ErrorKind::IntoStringError(String::from("C string contained non-utf8 bytes"));
    assert_eq!(kind.display_message(), "C string contained non-utf8 bytes");
}

#[test]
fn display_of_plain_variant_is_its_description() {
    assert_eq!(
        ErrorKind::GpuLost.display_message(),
        "The GPU has fallen off the bus or has otherwise become inaccessible."
    );
}

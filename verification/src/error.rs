//! The status-code alphabet of the native GPU management library, the
//! wrapper's error taxonomy, and the total translation between them.

use vstd::prelude::*;
use vstd::string::StringExecFns;
use crate::text::decimal_rep;
use crate::text::decimal_string;

verus! {

/// One value of the closed status-code alphabet owned by the native GPU
/// management library. The library reports every call's outcome as one of
/// these; `Success` is the single distinguished success value.
#[derive(Clone, Copy, Debug, PartialEq, Eq, Structural)]
pub enum NativeStatusCode {
    /// The call succeeded.
    Success,
    /// The library was not first initialized.
    Uninitialized,
    /// A supplied argument is invalid.
    InvalidArgument,
    /// The requested operation is not available on the target device.
    NotSupported,
    /// The current user does not have permission for the operation.
    NoPermission,
    /// Deprecated on the native side: multiple initializations are now
    /// allowed through refcounting.
    AlreadyInitialized,
    /// A query to find an object was unsuccessful.
    NotFound,
    /// An input argument is not large enough.
    InsufficientSize,
    /// A device's external power cables are not properly attached.
    InsufficientPower,
    /// The driver is not loaded.
    DriverNotLoaded,
    /// A user-provided timeout passed.
    Timeout,
    /// The kernel detected an interrupt issue with a GPU.
    IrqIssue,
    /// The shared library could not be found or loaded.
    LibraryNotFound,
    /// The local library version does not implement this function.
    FunctionNotFound,
    /// The infoROM is corrupted.
    CorruptedInfoRom,
    /// The GPU has fallen off the bus or has otherwise become inaccessible.
    GpuIsLost,
    /// The GPU requires a reset before it can be used again.
    ResetRequired,
    /// The GPU control device has been blocked by the operating system or by
    /// cgroups.
    OperatingSystem,
    /// The resource manager detects a driver/library version mismatch.
    LibRmVersionMismatch,
    /// The operation cannot be performed because the GPU is currently in use.
    InUse,
    /// No data.
    NoData,
    /// An internal driver error occurred.
    Unknown,
}

/// The wrapper's closed error taxonomy: one variant for each native failure
/// condition, three variants for failures the wrapper detects itself
/// (string capacity, bitflag masks, raw tag decoding), and three variants
/// that carry the message of a standard text-conversion failure through
/// unchanged.
#[derive(Clone, Debug, PartialEq, Eq)]
pub enum ErrorKind {
    /// A `String` was too long to fit into an array. Wrapper-detected.
    StringTooLong { max_len: usize, actual_len: usize },
    /// Bits that did not correspond to a flag were encountered whilst
    /// attempting to interpret them as bitflags. Wrapper-detected.
    IncorrectBits,
    /// An unexpected enum variant was encountered. Wrapper-detected.
    UnexpectedVariant,
    /// The native library was not first initialized.
    Uninitialized,
    /// A supplied argument is invalid.
    InvalidArg,
    /// The requested operation is not available on the target device.
    NotSupported,
    /// The current user does not have permission for the operation.
    NoPermission,
    /// Deprecated on the native side and not expected to be encountered.
    AlreadyInitialized,
    /// A query to find an object was unsuccessful.
    NotFound,
    /// An input argument is not large enough. The payload is the size
    /// required for a successful call, or zero where the native layer could
    /// not report it.
    InsufficientSize(usize),
    /// A device's external power cables are not properly attached.
    InsufficientPower,
    /// The driver is not loaded.
    DriverNotLoaded,
    /// A user-provided timeout passed.
    Timeout,
    /// The kernel detected an interrupt issue with a GPU.
    IrqIssue,
    /// The shared library could not be found or loaded.
    LibraryNotFound,
    /// The local library version does not implement this function.
    FunctionNotFound,
    /// The infoROM is corrupted.
    CorruptedInfoRom,
    /// The GPU has fallen off the bus or has otherwise become inaccessible.
    GpuLost,
    /// The GPU requires a reset before it can be used again.
    ResetRequired,
    /// The GPU control device has been blocked by the operating system or by
    /// cgroups.
    OperatingSystem,
    /// The resource manager detects a driver/library version mismatch.
    LibRmVersionMismatch,
    /// The operation cannot be performed because the GPU is currently in use.
    InUse,
    /// No data.
    NoData,
    /// An internal driver error occurred.
    Unknown,
    /// A C string could not be converted into a `String`; the payload
    /// preserves the underlying message.
    IntoStringError(String),
    /// A byte sequence was not valid UTF-8; the payload preserves the
    /// underlying message.
    Utf8Error(String),
    /// An interior NUL byte was found where none is allowed; the payload
    /// preserves the underlying message.
    NulError(String),
}

/// The raw integer value that the native library uses on the wire for each
/// status code of the alphabet.
pub open spec fn raw_of(code: NativeStatusCode) -> u32 {
    match code {
        NativeStatusCode::Success => 0,
        NativeStatusCode::Uninitialized => 1,
        NativeStatusCode::InvalidArgument => 2,
        NativeStatusCode::NotSupported => 3,
        NativeStatusCode::NoPermission => 4,
        NativeStatusCode::AlreadyInitialized => 5,
        NativeStatusCode::NotFound => 6,
        NativeStatusCode::InsufficientSize => 7,
        NativeStatusCode::InsufficientPower => 8,
        NativeStatusCode::DriverNotLoaded => 9,
        NativeStatusCode::Timeout => 10,
        NativeStatusCode::IrqIssue => 11,
        NativeStatusCode::LibraryNotFound => 12,
        NativeStatusCode::FunctionNotFound => 13,
        NativeStatusCode::CorruptedInfoRom => 14,
        NativeStatusCode::GpuIsLost => 15,
        NativeStatusCode::ResetRequired => 16,
        NativeStatusCode::OperatingSystem => 17,
        NativeStatusCode::LibRmVersionMismatch => 18,
        NativeStatusCode::InUse => 19,
        NativeStatusCode::NoData => 21,
        NativeStatusCode::Unknown => 999,
    }
}

/// Decoding of a raw integer tag against the closed alphabet: the status
/// code whose raw value matches, or `UnexpectedVariant` where none does.
pub open spec fn status_from_raw(raw: u32) -> Result<NativeStatusCode, ErrorKind> {
    if raw == 0 {
        Ok(NativeStatusCode::Success)
    } else if raw == 1 {
        Ok(NativeStatusCode::Uninitialized)
    } else if raw == 2 {
        Ok(NativeStatusCode::InvalidArgument)
    } else if raw == 3 {
        Ok(NativeStatusCode::NotSupported)
    } else if raw == 4 {
        Ok(NativeStatusCode::NoPermission)
    } else if raw == 5 {
        Ok(NativeStatusCode::AlreadyInitialized)
    } else if raw == 6 {
        Ok(NativeStatusCode::NotFound)
    } else if raw == 7 {
        Ok(NativeStatusCode::InsufficientSize)
    } else if raw == 8 {
        Ok(NativeStatusCode::InsufficientPower)
    } else if raw == 9 {
        Ok(NativeStatusCode::DriverNotLoaded)
    } else if raw == 10 {
        Ok(NativeStatusCode::Timeout)
    } else if raw == 11 {
        Ok(NativeStatusCode::IrqIssue)
    } else if raw == 12 {
        Ok(NativeStatusCode::LibraryNotFound)
    } else if raw == 13 {
        Ok(NativeStatusCode::FunctionNotFound)
    } else if raw == 14 {
        Ok(NativeStatusCode::CorruptedInfoRom)
    } else if raw == 15 {
        Ok(NativeStatusCode::GpuIsLost)
    } else if raw == 16 {
        Ok(NativeStatusCode::ResetRequired)
    } else if raw == 17 {
        Ok(NativeStatusCode::OperatingSystem)
    } else if raw == 18 {
        Ok(NativeStatusCode::LibRmVersionMismatch)
    } else if raw == 19 {
        Ok(NativeStatusCode::InUse)
    } else if raw == 21 {
        Ok(NativeStatusCode::NoData)
    } else if raw == 999 {
        Ok(NativeStatusCode::Unknown)
    } else {
        Err(ErrorKind::UnexpectedVariant)
    }
}

impl NativeStatusCode {
    /// Decodes the raw integer tag that the native library reported.
    /// Succeeds exactly on the raw values of the closed alphabet and
    /// reports `UnexpectedVariant` for every other integer.
    pub fn from_raw(raw: u32) -> (r: Result<NativeStatusCode, ErrorKind>)
        ensures
            r == status_from_raw(raw),
    {
        match raw {
            0 => Ok(NativeStatusCode::Success),
            1 => Ok(NativeStatusCode::Uninitialized),
            2 => Ok(NativeStatusCode::InvalidArgument),
            3 => Ok(NativeStatusCode::NotSupported),
            4 => Ok(NativeStatusCode::NoPermission),
            5 => Ok(NativeStatusCode::AlreadyInitialized),
            6 => Ok(NativeStatusCode::NotFound),
            7 => Ok(NativeStatusCode::InsufficientSize),
            8 => Ok(NativeStatusCode::InsufficientPower),
            9 => Ok(NativeStatusCode::DriverNotLoaded),
            10 => Ok(NativeStatusCode::Timeout),
            11 => Ok(NativeStatusCode::IrqIssue),
            12 => Ok(NativeStatusCode::LibraryNotFound),
            13 => Ok(NativeStatusCode::FunctionNotFound),
            14 => Ok(NativeStatusCode::CorruptedInfoRom),
            15 => Ok(NativeStatusCode::GpuIsLost),
            16 => Ok(NativeStatusCode::ResetRequired),
            17 => Ok(NativeStatusCode::OperatingSystem),
            18 => Ok(NativeStatusCode::LibRmVersionMismatch),
            19 => Ok(NativeStatusCode::InUse),
            21 => Ok(NativeStatusCode::NoData),
            999 => Ok(NativeStatusCode::Unknown),
            _ => Err(ErrorKind::UnexpectedVariant),
        }
    }

    /// The raw integer value of this status code, as the native library
    /// reports it.
    pub fn raw_value(&self) -> (r: u32)
        ensures
            r == raw_of(*self),
    {
        match self {
            NativeStatusCode::Success => 0,
            NativeStatusCode::Uninitialized => 1,
            NativeStatusCode::InvalidArgument => 2,
            NativeStatusCode::NotSupported => 3,
            NativeStatusCode::NoPermission => 4,
            NativeStatusCode::AlreadyInitialized => 5,
            NativeStatusCode::NotFound => 6,
            NativeStatusCode::InsufficientSize => 7,
            NativeStatusCode::InsufficientPower => 8,
            NativeStatusCode::DriverNotLoaded => 9,
            NativeStatusCode::Timeout => 10,
            NativeStatusCode::IrqIssue => 11,
            NativeStatusCode::LibraryNotFound => 12,
            NativeStatusCode::FunctionNotFound => 13,
            NativeStatusCode::CorruptedInfoRom => 14,
            NativeStatusCode::GpuIsLost => 15,
            NativeStatusCode::ResetRequired => 16,
            NativeStatusCode::OperatingSystem => 17,
            NativeStatusCode::LibRmVersionMismatch => 18,
            NativeStatusCode::InUse => 19,
            NativeStatusCode::NoData => 21,
            NativeStatusCode::Unknown => 999,
        }
    }
}

/// Law: decoding a status code's own raw value gives that code back, for
/// every code of the alphabet.
pub proof fn lemma_raw_round_trip(code: NativeStatusCode)
    ensures
        status_from_raw(raw_of(code)) == Ok::<NativeStatusCode, ErrorKind>(code),
{
}

/// The translation table: every native status code maps to exactly one
/// outcome, success for `Success` and one distinct `ErrorKind` for each
/// failure code. There is no default arm, so a code added to the alphabet
/// cannot be translated until this table names it.
pub open spec fn translate(code: NativeStatusCode) -> Result<(), ErrorKind> {
    match code {
        NativeStatusCode::Success => Ok(()),
        NativeStatusCode::Uninitialized => Err(ErrorKind::Uninitialized),
        NativeStatusCode::InvalidArgument => Err(ErrorKind::InvalidArg),
        NativeStatusCode::NotSupported => Err(ErrorKind::NotSupported),
        NativeStatusCode::NoPermission => Err(ErrorKind::NoPermission),
        NativeStatusCode::AlreadyInitialized => Err(ErrorKind::AlreadyInitialized),
        NativeStatusCode::NotFound => Err(ErrorKind::NotFound),
        NativeStatusCode::InsufficientSize => Err(ErrorKind::InsufficientSize(0)),
        NativeStatusCode::InsufficientPower => Err(ErrorKind::InsufficientPower),
        NativeStatusCode::DriverNotLoaded => Err(ErrorKind::DriverNotLoaded),
        NativeStatusCode::Timeout => Err(ErrorKind::Timeout),
        NativeStatusCode::IrqIssue => Err(ErrorKind::IrqIssue),
        NativeStatusCode::LibraryNotFound => Err(ErrorKind::LibraryNotFound),
        NativeStatusCode::FunctionNotFound => Err(ErrorKind::FunctionNotFound),
        NativeStatusCode::CorruptedInfoRom => Err(ErrorKind::CorruptedInfoRom),
        NativeStatusCode::GpuIsLost => Err(ErrorKind::GpuLost),
        NativeStatusCode::ResetRequired => Err(ErrorKind::ResetRequired),
        NativeStatusCode::OperatingSystem => Err(ErrorKind::OperatingSystem),
        NativeStatusCode::LibRmVersionMismatch => Err(ErrorKind::LibRmVersionMismatch),
        NativeStatusCode::InUse => Err(ErrorKind::InUse),
        NativeStatusCode::NoData => Err(ErrorKind::NoData),
        NativeStatusCode::Unknown => Err(ErrorKind::Unknown),
    }
}

/// Translates a native status code into a typed result: `Ok(())` exactly for
/// the success code, otherwise the `ErrorKind` that `translate` assigns to
/// the failure code. Pure, total, and free of panics.
///
/// The `InsufficientSize` payload is always zero here: the native layer does
/// not report the required size at this call site.
pub fn nvml_try(code: NativeStatusCode) -> (r: Result<(), ErrorKind>)
    ensures
        r == translate(code),
        r == Ok::<(), ErrorKind>(()) <==> code == NativeStatusCode::Success,
{
    match code {
        NativeStatusCode::Success => Ok(()),
        NativeStatusCode::Uninitialized => Err(ErrorKind::Uninitialized),
        NativeStatusCode::InvalidArgument => Err(ErrorKind::InvalidArg),
        NativeStatusCode::NotSupported => Err(ErrorKind::NotSupported),
        NativeStatusCode::NoPermission => Err(ErrorKind::NoPermission),
        NativeStatusCode::AlreadyInitialized => Err(ErrorKind::AlreadyInitialized),
        NativeStatusCode::NotFound => Err(ErrorKind::NotFound),
        NativeStatusCode::InsufficientSize => Err(ErrorKind::InsufficientSize(0)),
        NativeStatusCode::InsufficientPower => Err(ErrorKind::InsufficientPower),
        NativeStatusCode::DriverNotLoaded => Err(ErrorKind::DriverNotLoaded),
        NativeStatusCode::Timeout => Err(ErrorKind::Timeout),
        NativeStatusCode::IrqIssue => Err(ErrorKind::IrqIssue),
        NativeStatusCode::LibraryNotFound => Err(ErrorKind::LibraryNotFound),
        NativeStatusCode::FunctionNotFound => Err(ErrorKind::FunctionNotFound),
        NativeStatusCode::CorruptedInfoRom => Err(ErrorKind::CorruptedInfoRom),
        NativeStatusCode::GpuIsLost => Err(ErrorKind::GpuLost),
        NativeStatusCode::ResetRequired => Err(ErrorKind::ResetRequired),
        NativeStatusCode::OperatingSystem => Err(ErrorKind::OperatingSystem),
        NativeStatusCode::LibRmVersionMismatch => Err(ErrorKind::LibRmVersionMismatch),
        NativeStatusCode::InUse => Err(ErrorKind::InUse),
        NativeStatusCode::NoData => Err(ErrorKind::NoData),
        NativeStatusCode::Unknown => Err(ErrorKind::Unknown),
    }
}

/// Law: translation is total over the alphabet and classifies every code,
/// success exactly for the distinguished success code and an error for every
/// other code.
pub proof fn lemma_translate_total(code: NativeStatusCode)
    ensures
        translate(code) == Ok::<(), ErrorKind>(()) <==> code == NativeStatusCode::Success,
        code != NativeStatusCode::Success ==> translate(code) is Err,
{
}

/// Law: the failure mapping is injective. Two status codes that translate to
/// the same outcome are the same code; in particular no two distinct failure
/// codes share an `ErrorKind` variant.
pub proof fn lemma_translate_injective(a: NativeStatusCode, b: NativeStatusCode)
    ensures
        translate(a) == translate(b) ==> a == b,
{
}

/// The fixed description text of each error kind.
pub open spec fn description_of(kind: ErrorKind) -> Seq<char> {
    match kind {
        ErrorKind::StringTooLong { .. } => "A String was too long to fit into an array"@,
        ErrorKind::IncorrectBits => "Bits that did not correspond to a flag were encountered whilst attempting to interpret them as bitflags"@,
        ErrorKind::UnexpectedVariant => "An unexpected enum variant was encountered (wrapper error)."@,
        ErrorKind::Uninitialized => "NVML was not first initialized with `nvmlInit()`."@,
        ErrorKind::InvalidArg => "A supplied argument is invalid."@,
        ErrorKind::NotSupported => "The requested operation is not available on the target device."@,
        ErrorKind::NoPermission => "The current user does not have permission for the operation."@,
        ErrorKind::AlreadyInitialized => "This error is deprecated on the part of the NVML lib itself and should not be encountered. Multiple initializations are now allowed through refcounting."@,
        ErrorKind::NotFound => "A query to find an object was unsuccessful."@,
        ErrorKind::InsufficientSize(_) => "An input argument is not large enough."@,
        ErrorKind::InsufficientPower => "A device's external power cables are not properly attached."@,
        ErrorKind::DriverNotLoaded => "NVIDIA driver is not loaded."@,
        ErrorKind::Timeout => "User provided timeout passed."@,
        ErrorKind::IrqIssue => "NVIDIA kernel detected an interrupt issue with a GPU."@,
        ErrorKind::LibraryNotFound => "NVML Shared Library couldn't be found or loaded."@,
        ErrorKind::FunctionNotFound => "Local version of NVML doesn't implement this function."@,
        ErrorKind::CorruptedInfoRom => "infoROM is corrupted."@,
        ErrorKind::GpuLost => "The GPU has fallen off the bus or has otherwise become inaccessible."@,
        ErrorKind::ResetRequired => "The GPU requires a reset before it can be used again."@,
        ErrorKind::OperatingSystem => "The GPU control device has been blocked by the operating system/cgroups."@,
        ErrorKind::LibRmVersionMismatch => "RM detects a driver/library version mismatch."@,
        ErrorKind::InUse => "An operation cannot be performed because the GPU is currently in use."@,
        ErrorKind::NoData => "No data."@,
        ErrorKind::Unknown => "An internal driver error occurred."@,
        ErrorKind::IntoStringError(_) => "A C string could not be converted into a String."@,
        ErrorKind::Utf8Error(_) => "A byte sequence was not valid UTF-8."@,
        ErrorKind::NulError(_) => "An interior NUL byte was found."@,
    }
}

/// The diagnostic message of each error kind: the payload-bearing variants
/// format their payloads into the text, the pass-through variants keep the
/// underlying message, and every other variant reports its description.
pub open spec fn display_of(kind: ErrorKind) -> Seq<char> {
    match kind {
        ErrorKind::StringTooLong { max_len, actual_len } => "The max String length was '"@
            + decimal_rep(max_len as nat) + "', but the actual String length was '"@ + decimal_rep(
            actual_len as nat,
        ) + "'"@,
        ErrorKind::InsufficientSize(required_size) => "An input argument is not large enough. Required size: '"@
            + decimal_rep(required_size as nat) + "'"@,
        ErrorKind::IntoStringError(message) => message@,
        ErrorKind::Utf8Error(message) => message@,
        ErrorKind::NulError(message) => message@,
        _ => description_of(kind),
    }
}

impl ErrorKind {
    /// The fixed description of this error kind.
    pub fn description(&self) -> (r: &'static str)
        ensures
            r@ == description_of(*self),
    {
        match self {
            ErrorKind::StringTooLong { .. } => "A String was too long to fit into an array",
            ErrorKind::IncorrectBits => "Bits that did not correspond to a flag were encountered whilst attempting to interpret them as bitflags",
            ErrorKind::UnexpectedVariant => "An unexpected enum variant was encountered (wrapper error).",
            ErrorKind::Uninitialized => "NVML was not first initialized with `nvmlInit()`.",
            ErrorKind::InvalidArg => "A supplied argument is invalid.",
            ErrorKind::NotSupported => "The requested operation is not available on the target device.",
            ErrorKind::NoPermission => "The current user does not have permission for the operation.",
            ErrorKind::AlreadyInitialized => "This error is deprecated on the part of the NVML lib itself and should not be encountered. Multiple initializations are now allowed through refcounting.",
            ErrorKind::NotFound => "A query to find an object was unsuccessful.",
            ErrorKind::InsufficientSize(_) => "An input argument is not large enough.",
            ErrorKind::InsufficientPower => "A device's external power cables are not properly attached.",
            ErrorKind::DriverNotLoaded => "NVIDIA driver is not loaded.",
            ErrorKind::Timeout => "User provided timeout passed.",
            ErrorKind::IrqIssue => "NVIDIA kernel detected an interrupt issue with a GPU.",
            ErrorKind::LibraryNotFound => "NVML Shared Library couldn't be found or loaded.",
            ErrorKind::FunctionNotFound => "Local version of NVML doesn't implement this function.",
            ErrorKind::CorruptedInfoRom => "infoROM is corrupted.",
            ErrorKind::GpuLost => "The GPU has fallen off the bus or has otherwise become inaccessible.",
            ErrorKind::ResetRequired => "The GPU requires a reset before it can be used again.",
            ErrorKind::OperatingSystem => "The GPU control device has been blocked by the operating system/cgroups.",
            ErrorKind::LibRmVersionMismatch => "RM detects a driver/library version mismatch.",
            ErrorKind::InUse => "An operation cannot be performed because the GPU is currently in use.",
            ErrorKind::NoData => "No data.",
            ErrorKind::Unknown => "An internal driver error occurred.",
            ErrorKind::IntoStringError(_) => "A C string could not be converted into a String.",
            ErrorKind::Utf8Error(_) => "A byte sequence was not valid UTF-8.",
            ErrorKind::NulError(_) => "An interior NUL byte was found.",
        }
    }

    /// The diagnostic message of this error kind, payloads formatted in.
    pub fn display_message(&self) -> (r: String)
        ensures
            r@ == display_of(*self),
    {
        match self {
            ErrorKind::StringTooLong { max_len, actual_len } => {
                let rendered_max = decimal_string(*max_len);
                let rendered_actual = decimal_string(*actual_len);
                let r = String::from_str("The max String length was '").concat(
                    rendered_max.as_str(),
                ).concat("', but the actual String length was '").concat(
                    rendered_actual.as_str(),
                ).concat("'");
                proof {
                    assert(r@ =~= display_of(*self));
                }
                r
            },
            ErrorKind::InsufficientSize(required_size) => {
                let rendered = decimal_string(*required_size);
                let r = String::from_str(
                    "An input argument is not large enough. Required size: '",
                ).concat(rendered.as_str()).concat("'");
                proof {
                    assert(r@ =~= display_of(*self));
                }
                r
            },
            ErrorKind::IntoStringError(message) => message.clone(),
            ErrorKind::Utf8Error(message) => message.clone(),
            ErrorKind::NulError(message) => message.clone(),
            _ => String::from_str(self.description()),
        }
    }
}

} // verus!

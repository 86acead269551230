//! Native status codes and the error taxonomy of the crate.
use vstd::prelude::*;

verus! {

/// The base of every failure code of the native SDK.
pub const FAIL_BASE: u32 = 0xBAD0_0000;

/// A status code returned by an entry point of the native SDK.
#[derive(Debug, Clone, Copy, PartialEq, Eq, Structural)]
pub enum NgxResult {
    Success,
    Fail,
    FailFeatureNotSupported,
    FailPlatformError,
    FailFeatureAlreadyExists,
    FailFeatureNotFound,
    FailInvalidParameter,
    FailScratchBufferTooSmall,
    FailNotInitialized,
    FailUnsupportedInputFormat,
    FailRWFlagMissing,
    FailMissingInput,
    FailUnableToInitializeFeature,
    FailOutOfDate,
    FailOutOfGPUMemory,
    FailUnsupportedFormat,
    FailUnableToWriteToAppDataPath,
    FailUnsupportedParameter,
    FailDenied,
    FailNotImplemented,
    /// A code outside the documented set, kept as it came.
    Unknown(u32),
}

/// The documented failure codes, in the order of their offset from `FAIL_BASE`.
pub open spec fn documented_failure(offset: u32) -> NgxResult {
    if offset == 0 {
        NgxResult::Fail
    } else if offset == 1 {
        NgxResult::FailFeatureNotSupported
    } else if offset == 2 {
        NgxResult::FailPlatformError
    } else if offset == 3 {
        NgxResult::FailFeatureAlreadyExists
    } else if offset == 4 {
        NgxResult::FailFeatureNotFound
    } else if offset == 5 {
        NgxResult::FailInvalidParameter
    } else if offset == 6 {
        NgxResult::FailScratchBufferTooSmall
    } else if offset == 7 {
        NgxResult::FailNotInitialized
    } else if offset == 8 {
        NgxResult::FailUnsupportedInputFormat
    } else if offset == 9 {
        NgxResult::FailRWFlagMissing
    } else if offset == 10 {
        NgxResult::FailMissingInput
    } else if offset == 11 {
        NgxResult::FailUnableToInitializeFeature
    } else if offset == 12 {
        NgxResult::FailOutOfDate
    } else if offset == 13 {
        NgxResult::FailOutOfGPUMemory
    } else if offset == 14 {
        NgxResult::FailUnsupportedFormat
    } else if offset == 15 {
        NgxResult::FailUnableToWriteToAppDataPath
    } else if offset == 16 {
        NgxResult::FailUnsupportedParameter
    } else if offset == 17 {
        NgxResult::FailDenied
    } else {
        NgxResult::FailNotImplemented
    }
}

/// The status that a raw code stands for.
pub open spec fn result_of_code(code: u32) -> NgxResult {
    if code == 1 {
        NgxResult::Success
    } else if FAIL_BASE <= code && code <= FAIL_BASE + 18 {
        documented_failure((code - FAIL_BASE) as u32)
    } else {
        NgxResult::Unknown(code)
    }
}

impl NgxResult {
    /// The raw code of this status.
    pub open spec fn spec_code(self) -> u32 {
        match self {
            NgxResult::Success => 1,
            NgxResult::Fail => FAIL_BASE,
            NgxResult::FailFeatureNotSupported => (FAIL_BASE + 1) as u32,
            NgxResult::FailPlatformError => (FAIL_BASE + 2) as u32,
            NgxResult::FailFeatureAlreadyExists => (FAIL_BASE + 3) as u32,
            NgxResult::FailFeatureNotFound => (FAIL_BASE + 4) as u32,
            NgxResult::FailInvalidParameter => (FAIL_BASE + 5) as u32,
            NgxResult::FailScratchBufferTooSmall => (FAIL_BASE + 6) as u32,
            NgxResult::FailNotInitialized => (FAIL_BASE + 7) as u32,
            NgxResult::FailUnsupportedInputFormat => (FAIL_BASE + 8) as u32,
            NgxResult::FailRWFlagMissing => (FAIL_BASE + 9) as u32,
            NgxResult::FailMissingInput => (FAIL_BASE + 10) as u32,
            NgxResult::FailUnableToInitializeFeature => (FAIL_BASE + 11) as u32,
            NgxResult::FailOutOfDate => (FAIL_BASE + 12) as u32,
            NgxResult::FailOutOfGPUMemory => (FAIL_BASE + 13) as u32,
            NgxResult::FailUnsupportedFormat => (FAIL_BASE + 14) as u32,
            NgxResult::FailUnableToWriteToAppDataPath => (FAIL_BASE + 15) as u32,
            NgxResult::FailUnsupportedParameter => (FAIL_BASE + 16) as u32,
            NgxResult::FailDenied => (FAIL_BASE + 17) as u32,
            NgxResult::FailNotImplemented => (FAIL_BASE + 18) as u32,
            NgxResult::Unknown(code) => code,
        }
    }

    /// Reads a raw status code as returned by the native SDK.
    pub fn from_code(code: u32) -> (r: NgxResult)
        ensures
            r == result_of_code(code),
            r.spec_code() == code,
    {
        if code == 1 {
            NgxResult::Success
        } else if FAIL_BASE <= code && code <= FAIL_BASE + 18 {
            let offset = code - FAIL_BASE;
            if offset == 0 {
                NgxResult::Fail
            } else if offset == 1 {
                NgxResult::FailFeatureNotSupported
            } else if offset == 2 {
                NgxResult::FailPlatformError
            } else if offset == 3 {
                NgxResult::FailFeatureAlreadyExists
            } else if offset == 4 {
                NgxResult::FailFeatureNotFound
            } else if offset == 5 {
                NgxResult::FailInvalidParameter
            } else if offset == 6 {
                NgxResult::FailScratchBufferTooSmall
            } else if offset == 7 {
                NgxResult::FailNotInitialized
            } else if offset == 8 {
                NgxResult::FailUnsupportedInputFormat
            } else if offset == 9 {
                NgxResult::FailRWFlagMissing
            } else if offset == 10 {
                NgxResult::FailMissingInput
            } else if offset == 11 {
                NgxResult::FailUnableToInitializeFeature
            } else if offset == 12 {
                NgxResult::FailOutOfDate
            } else if offset == 13 {
                NgxResult::FailOutOfGPUMemory
            } else if offset == 14 {
                NgxResult::FailUnsupportedFormat
            } else if offset == 15 {
                NgxResult::FailUnableToWriteToAppDataPath
            } else if offset == 16 {
                NgxResult::FailUnsupportedParameter
            } else if offset == 17 {
                NgxResult::FailDenied
            } else {
                NgxResult::FailNotImplemented
            }
        } else {
            NgxResult::Unknown(code)
        }
    }

    /// The raw code to hand back to the native SDK.
    pub fn code(&self) -> (r: u32)
        ensures
            r == self.spec_code(),
    {
        match *self {
            NgxResult::Success => 1,
            NgxResult::Fail => FAIL_BASE,
            NgxResult::FailFeatureNotSupported => FAIL_BASE + 1,
            NgxResult::FailPlatformError => FAIL_BASE + 2,
            NgxResult::FailFeatureAlreadyExists => FAIL_BASE + 3,
            NgxResult::FailFeatureNotFound => FAIL_BASE + 4,
            NgxResult::FailInvalidParameter => FAIL_BASE + 5,
            NgxResult::FailScratchBufferTooSmall => FAIL_BASE + 6,
            NgxResult::FailNotInitialized => FAIL_BASE + 7,
            NgxResult::FailUnsupportedInputFormat => FAIL_BASE + 8,
            NgxResult::FailRWFlagMissing => FAIL_BASE + 9,
            NgxResult::FailMissingInput => FAIL_BASE + 10,
            NgxResult::FailUnableToInitializeFeature => FAIL_BASE + 11,
            NgxResult::FailOutOfDate => FAIL_BASE + 12,
            NgxResult::FailOutOfGPUMemory => FAIL_BASE + 13,
            NgxResult::FailUnsupportedFormat => FAIL_BASE + 14,
            NgxResult::FailUnableToWriteToAppDataPath => FAIL_BASE + 15,
            NgxResult::FailUnsupportedParameter => FAIL_BASE + 16,
            NgxResult::FailDenied => FAIL_BASE + 17,
            NgxResult::FailNotImplemented => FAIL_BASE + 18,
            NgxResult::Unknown(code) => code,
        }
    }

    /// Whether the status reports success.
    pub fn is_success(&self) -> (r: bool)
        ensures
            r == (*self == NgxResult::Success),
    {
        match *self {
            NgxResult::Success => true,
            _ => false,
        }
    }

    /// Turns a status into the crate's `Result`: success is `Ok`, anything else
    /// is an internal error carrying the status.
    pub fn into_result(self) -> (r: Result<()>)
        ensures
            r == spec_into_result(self),
    {
        if self.is_success() {
            Ok(())
        } else {
            Err(Error::Internal(self))
        }
    }
}

/// The result type used within the crate.
pub type Result<T> = core::result::Result<T, Error>;

/// The error type.
#[derive(Debug, Clone)]
pub enum Error {
    /// A failure status reported by the native SDK.
    Internal(NgxResult),
    /// Any other error, which doesn't originate from the native SDK.
    Other(String),
}

/// What a native status means to the caller.
pub open spec fn spec_into_result(status: NgxResult) -> Result<()> {
    if status == NgxResult::Success {
        Ok(())
    } else {
        Err(Error::Internal(status))
    }
}

/// What a typed read of the native parameter map means: the value when the
/// status is success, else the status as an internal error.
pub open spec fn spec_read<T>(status: NgxResult, value: T) -> Result<T> {
    if status == NgxResult::Success {
        Ok(value)
    } else {
        Err(Error::Internal(status))
    }
}

/// Turns the status and the value that a native getter wrote into a `Result`.
pub fn read_result<T>(status: NgxResult, value: T) -> (r: Result<T>)
    ensures
        r == spec_read(status, value),
{
    if status.is_success() {
        Ok(value)
    } else {
        Err(Error::Internal(status))
    }
}

impl NgxResult {
    /// The name of the status as the SDK's headers spell it.
    pub open spec fn spec_name(self) -> Seq<char> {
        match self {
            NgxResult::Success => "NVSDK_NGX_Result_Success"@,
            NgxResult::Fail => "NVSDK_NGX_Result_Fail"@,
            NgxResult::FailFeatureNotSupported => "NVSDK_NGX_Result_FAIL_FeatureNotSupported"@,
            NgxResult::FailPlatformError => "NVSDK_NGX_Result_FAIL_PlatformError"@,
            NgxResult::FailFeatureAlreadyExists => "NVSDK_NGX_Result_FAIL_FeatureAlreadyExists"@,
            NgxResult::FailFeatureNotFound => "NVSDK_NGX_Result_FAIL_FeatureNotFound"@,
            NgxResult::FailInvalidParameter => "NVSDK_NGX_Result_FAIL_InvalidParameter"@,
            NgxResult::FailScratchBufferTooSmall => "NVSDK_NGX_Result_FAIL_ScratchBufferTooSmall"@,
            NgxResult::FailNotInitialized => "NVSDK_NGX_Result_FAIL_NotInitialized"@,
            NgxResult::FailUnsupportedInputFormat => "NVSDK_NGX_Result_FAIL_UnsupportedInputFormat"@,
            NgxResult::FailRWFlagMissing => "NVSDK_NGX_Result_FAIL_RWFlagMissing"@,
            NgxResult::FailMissingInput => "NVSDK_NGX_Result_FAIL_MissingInput"@,
            NgxResult::FailUnableToInitializeFeature => "NVSDK_NGX_Result_FAIL_UnableToInitializeFeature"@,
            NgxResult::FailOutOfDate => "NVSDK_NGX_Result_FAIL_OutOfDate"@,
            NgxResult::FailOutOfGPUMemory => "NVSDK_NGX_Result_FAIL_OutOfGPUMemory"@,
            NgxResult::FailUnsupportedFormat => "NVSDK_NGX_Result_FAIL_UnsupportedFormat"@,
            NgxResult::FailUnableToWriteToAppDataPath => "NVSDK_NGX_Result_FAIL_UnableToWriteToAppDataPath"@,
            NgxResult::FailUnsupportedParameter => "NVSDK_NGX_Result_FAIL_UnsupportedParameter"@,
            NgxResult::FailDenied => "NVSDK_NGX_Result_FAIL_Denied"@,
            NgxResult::FailNotImplemented => "NVSDK_NGX_Result_FAIL_NotImplemented"@,
            NgxResult::Unknown(_) => "NVSDK_NGX_Result_Unknown"@,
        }
    }

    /// The name of the status as the SDK's headers spell it.
    pub fn name(&self) -> (r: &'static str)
        ensures
            r@ == self.spec_name(),
    {
        match *self {
            NgxResult::Success => "NVSDK_NGX_Result_Success",
            NgxResult::Fail => "NVSDK_NGX_Result_Fail",
            NgxResult::FailFeatureNotSupported => "NVSDK_NGX_Result_FAIL_FeatureNotSupported",
            NgxResult::FailPlatformError => "NVSDK_NGX_Result_FAIL_PlatformError",
            NgxResult::FailFeatureAlreadyExists => "NVSDK_NGX_Result_FAIL_FeatureAlreadyExists",
            NgxResult::FailFeatureNotFound => "NVSDK_NGX_Result_FAIL_FeatureNotFound",
            NgxResult::FailInvalidParameter => "NVSDK_NGX_Result_FAIL_InvalidParameter",
            NgxResult::FailScratchBufferTooSmall => "NVSDK_NGX_Result_FAIL_ScratchBufferTooSmall",
            NgxResult::FailNotInitialized => "NVSDK_NGX_Result_FAIL_NotInitialized",
            NgxResult::FailUnsupportedInputFormat => "NVSDK_NGX_Result_FAIL_UnsupportedInputFormat",
            NgxResult::FailRWFlagMissing => "NVSDK_NGX_Result_FAIL_RWFlagMissing",
            NgxResult::FailMissingInput => "NVSDK_NGX_Result_FAIL_MissingInput",
            NgxResult::FailUnableToInitializeFeature => "NVSDK_NGX_Result_FAIL_UnableToInitializeFeature",
            NgxResult::FailOutOfDate => "NVSDK_NGX_Result_FAIL_OutOfDate",
            NgxResult::FailOutOfGPUMemory => "NVSDK_NGX_Result_FAIL_OutOfGPUMemory",
            NgxResult::FailUnsupportedFormat => "NVSDK_NGX_Result_FAIL_UnsupportedFormat",
            NgxResult::FailUnableToWriteToAppDataPath => "NVSDK_NGX_Result_FAIL_UnableToWriteToAppDataPath",
            NgxResult::FailUnsupportedParameter => "NVSDK_NGX_Result_FAIL_UnsupportedParameter",
            NgxResult::FailDenied => "NVSDK_NGX_Result_FAIL_Denied",
            NgxResult::FailNotImplemented => "NVSDK_NGX_Result_FAIL_NotImplemented",
            NgxResult::Unknown(_) => "NVSDK_NGX_Result_Unknown",
        }
    }

    /// The name of the status, as an owned string.
    pub fn to_string(&self) -> (r: String)
        ensures
            r@ == self.spec_name(),
    {
        self.name().to_string()
    }
}

impl Error {
    /// The message of the error: the status name of an internal error, or the
    /// text of any other.
    pub open spec fn spec_message(self) -> Seq<char> {
        match self {
            Error::Internal(status) => "Internal error: code="@ + status.spec_name(),
            Error::Other(text) => "Other error: "@ + text@,
        }
    }

    /// Renders the error as a human-readable message.
    pub fn to_string(&self) -> (r: String)
        ensures
            r@ == self.spec_message(),
    {
        match self {
            Error::Internal(status) => {
                let mut text = String::from_str("Internal error: code=");
                text.append(status.name());
                text
            },
            Error::Other(message) => {
                let mut text = String::from_str("Other error: ");
                text.append(message.as_str());
                text
            },
        }
    }

    /// A copy of the error.
    pub fn clone_error(&self) -> (r: Error)
        ensures
            r == *self,
    {
        match self {
            Error::Internal(status) => Error::Internal(*status),
            Error::Other(message) => Error::Other(message.clone()),
        }
    }

    /// An error of the crate's own, with the given message.
    pub fn other(message: &str) -> (r: Error)
        ensures
            r is Other,
            r->Other_0@ == message@,
    {
        Error::Other(String::from_str(message))
    }
}

} // verus!

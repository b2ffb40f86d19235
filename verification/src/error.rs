//! The result-code taxonomy shared by the SVT engines.
//!
//! Every native engine call returns an integer result code: `0` means
//! success, and every other value is drawn from a fixed enumeration of
//! native error codes.  [`result`] classifies such a code, mapping each
//! recognized code to its [`Error`] variant and any unrecognized non-zero
//! code to [`Error::Unknown`].

use vstd::prelude::*;

verus! {

/// The native code for success (`EB_ErrorNone`).
pub const EB_ERROR_NONE: i32 = 0;

/// The native code for `EB_ErrorInsufficientResources` (`0x80001000`).
pub const EB_ERROR_INSUFFICIENT_RESOURCES: i32 = -2147479552;

/// The native code for `EB_ErrorUndefined` (`0x80001001`).
pub const EB_ERROR_UNDEFINED: i32 = -2147479551;

/// The native code for `EB_ErrorInvalidComponent` (`0x80001004`).
pub const EB_ERROR_INVALID_COMPONENT: i32 = -2147479548;

/// The native code for `EB_ErrorBadParameter` (`0x80001005`).
pub const EB_ERROR_BAD_PARAMETER: i32 = -2147479547;

/// The native code for `EB_ErrorDestroyThreadFailed` (`0x80002012`).
pub const EB_ERROR_DESTROY_THREAD_FAILED: i32 = -2147475438;

/// The native code for `EB_ErrorSemaphoreUnresponsive` (`0x80002021`).
pub const EB_ERROR_SEMAPHORE_UNRESPONSIVE: i32 = -2147475423;

/// The native code for `EB_ErrorDestroySemaphoreFailed` (`0x80002022`).
pub const EB_ERROR_DESTROY_SEMAPHORE_FAILED: i32 = -2147475422;

/// The native code for `EB_ErrorCreateMutexFailed` (`0x80002030`).
pub const EB_ERROR_CREATE_MUTEX_FAILED: i32 = -2147475408;

/// The native code for `EB_ErrorMutexUnresponsive` (`0x80002031`).
pub const EB_ERROR_MUTEX_UNRESPONSIVE: i32 = -2147475407;

/// The native code for `EB_ErrorDestroyMutexFailed` (`0x80002032`).
pub const EB_ERROR_DESTROY_MUTEX_FAILED: i32 = -2147475406;

/// The native code for `EB_NoErrorEmptyQueue` (`0x80002033`): the
/// distinguished non-error answer of a non-blocking packet poll.  It is not
/// part of the error taxonomy; a retrieval call that sees it reports an
/// absent packet instead of an error.
pub const EB_NO_ERROR_EMPTY_QUEUE: i32 = -2147475405;

/// An error reported by the native encoding engine, classified from its
/// result code.
#[derive(Debug, Copy, Clone)]
pub enum Error {
    /// The engine could not allocate a resource it needed.
    InsufficientResources,
    /// An unspecified engine failure.
    Undefined,
    /// A call was made against an invalid engine component.
    InvalidComponent,
    /// A configuration value was rejected by the engine.
    BadParameter,
    /// The engine failed to tear down a worker thread.
    DestroyThreadFailed,
    /// An engine semaphore stopped responding.
    SemaphoreUnresponsive,
    /// The engine failed to tear down a semaphore.
    DestroySemaphoreFailed,
    /// The engine failed to create a mutex.
    CreateMutexFailed,
    /// An engine mutex stopped responding.
    MutexUnresponsive,
    /// The engine failed to tear down a mutex.
    DestroyMutexFailed,
    /// A non-zero result code outside the recognized enumeration.
    Unknown(i32),
}

/// The classification [`result`] gives to a native result code.
pub open spec fn classified(code: i32) -> Result<(), Error> {
    if code == EB_ERROR_NONE {
        Ok(())
    } else if code == EB_ERROR_INSUFFICIENT_RESOURCES {
        Err(Error::InsufficientResources)
    } else if code == EB_ERROR_UNDEFINED {
        Err(Error::Undefined)
    } else if code == EB_ERROR_INVALID_COMPONENT {
        Err(Error::InvalidComponent)
    } else if code == EB_ERROR_BAD_PARAMETER {
        Err(Error::BadParameter)
    } else if code == EB_ERROR_DESTROY_THREAD_FAILED {
        Err(Error::DestroyThreadFailed)
    } else if code == EB_ERROR_SEMAPHORE_UNRESPONSIVE {
        Err(Error::SemaphoreUnresponsive)
    } else if code == EB_ERROR_DESTROY_SEMAPHORE_FAILED {
        Err(Error::DestroySemaphoreFailed)
    } else if code == EB_ERROR_CREATE_MUTEX_FAILED {
        Err(Error::CreateMutexFailed)
    } else if code == EB_ERROR_MUTEX_UNRESPONSIVE {
        Err(Error::MutexUnresponsive)
    } else if code == EB_ERROR_DESTROY_MUTEX_FAILED {
        Err(Error::DestroyMutexFailed)
    } else {
        Err(Error::Unknown(code))
    }
}

/// Classifies a native result code: `Ok` exactly for the success code `0`,
/// the matching taxonomy variant for each recognized error code, and
/// [`Error::Unknown`] carrying the code itself for anything else.
pub fn result(code: i32) -> (r: Result<(), Error>)
    ensures
        r == classified(code),
        r is Ok <==> code == EB_ERROR_NONE,
{
    match code {
        EB_ERROR_NONE => Ok(()),
        EB_ERROR_INSUFFICIENT_RESOURCES => Err(Error::InsufficientResources),
        EB_ERROR_UNDEFINED => Err(Error::Undefined),
        EB_ERROR_INVALID_COMPONENT => Err(Error::InvalidComponent),
        EB_ERROR_BAD_PARAMETER => Err(Error::BadParameter),
        EB_ERROR_DESTROY_THREAD_FAILED => Err(Error::DestroyThreadFailed),
        EB_ERROR_SEMAPHORE_UNRESPONSIVE => Err(Error::SemaphoreUnresponsive),
        EB_ERROR_DESTROY_SEMAPHORE_FAILED => Err(Error::DestroySemaphoreFailed),
        EB_ERROR_CREATE_MUTEX_FAILED => Err(Error::CreateMutexFailed),
        EB_ERROR_MUTEX_UNRESPONSIVE => Err(Error::MutexUnresponsive),
        EB_ERROR_DESTROY_MUTEX_FAILED => Err(Error::DestroyMutexFailed),
        _ => Err(Error::Unknown(code)),
    }
}

/// The name [`Error::description`] gives to each variant.
pub open spec fn description_of(e: Error) -> Seq<char> {
    match e {
        Error::InsufficientResources => "EB_ErrorInsufficientResources"@,
        Error::Undefined => "EB_ErrorUndefined"@,
        Error::InvalidComponent => "EB_ErrorInvalidComponent"@,
        Error::BadParameter => "EB_ErrorBadParameter"@,
        Error::DestroyThreadFailed => "EB_ErrorDestroyThreadFailed"@,
        Error::SemaphoreUnresponsive => "EB_ErrorSemaphoreUnresponsive"@,
        Error::DestroySemaphoreFailed => "EB_ErrorDestroySemaphoreFailed"@,
        Error::CreateMutexFailed => "EB_ErrorCreateMutexFailed"@,
        Error::MutexUnresponsive => "EB_ErrorMutexUnresponsive"@,
        Error::DestroyMutexFailed => "EB_ErrorDestroyMutexFailed"@,
        Error::Unknown(_) => "Unknown error"@,
    }
}

impl Error {
    /// The native name of the error, as the engine's interface spells it.
    pub fn description(&self) -> (r: String)
        ensures
            r@ == description_of(*self),
    {
        match self {
            Error::InsufficientResources => "EB_ErrorInsufficientResources".to_string(),
            Error::Undefined => "EB_ErrorUndefined".to_string(),
            Error::InvalidComponent => "EB_ErrorInvalidComponent".to_string(),
            Error::BadParameter => "EB_ErrorBadParameter".to_string(),
            Error::DestroyThreadFailed => "EB_ErrorDestroyThreadFailed".to_string(),
            Error::SemaphoreUnresponsive => "EB_ErrorSemaphoreUnresponsive".to_string(),
            Error::DestroySemaphoreFailed => "EB_ErrorDestroySemaphoreFailed".to_string(),
            Error::CreateMutexFailed => "EB_ErrorCreateMutexFailed".to_string(),
            Error::MutexUnresponsive => "EB_ErrorMutexUnresponsive".to_string(),
            Error::DestroyMutexFailed => "EB_ErrorDestroyMutexFailed".to_string(),
            Error::Unknown(_) => "Unknown error".to_string(),
        }
    }
}

} // verus!

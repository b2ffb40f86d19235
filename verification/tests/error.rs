use svt::av1::{
    result, EB_ERROR_BAD_PARAMETER, EB_ERROR_CREATE_MUTEX_FAILED, EB_ERROR_DESTROY_MUTEX_FAILED,
    EB_ERROR_DESTROY_SEMAPHORE_FAILED, EB_ERROR_DESTROY_THREAD_FAILED,
    EB_ERROR_INSUFFICIENT_RESOURCES, EB_ERROR_INVALID_COMPONENT, EB_ERROR_MUTEX_UNRESPONSIVE,
    EB_ERROR_NONE, EB_ERROR_SEMAPHORE_UNRESPONSIVE, EB_ERROR_UNDEFINED, EB_NO_ERROR_EMPTY_QUEUE,
};
use svt::Error;

#[test]
fn success_code_is_ok() {
    assert!(result(EB_ERROR_NONE).is_ok());
    assert!(result(0).is_ok());
}

#[test]
fn each_error_code_maps_to_its_variant() {
    assert!(matches!(
        result(EB_ERROR_INSUFFICIENT_RESOURCES),
        Err(Error::InsufficientResources)
    ));
    assert!(matches!(result(EB_ERROR_UNDEFINED), Err(Error::Undefined)));
    assert!(matches!(
        result(EB_ERROR_INVALID_COMPONENT),
        Err(Error::InvalidComponent)
    ));
    assert!(matches!(
        result(EB_ERROR_BAD_PARAMETER),
        Err(Error::BadParameter)
    ));
    assert!(matches!(
        result(EB_ERROR_DESTROY_THREAD_FAILED),
        Err(Error::DestroyThreadFailed)
    ));
    assert!(matches!(
        result(EB_ERROR_SEMAPHORE_UNRESPONSIVE),
        Err(Error::SemaphoreUnresponsive)
    ));
    assert!(matches!(
        result(EB_ERROR_DESTROY_SEMAPHORE_FAILED),
        Err(Error::DestroySemaphoreFailed)
    ));
    assert!(matches!(
        result(EB_ERROR_CREATE_MUTEX_FAILED),
        Err(Error::CreateMutexFailed)
    ));
    assert!(matches!(
        result(EB_ERROR_MUTEX_UNRESPONSIVE),
        Err(Error::MutexUnresponsive)
    ));
    assert!(matches!(
        result(EB_ERROR_DESTROY_MUTEX_FAILED),
        Err(Error::DestroyMutexFailed)
    ));
}

#[test]
fn unrecognized_codes_are_unknown_and_keep_the_code() {
    assert!(matches!(result(12345), Err(Error::Unknown(12345))));
    assert!(matches!(result(-7), Err(Error::Unknown(-7))));

    // The empty-queue sentinel is not part of the error taxonomy; the packet
    // retrieval path turns it into an absent packet before classification.
    assert!(matches!(
        result(EB_NO_ERROR_EMPTY_QUEUE),
        Err(Error::Unknown(_))
    ));
}

#[test]
fn native_error_codes_are_bit_exact() {
    // The recognized codes mirror the engine's enumeration.
    assert_eq!(EB_ERROR_INSUFFICIENT_RESOURCES as u32, 0x80001000);
    assert_eq!(EB_ERROR_UNDEFINED as u32, 0x80001001);
    assert_eq!(EB_ERROR_INVALID_COMPONENT as u32, 0x80001004);
    assert_eq!(EB_ERROR_BAD_PARAMETER as u32, 0x80001005);
    assert_eq!(EB_ERROR_DESTROY_THREAD_FAILED as u32, 0x80002012);
    assert_eq!(EB_ERROR_SEMAPHORE_UNRESPONSIVE as u32, 0x80002021);
    assert_eq!(EB_ERROR_DESTROY_SEMAPHORE_FAILED as u32, 0x80002022);
    assert_eq!(EB_ERROR_CREATE_MUTEX_FAILED as u32, 0x80002030);
    assert_eq!(EB_ERROR_MUTEX_UNRESPONSIVE as u32, 0x80002031);
    assert_eq!(EB_ERROR_DESTROY_MUTEX_FAILED as u32, 0x80002032);
    assert_eq!(EB_NO_ERROR_EMPTY_QUEUE as u32, 0x80002033);
}

#[test]
fn descriptions_name_the_native_errors() {
    assert_eq!(
        Error::InsufficientResources.description(),
        "EB_ErrorInsufficientResources"
    );
    assert_eq!(Error::Undefined.description(), "EB_ErrorUndefined");
    assert_eq!(
        Error::InvalidComponent.description(),
        "EB_ErrorInvalidComponent"
    );
    assert_eq!(Error::BadParameter.description(), "EB_ErrorBadParameter");
    assert_eq!(
        Error::DestroyThreadFailed.description(),
        "EB_ErrorDestroyThreadFailed"
    );
    assert_eq!(
        Error::SemaphoreUnresponsive.description(),
        "EB_ErrorSemaphoreUnresponsive"
    );
    assert_eq!(
        Error::DestroySemaphoreFailed.description(),
        "EB_ErrorDestroySemaphoreFailed"
    );
    assert_eq!(
        Error::CreateMutexFailed.description(),
        "EB_ErrorCreateMutexFailed"
    );
    assert_eq!(
        Error::MutexUnresponsive.description(),
        "EB_ErrorMutexUnresponsive"
    );
    assert_eq!(
        Error::DestroyMutexFailed.description(),
        "EB_ErrorDestroyMutexFailed"
    );
    assert_eq!(Error::Unknown(3).description(), "Unknown error");
}

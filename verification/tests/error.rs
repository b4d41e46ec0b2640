use compo_platform_loop::error::BridgeError;

#[test]
fn every_failure_has_its_text() {
    assert_eq!(
        BridgeError::NotInitialized.message(),
        "Java VM is not initialized, please call the `run` function and set the correct JavaVM first."
    );
    assert_eq!(BridgeError::AttachFailed.message(), "Can't attach current thread.");
    assert_eq!(BridgeError::MainLoopFailed.message(), "Run failed.");
    assert_eq!(
        BridgeError::RegistrationFailed.message(),
        "Register native method failed."
    );
    assert_eq!(BridgeError::OffMainThread.message(), "Can't run on non-main-thread.");
}

#[test]
fn two_failures_end_startup() {
    assert!(BridgeError::OffMainThread.is_final());
    assert!(BridgeError::AttachFailed.is_final());
    assert!(!BridgeError::NotInitialized.is_final());
    assert!(!BridgeError::MainLoopFailed.is_final());
    assert!(!BridgeError::RegistrationFailed.is_final());
}

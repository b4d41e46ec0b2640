use compo_platform_loop::error::BridgeError;
use compo_platform_loop::reentry::{invoke_if_attached, vm_exec, ProcessSlot};
use std::cell::Cell;

#[test]
fn slot_starts_empty() {
    let slot: ProcessSlot<u32> = ProcessSlot::new();
    assert!(!slot.is_set());
    assert_eq!(slot.get(), Err(BridgeError::NotInitialized));
}

#[test]
fn slot_is_written_once() {
    let mut slot: ProcessSlot<u32> = ProcessSlot::new();
    assert_eq!(slot.set(7), Ok(()));
    assert!(slot.is_set());
    assert_eq!(slot.get(), Ok(&7));
    assert_eq!(slot.set(9), Err(9));
    assert_eq!(slot.get(), Ok(&7));
    assert_eq!(slot.set(7), Err(7));
    assert_eq!(slot.get(), Ok(&7));
}

#[test]
fn re_entry_before_run_reports_and_skips_the_action() {
    let slot: ProcessSlot<jni::JavaVM> = ProcessSlot::new();
    let ran = Cell::new(false);
    let failure = vm_exec(&slot, |_env| ran.set(true)).unwrap_err();
    assert_eq!(failure.kind, BridgeError::NotInitialized);
    assert!(failure.cause.is_none());
    assert!(!ran.get());
    let again = vm_exec(&slot, |_env| ran.set(true)).unwrap_err();
    assert_eq!(again.kind, BridgeError::NotInitialized);
    assert!(!ran.get());
}

#[test]
fn attached_action_runs_exactly_once() {
    let runs = Cell::new(0u32);
    let attached: Result<u32, ()> = Ok(41);
    let outcome = invoke_if_attached(attached, |guard| {
        runs.set(runs.get() + 1);
        guard + 1
    });
    assert_eq!(outcome.unwrap(), 42);
    assert_eq!(runs.get(), 1);
}

#[test]
fn failed_attachment_reports_its_cause_and_skips_the_action() {
    let ran = Cell::new(false);
    let attached: Result<u32, jni::errors::Error> = Err(jni::errors::Error::JavaException);
    let failure = invoke_if_attached(attached, |_guard| ran.set(true)).unwrap_err();
    assert_eq!(failure.kind, BridgeError::AttachFailed);
    assert!(matches!(failure.cause, Some(jni::errors::Error::JavaException)));
    assert!(!ran.get());

    let other: Result<(), &str> = Err("shutting down");
    let failure = invoke_if_attached(other, |_| 5u8).unwrap_err();
    assert_eq!(failure.kind, BridgeError::AttachFailed);
    assert_eq!(failure.cause, Some("shutting down"));
}

//! Re-entry into a managed runtime.
//!
//! Native callbacks arrive without any application context, so the handle by
//! which the managed runtime is reached is kept in one slot that is written
//! once, at startup, and read fallibly ever after. `vm_exec` is the only way
//! from the slot to the environment: it attaches the calling thread, hands
//! the guard to the caller's action, and lets the guard's end release the
//! attachment on every path.

use vstd::prelude::*;
use crate::error::{BridgeError, Failure};

verus! {

/// `jni::JavaVM`, the handle of a Java virtual machine: carried through,
/// never looked into.
#[verifier::external_type_specification]
#[verifier::external_body]
pub struct ExJavaVM(jni::JavaVM);

/// `jni::AttachGuard`, the scoped access of an attached thread to the
/// virtual machine's environment: carried through, never looked into.
#[verifier::external_type_specification]
#[verifier::external_body]
pub struct ExAttachGuard<'local>(jni::AttachGuard<'local>);

/// `jni::errors::Error`: only its presence is read.
#[verifier::external_type_specification]
#[verifier::external_body]
pub struct ExJniError(jni::errors::Error);

/// `jni::JavaVM::attach_current_thread` attaches the calling thread to the
/// virtual machine, or finds it attached already, and returns a guard that
/// gives access to the environment and detaches on drop if it attached.
/// Whether that succeeds is the virtual machine's to decide: nothing is
/// claimed of the result.
pub assume_specification[ jni::JavaVM::attach_current_thread ](vm: &jni::JavaVM) -> (attached: Result<
    jni::AttachGuard<'_>,
    jni::errors::Error,
>)
;

/// A slot for the process handle: empty until it is set, set at most once.
pub struct ProcessSlot<H> {
    handle: Option<H>,
}

impl<H> ProcessSlot<H> {
    /// What the slot holds.
    pub closed spec fn handle(&self) -> Option<H> {
        self.handle
    }

    /// An empty slot.
    pub fn new() -> (slot: ProcessSlot<H>)
        ensures
            slot.handle() is None,
    {
        ProcessSlot { handle: None }
    }

    /// Whether the handle has been stored.
    pub fn is_set(&self) -> (set: bool)
        ensures
            set == self.handle() is Some,
    {
        self.handle.is_some()
    }

    /// Stores the handle if the slot is empty. A slot that is set keeps what
    /// it holds, and the handle that was offered comes back.
    pub fn set(&mut self, handle: H) -> (outcome: Result<(), H>)
        ensures
            old(self).handle() is None ==> outcome is Ok && final(self).handle() == Some(handle),
            old(self).handle() is Some ==> outcome == Err::<(), H>(handle) && final(self).handle() == old(
                self,
            ).handle(),
    {
        if self.handle.is_some() {
            Err(handle)
        } else {
            self.handle = Some(handle);
            Ok(())
        }
    }

    /// The handle, or `NotInitialized` while the slot is empty.
    pub fn get(&self) -> (outcome: Result<&H, BridgeError>)
        ensures
            match self.handle() {
                Some(h) => outcome == Ok::<&H, BridgeError>(&h),
                None => outcome == Err::<&H, BridgeError>(BridgeError::NotInitialized),
            },
    {
        match &self.handle {
            Some(h) => Ok(h),
            None => Err(BridgeError::NotInitialized),
        }
    }
}

/// Finishes a re-entry once the attachment has been tried: on a guard the
/// action runs, once, with that guard, and its result comes back; on a failed
/// attachment the action is dropped unused and `AttachFailed` is reported,
/// with the error that the attachment gave.
pub fn invoke_if_attached<G, E, R, F>(attached: Result<G, E>, action: F) -> (outcome: Result<
    R,
    Failure<E>,
>) where F: FnOnce(G) -> R
    requires
        attached matches Ok(g) ==> call_requires(action, (g,)),
    ensures
        match attached {
            Ok(g) => outcome matches Ok(r) && call_ensures(action, (g,), r),
            Err(e) => outcome matches Err(f) && f.kind == BridgeError::AttachFailed && f.cause
                == Some(e),
        },
{
    match attached {
        Ok(g) => Ok(action(g)),
        Err(e) => Err(Failure { kind: BridgeError::AttachFailed, cause: Some(e) }),
    }
}

/// Runs `action` with the calling thread attached to the virtual machine in
/// `slot`. While the slot is empty nothing is attached, the action does not
/// run and `NotInitialized` is reported. Otherwise the thread is attached:
/// if that fails the action does not run and `AttachFailed` is reported with
/// the virtual machine's error; if it succeeds the action runs once with the
/// guard, which releases the attachment when the action returns, and what
/// the action returns comes back.
pub fn vm_exec<R, F>(slot: &ProcessSlot<jni::JavaVM>, action: F) -> (outcome: Result<
    R,
    Failure<jni::errors::Error>,
>) where F: for <'a>FnOnce(jni::AttachGuard<'a>) -> R
    requires
        forall|g: jni::AttachGuard<'_>| call_requires(action, (g,)),
    ensures
        slot.handle() is None ==> (outcome matches Err(f) && f.kind == BridgeError::NotInitialized
            && f.cause is None),
        slot.handle() is Some ==> outcome is Ok || (outcome matches Err(f) && f.kind
            == BridgeError::AttachFailed && f.cause is Some),
        outcome matches Ok(r) ==> exists|g: jni::AttachGuard<'_>| call_ensures(action, (g,), r),
{
    match slot.get() {
        Ok(vm) => {
            let attached = vm.attach_current_thread();
            invoke_if_attached(attached, action)
        },
        Err(kind) => Err(Failure { kind, cause: None }),
    }
}

} // verus!

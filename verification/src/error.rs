//! The ways in which the bridge can fail. None of them is fatal: each
//! degrades one capability, is handed to the caller to be reported, and
//! leaves the process running.

use vstd::prelude::*;

verus! {

/// A failure inside the bridge.
#[derive(Clone, Copy, Debug, PartialEq, Eq, Structural)]
pub enum BridgeError {
    /// The managed environment was asked for before `run` had stored the
    /// process handle.
    NotInitialized,
    /// The calling thread could not be attached to the managed runtime.
    AttachFailed,
    /// The managed runtime's main-loop entry point reported a failure.
    MainLoopFailed,
    /// The polling callback could not be registered with the managed
    /// runtime; that runtime will never ask for a poll.
    RegistrationFailed,
    /// The application object was to be started off the main thread; the
    /// loop does not start.
    OffMainThread,
}

impl BridgeError {
    /// The text under which the failure is reported.
    pub open spec fn text(self) -> Seq<char> {
        match self {
            BridgeError::NotInitialized =>
                "Java VM is not initialized, please call the `run` function and set the correct JavaVM first."@,
            BridgeError::AttachFailed => "Can't attach current thread."@,
            BridgeError::MainLoopFailed => "Run failed."@,
            BridgeError::RegistrationFailed => "Register native method failed."@,
            BridgeError::OffMainThread => "Can't run on non-main-thread."@,
        }
    }

    /// The text under which the failure is reported.
    pub fn message(&self) -> (s: &'static str)
        ensures
            s@ == self.text(),
    {
        match self {
            BridgeError::NotInitialized =>
                "Java VM is not initialized, please call the `run` function and set the correct JavaVM first.",
            BridgeError::AttachFailed => "Can't attach current thread.",
            BridgeError::MainLoopFailed => "Run failed.",
            BridgeError::RegistrationFailed => "Register native method failed.",
            BridgeError::OffMainThread => "Can't run on non-main-thread.",
        }
    }

    /// Whether this failure ends startup: off the main thread the loop is
    /// not started, and a thread that could not be attached cannot ask
    /// anything of the managed runtime. Every other failure is reported and
    /// what was under way goes on.
    pub open spec fn ends_startup(self) -> bool {
        self == BridgeError::OffMainThread || self == BridgeError::AttachFailed
    }

    /// Whether this failure ends startup.
    pub fn is_final(&self) -> (ends: bool)
        ensures
            ends == self.ends_startup(),
    {
        match self {
            BridgeError::OffMainThread => true,
            BridgeError::AttachFailed => true,
            _ => false,
        }
    }
}

/// A failure together with the error of the outside call that caused it,
/// where one did.
#[derive(Debug)]
pub struct Failure<E> {
    /// What failed.
    pub kind: BridgeError,
    /// What the outside call gave as its error.
    pub cause: Option<E>,
}

/// What failed, of each of `failures` in order.
pub open spec fn kinds<E>(failures: Seq<Failure<E>>) -> Seq<BridgeError> {
    failures.map_values(|f: Failure<E>| f.kind)
}

} // verus!

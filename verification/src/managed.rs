//! Startup on a managed runtime.
//!
//! There the native loop belongs to a foreign virtual machine. With the
//! machine's handle stored, the bridge sets up runtime and root component,
//! and then, attached to the machine, starts its main loop and registers the
//! callback through which the machine asks for every poll.

use vstd::prelude::*;
use crate::error::{kinds, BridgeError, Failure};
use crate::reentry::{vm_exec, ProcessSlot};
use crate::startup::{
    lemma_stop_is, plan, reported, reports, Platform, MAIN_LOOP_CLASS, MAIN_LOOP_ENTRY,
    VOID_SIGNATURE,
};

verus! {

/// `jni::NativeMethod`, a name, a signature and a function pointer: carried
/// through, never looked into.
#[verifier::external_type_specification]
#[verifier::external_body]
pub struct ExNativeMethod(jni::NativeMethod);

/// `jni::JNIEnv::call_static_method`, with no arguments and its result
/// dropped: looks up `class`, then its static method `name` of signature
/// `signature`, and calls it. Whether that succeeds is the virtual machine's
/// to decide: nothing is claimed of the result.
#[verifier::external_body]
fn call_static_void(
    env: &mut jni::AttachGuard<'_>,
    class: &str,
    name: &str,
    signature: &str,
) -> (outcome: Result<(), jni::errors::Error>) {
    env.call_static_method(class, name, signature, &[]).map(|_| ())
}

/// `jni::JNIEnv::register_native_methods`, with one method: looks up `class`
/// and binds `method` to it. Whether that succeeds is the virtual machine's
/// to decide: nothing is claimed of the result.
#[verifier::external_body]
fn register_native_method(env: &mut jni::AttachGuard<'_>, class: &str, method: jni::NativeMethod) -> (outcome:
    Result<(), jni::errors::Error>) {
    env.register_native_methods(class, &[method])
}

/// The outcomes of the steps of a managed startup in which every step before
/// the attachment succeeded.
pub open spec fn managed_outcomes(attached: bool, started: bool, registered: bool) -> Seq<bool> {
    seq![true, true, true, true, attached, started, registered]
}

/// What is reported of the two calls into the managed runtime: a main loop
/// that failed to start, then a callback that failed to register.
pub open spec fn launch_reports(started: bool, registered: bool) -> Seq<BridgeError> {
    let first = if started {
        Seq::<BridgeError>::empty()
    } else {
        seq![BridgeError::MainLoopFailed]
    };
    if registered {
        first
    } else {
        first.push(BridgeError::RegistrationFailed)
    }
}

/// What is reported of the two calls when they ended as `started` and
/// `registered`: each failure with the error that its call gave.
pub open spec fn launch_failures<E>(started: Result<(), E>, registered: Result<(), E>) -> Seq<
    Failure<E>,
> {
    let first = match started {
        Ok(_) => Seq::<Failure<E>>::empty(),
        Err(e) => seq![Failure { kind: BridgeError::MainLoopFailed, cause: Some(e) }],
    };
    match registered {
        Ok(_) => first,
        Err(e) => first.push(Failure { kind: BridgeError::RegistrationFailed, cause: Some(e) }),
    }
}

/// Whether `made` is what the two calls into the managed runtime can report.
pub open spec fn is_launch_report<E>(made: Seq<Failure<E>>) -> bool {
    exists|started: Result<(), E>, registered: Result<(), E>|
        made == launch_failures(started, registered)
}

/// The failures of the two calls are of the kinds that `launch_reports`
/// gives for their outcomes.
pub proof fn lemma_launch_kinds<E>(started: Result<(), E>, registered: Result<(), E>)
    ensures
        kinds(launch_failures(started, registered)) == launch_reports(
            started is Ok,
            registered is Ok,
        ),
{
    assert(kinds(launch_failures(started, registered)) =~= launch_reports(
        started is Ok,
        registered is Ok,
    ));
}

/// What a managed startup reports once the thread is attached is what its
/// two calls report; one whose attachment failed reports that alone.
pub proof fn lemma_managed_reports(attached: bool, started: bool, registered: bool)
    ensures
        reported(Platform::ManagedRuntime, managed_outcomes(attached, started, registered)) == if attached {
            launch_reports(started, registered)
        } else {
            seq![BridgeError::AttachFailed]
        },
{
    let steps = plan(Platform::ManagedRuntime);
    let outcomes = managed_outcomes(attached, started, registered);
    if attached {
        lemma_stop_is(steps, outcomes, 0, 7);
    } else {
        lemma_stop_is(steps, outcomes, 0, 5);
    }
    reveal_with_fuel(reports, 8);
    assert(reported(Platform::ManagedRuntime, outcomes) =~= if attached {
        launch_reports(started, registered)
    } else {
        seq![BridgeError::AttachFailed]
    });
}

/// What is to be reported when the main loop's start and the callback's
/// registration ended as `started` and `registered` say.
pub fn report_launch<E>(started: Result<(), E>, registered: Result<(), E>) -> (made: Vec<Failure<E>>)
    ensures
        made@ == launch_failures(started, registered),
{
    let mut made: Vec<Failure<E>> = Vec::new();
    match started {
        Ok(_) => {},
        Err(e) => {
            made.push(Failure { kind: BridgeError::MainLoopFailed, cause: Some(e) });
        },
    }
    match registered {
        Ok(_) => {},
        Err(e) => {
            made.push(Failure { kind: BridgeError::RegistrationFailed, cause: Some(e) });
        },
    }
    made
}

/// Starts the managed runtime's main loop and then registers
/// `poll_callback` with it. A main loop that fails to start is reported and
/// the callback is registered all the same; a callback that fails to
/// register is reported too. Both calls are made whatever the first one
/// gave, the second with whatever exception the first has left pending, and
/// the guard is let go at the end.
pub fn launch(env: jni::AttachGuard<'_>, poll_callback: jni::NativeMethod) -> (made: Vec<
    Failure<jni::errors::Error>,
>)
    ensures
        is_launch_report(made@),
{
    let mut env = env;
    let started = call_static_void(&mut env, MAIN_LOOP_CLASS, MAIN_LOOP_ENTRY, VOID_SIGNATURE);
    let registered = register_native_method(&mut env, MAIN_LOOP_CLASS, poll_callback);
    report_launch(started, registered)
}

/// Starts the bridge on the managed runtime whose handle `slot` holds: lets
/// `bootstrap` create the runtime and the root component and spawn the entry
/// task, and then, attached to the virtual machine, starts its main loop and
/// registers `poll_callback`. What went wrong on the way comes back, each
/// failure with the virtual machine's error; nothing of it stops the
/// process.
///
/// The handle is stored before, with `ProcessSlot::set`, which takes it once:
/// a process starts one bridge. With an empty slot the bootstrap is still
/// done, and `NotInitialized` is all that is reported.
pub fn run<B>(slot: &ProcessSlot<jni::JavaVM>, bootstrap: B, poll_callback: jni::NativeMethod) -> (made:
    Vec<Failure<jni::errors::Error>>) where B: FnOnce()
    requires
        call_requires(bootstrap, ()),
    ensures
        call_ensures(bootstrap, (), ()),
        slot.handle() is None ==> kinds(made@) == seq![BridgeError::NotInitialized],
        slot.handle() is Some ==> exists|attached: bool, started: bool, registered: bool|
            kinds(made@) == reported(
                Platform::ManagedRuntime,
                #[trigger] managed_outcomes(attached, started, registered),
            ),
{
    bootstrap();
    let action = |env: jni::AttachGuard<'_>| -> (made: Vec<Failure<jni::errors::Error>>)
        ensures
            is_launch_report(made@),
        { launch(env, poll_callback) };
    let launched = vm_exec(slot, action);
    match launched {
        Ok(made) => {
            proof {
                let (started, registered) = choose|
                    started: Result<(), jni::errors::Error>,
                    registered: Result<(), jni::errors::Error>,
                | made@ == launch_failures(started, registered);
                lemma_launch_kinds(started, registered);
                lemma_managed_reports(true, started is Ok, registered is Ok);
            }
            made
        },
        Err(failure) => {
            proof {
                lemma_managed_reports(false, true, true);
            }
            let mut made: Vec<Failure<jni::errors::Error>> = Vec::new();
            made.push(failure);
            assert(kinds(made@) =~= seq![failure.kind]);
            made
        },
    }
}

} // verus!

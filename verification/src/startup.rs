//! The order of startup.
//!
//! Every platform starts the same way: one runtime, one root component made
//! from a weak handle to it, one task spawned for the entry function. What
//! follows hands control to the platform's own loop, in the steps that loop
//! asks for. The sequencer here says which step is next and what a failed
//! step means; `start` walks it and has each step performed by its caller.
//! On a message-queue platform the loop object does the first three steps
//! itself when it is run, so the bridge's own plan there is short.
//!
//! A sequencer describes one start of the one bridge a process has. Starting
//! a second bridge in the same process is not supported.

use vstd::prelude::*;
use crate::error::BridgeError;

verus! {

/// The class of the managed runtime that owns the main loop.
pub const MAIN_LOOP_CLASS: &'static str = "rust/compo/MainLoop";

/// The static method of `MAIN_LOOP_CLASS` that starts the main loop.
pub const MAIN_LOOP_ENTRY: &'static str = "run";

/// The name under which the polling callback is registered.
pub const POLL_CALLBACK: &'static str = "poll_all";

/// The signature of both: no arguments, no result.
pub const VOID_SIGNATURE: &'static str = "()V";

/// The run-loop mode in which the polling timer is processed.
pub const TIMER_MODE: &'static str = "NSDefaultRunLoopMode";

/// The kind of native loop the bridge runs on.
#[derive(Clone, Copy, Debug, PartialEq, Eq, Structural)]
pub enum Platform {
    /// A message queue with an idle hook.
    MessageQueue,
    /// A bare run loop with scheduled timers.
    RunLoop,
    /// A run loop driven by the platform's application object.
    RunLoopWithShell,
    /// A loop owned by a managed runtime that calls back for every poll.
    ManagedRuntime,
}

/// One step of startup.
#[derive(Clone, Copy, Debug, PartialEq, Eq, Structural)]
pub enum Step {
    /// Store the managed runtime's process handle in its slot.
    StoreProcessHandle,
    /// Install the drain pass as the loop's idle handler.
    InstallDrainHandler,
    /// Create the runtime.
    CreateRuntime,
    /// Create the root component from a weak handle to the runtime.
    CreateRootComponent,
    /// Spawn the task that awaits the entry function on a weak handle to the
    /// root component.
    SpawnEntry,
    /// Run the loop object with the entry function: it creates the runtime
    /// and the root component, spawns the entry task, and polls the runtime
    /// after every drain pass until the quit message.
    RunMessageLoop,
    /// Obtain the main run loop.
    ObtainMainRunLoop,
    /// Schedule the repeating polling timer.
    ScheduleTimer,
    /// Add the timer to the loop's default mode.
    AddTimerToDefaultMode,
    /// Run the bare run loop.
    RunNativeLoop,
    /// Make sure that this is the main thread.
    CheckMainThread,
    /// Activate the application object.
    ActivateApplication,
    /// Run the application object.
    RunApplication,
    /// Attach this thread to the managed runtime.
    AttachThread,
    /// Call the managed runtime's main-loop entry point.
    StartMainLoop,
    /// Register the polling callback with the managed runtime.
    RegisterPollCallback,
}

/// The steps of startup on `platform`, in order.
pub open spec fn plan(platform: Platform) -> Seq<Step> {
    match platform {
        Platform::MessageQueue => seq![Step::InstallDrainHandler, Step::RunMessageLoop],
        Platform::RunLoop => seq![
            Step::CreateRuntime,
            Step::CreateRootComponent,
            Step::SpawnEntry,
            Step::ObtainMainRunLoop,
            Step::ScheduleTimer,
            Step::AddTimerToDefaultMode,
            Step::RunNativeLoop,
        ],
        Platform::RunLoopWithShell => seq![
            Step::CreateRuntime,
            Step::CreateRootComponent,
            Step::SpawnEntry,
            Step::ObtainMainRunLoop,
            Step::ScheduleTimer,
            Step::AddTimerToDefaultMode,
            Step::CheckMainThread,
            Step::ActivateApplication,
            Step::RunApplication,
        ],
        Platform::ManagedRuntime => seq![
            Step::StoreProcessHandle,
            Step::CreateRuntime,
            Step::CreateRootComponent,
            Step::SpawnEntry,
            Step::AttachThread,
            Step::StartMainLoop,
            Step::RegisterPollCallback,
        ],
    }
}

/// Where `plan(platform)` spawns the entry task; `None` where the loop
/// object does.
pub open spec fn spawn_position(platform: Platform) -> Option<int> {
    match platform {
        Platform::MessageQueue => None,
        Platform::RunLoop => Some(2),
        Platform::RunLoopWithShell => Some(2),
        Platform::ManagedRuntime => Some(3),
    }
}

/// What is reported when `step` fails; `None` for a step whose failure is not
/// modelled.
pub open spec fn failure(step: Step) -> Option<BridgeError> {
    match step {
        Step::CheckMainThread => Some(BridgeError::OffMainThread),
        Step::AttachThread => Some(BridgeError::AttachFailed),
        Step::StartMainLoop => Some(BridgeError::MainLoopFailed),
        Step::RegisterPollCallback => Some(BridgeError::RegistrationFailed),
        _ => None,
    }
}

/// Whether a failure of `step` ends startup: it does where what is reported
/// of it ends startup. Every other failure is reported and startup goes on.
pub open spec fn halts(step: Step) -> bool {
    failure(step) matches Some(e) && e.ends_startup()
}

/// Whether the step at `at` succeeded. A step without a recorded outcome
/// counts as having succeeded.
pub open spec fn succeeded(outcomes: Seq<bool>, at: int) -> bool {
    0 <= at < outcomes.len() ==> outcomes[at]
}

/// How many steps of `steps` are performed from `from` on, counted from the
/// start, when `outcomes` are their outcomes: all of them, or those up to and
/// with the first failed step that halts.
pub open spec fn stop(steps: Seq<Step>, outcomes: Seq<bool>, from: int) -> int
    decreases steps.len() - from,
{
    if from < 0 || from >= steps.len() {
        steps.len() as int
    } else if halts(steps[from]) && !succeeded(outcomes, from) {
        from + 1
    } else {
        stop(steps, outcomes, from + 1)
    }
}

/// The steps that are performed on `platform` under `outcomes`.
pub open spec fn performed(platform: Platform, outcomes: Seq<bool>) -> Seq<Step> {
    plan(platform).take(stop(plan(platform), outcomes, 0))
}

/// What the first `count` steps of `steps` report under `outcomes`, in order.
pub open spec fn reports(steps: Seq<Step>, outcomes: Seq<bool>, count: int) -> Seq<BridgeError>
    decreases count,
{
    if count <= 0 {
        Seq::empty()
    } else {
        let before = reports(steps, outcomes, count - 1);
        match failure(steps[count - 1]) {
            Some(e) => if succeeded(outcomes, count - 1) {
                before
            } else {
                before.push(e)
            },
            None => before,
        }
    }
}

/// What startup on `platform` reports under `outcomes`.
pub open spec fn reported(platform: Platform, outcomes: Seq<bool>) -> Seq<BridgeError> {
    reports(plan(platform), outcomes, stop(plan(platform), outcomes, 0))
}

/// `stop` lies within the plan and behind `from`, no step between `from` and
/// the last performed one is a failed halting step, and where startup stops
/// short the last performed step is one.
pub proof fn lemma_stop_bounds(steps: Seq<Step>, outcomes: Seq<bool>, from: int)
    requires
        0 <= from <= steps.len(),
    ensures
        from <= stop(steps, outcomes, from) <= steps.len(),
        from < steps.len() ==> from < stop(steps, outcomes, from),
        forall|i: int|
            from <= i < stop(steps, outcomes, from) - 1 ==> !(halts(steps[i]) && !succeeded(
                outcomes,
                i,
            )),
        stop(steps, outcomes, from) < steps.len() ==> {
            let last = stop(steps, outcomes, from) - 1;
            from <= last && halts(steps[last]) && !succeeded(outcomes, last)
        },
    decreases steps.len() - from,
{
    if from < steps.len() && !(halts(steps[from]) && !succeeded(outcomes, from)) {
        lemma_stop_bounds(steps, outcomes, from + 1);
    }
}

/// Whether the step at `at` is one that ends startup and has failed.
pub open spec fn halts_at(steps: Seq<Step>, outcomes: Seq<bool>, at: int) -> bool {
    0 <= at < steps.len() && halts(steps[at]) && !succeeded(outcomes, at)
}

/// Whether startup on `platform` is ended by a failed step under `outcomes`.
pub open spec fn ends_halted(platform: Platform, outcomes: Seq<bool>) -> bool {
    halts_at(plan(platform), outcomes, stop(plan(platform), outcomes, 0) - 1)
}

/// `stop` stops behind the first step at or after `from` that halts startup,
/// and at the end of the plan if there is none.
pub proof fn lemma_stop_is(steps: Seq<Step>, outcomes: Seq<bool>, from: int, at: int)
    requires
        0 <= from <= at <= steps.len(),
        forall|i: int| from <= i < at - 1 ==> !halts_at(steps, outcomes, i),
        (from < at && halts_at(steps, outcomes, at - 1)) || (at == steps.len() && (from == at
            || !halts_at(steps, outcomes, at - 1))),
    ensures
        stop(steps, outcomes, from) == at,
    decreases steps.len() - from,
{
    if from < steps.len() && !halts_at(steps, outcomes, from) {
        lemma_stop_is(steps, outcomes, from + 1, at);
    }
}

/// Up to `count`, what is reported depends only on how the steps before
/// `count` ended.
pub proof fn lemma_reports_agree(steps: Seq<Step>, one: Seq<bool>, other: Seq<bool>, count: int)
    requires
        forall|i: int| 0 <= i < count ==> succeeded(one, i) == succeeded(other, i),
    ensures
        reports(steps, one, count) == reports(steps, other, count),
    decreases count,
{
    if count > 0 {
        lemma_reports_agree(steps, one, other, count - 1);
    }
}

/// Spawn once: on every platform whose plan spawns the entry task, a startup
/// performs that step whatever the outcomes of its steps are, and performs it
/// exactly once, after the runtime and the root component have been created.
pub proof fn lemma_spawn_once(platform: Platform, outcomes: Seq<bool>)
    requires
        platform != Platform::MessageQueue,
    ensures
        spawn_position(platform) matches Some(at) && {
            let done = performed(platform, outcomes);
            &&& 2 <= at < done.len()
            &&& done[at] == Step::SpawnEntry
            &&& forall|i: int| 0 <= i < done.len() && done[i] == Step::SpawnEntry ==> i == at
            &&& done[at - 2] == Step::CreateRuntime
            &&& done[at - 1] == Step::CreateRootComponent
        },
{
    let steps = plan(platform);
    let at = spawn_position(platform)->0;
    lemma_stop_bounds(steps, outcomes, 0);
    let end = stop(steps, outcomes, 0);
    assert(forall|i: int| 0 <= i <= at ==> !halts(#[trigger] steps[i]));
    if end <= at {
        assert(halts(steps[end - 1]));
    }
    assert(forall|i: int| 0 <= i < steps.len() && steps[i] == Step::SpawnEntry ==> i == at);
}

/// Creates the runtime, creates the root component from it, and spawns the
/// entry task on the two, in this order and each once: `make_root` is given
/// the runtime that `make_runtime` made, and `spawn_entry` that runtime and
/// the root component that `make_root` made of it. Both come back, for the
/// caller to keep for as long as the process runs.
pub fn bootstrap<T, C, MT, MC, SE>(make_runtime: MT, make_root: MC, spawn_entry: SE) -> (made: (
    T,
    C,
)) where MT: FnOnce() -> T, MC: FnOnce(&T) -> C, SE: FnOnce(&T, &C)
    requires
        call_requires(make_runtime, ()),
        forall|rt: &T| call_requires(make_root, (rt,)),
        forall|rt: &T, root: &C| call_requires(spawn_entry, (rt, root)),
    ensures
        call_ensures(make_runtime, (), made.0),
        call_ensures(make_root, (&made.0,), made.1),
        call_ensures(spawn_entry, (&made.0, &made.1), ()),
{
    let rt = make_runtime();
    let root = make_root(&rt);
    spawn_entry(&rt, &root);
    (rt, root)
}

/// The sequencer of one startup.
pub struct Startup {
    platform: Platform,
    steps: Vec<Step>,
    position: usize,
    halted: bool,
}

/// The steps of startup on `platform`, in order.
pub fn steps_of(platform: Platform) -> (steps: Vec<Step>)
    ensures
        steps@ == plan(platform),
{
    match platform {
        Platform::MessageQueue => vec![Step::InstallDrainHandler, Step::RunMessageLoop],
        Platform::RunLoop => vec![
            Step::CreateRuntime,
            Step::CreateRootComponent,
            Step::SpawnEntry,
            Step::ObtainMainRunLoop,
            Step::ScheduleTimer,
            Step::AddTimerToDefaultMode,
            Step::RunNativeLoop,
        ],
        Platform::RunLoopWithShell => vec![
            Step::CreateRuntime,
            Step::CreateRootComponent,
            Step::SpawnEntry,
            Step::ObtainMainRunLoop,
            Step::ScheduleTimer,
            Step::AddTimerToDefaultMode,
            Step::CheckMainThread,
            Step::ActivateApplication,
            Step::RunApplication,
        ],
        Platform::ManagedRuntime => vec![
            Step::StoreProcessHandle,
            Step::CreateRuntime,
            Step::CreateRootComponent,
            Step::SpawnEntry,
            Step::AttachThread,
            Step::StartMainLoop,
            Step::RegisterPollCallback,
        ],
    }
}

/// What is reported when `step` fails.
pub fn failure_of(step: Step) -> (report: Option<BridgeError>)
    ensures
        report == failure(step),
{
    match step {
        Step::CheckMainThread => Some(BridgeError::OffMainThread),
        Step::AttachThread => Some(BridgeError::AttachFailed),
        Step::StartMainLoop => Some(BridgeError::MainLoopFailed),
        Step::RegisterPollCallback => Some(BridgeError::RegistrationFailed),
        _ => None,
    }
}

impl Startup {
    #[verifier::type_invariant]
    spec fn inv(self) -> bool {
        &&& self.steps@ == plan(self.platform)
        &&& self.position <= self.steps.len()
    }

    /// The platform that is being started.
    pub closed spec fn platform(self) -> Platform {
        self.platform
    }

    /// How many steps have been completed.
    pub closed spec fn position(self) -> int {
        self.position as int
    }

    /// Whether a failed step has ended startup.
    pub closed spec fn halted(self) -> bool {
        self.halted
    }

    /// The step to perform next, if there is one.
    pub open spec fn next(self) -> Option<Step> {
        if self.halted() || self.position() >= plan(self.platform()).len() {
            None
        } else {
            Some(plan(self.platform())[self.position()])
        }
    }

    /// A startup on `platform` of which nothing has been done yet.
    pub fn new(platform: Platform) -> (startup: Startup)
        ensures
            startup.platform() == platform,
            startup.position() == 0,
            !startup.halted(),
    {
        Startup { platform, steps: steps_of(platform), position: 0, halted: false }
    }

    /// The step to perform next; `None` once startup has run through or a
    /// failed step has ended it.
    pub fn next_step(&self) -> (step: Option<Step>)
        ensures
            step == self.next(),
    {
        proof {
            use_type_invariant(self);
        }
        if self.halted || self.position >= self.steps.len() {
            None
        } else {
            Some(self.steps[self.position])
        }
    }

    /// Records how the step that `next_step` gave has ended, and returns what
    /// is to be reported of it. A failure is reported for a step that can
    /// fail and ends startup if that step halts; for any other step the
    /// outcome changes nothing. With no step pending nothing happens.
    pub fn complete(&mut self, success: bool) -> (report: Option<BridgeError>)
        ensures
            final(self).platform() == old(self).platform(),
            match old(self).next() {
                Some(step) => {
                    &&& final(self).position() == old(self).position() + 1
                    &&& final(self).halted() == (!success && halts(step))
                    &&& report == if success {
                        None
                    } else {
                        failure(step)
                    }
                },
                None => {
                    &&& final(self).position() == old(self).position()
                    &&& final(self).halted() == old(self).halted()
                    &&& report is None
                },
            },
    {
        proof {
            use_type_invariant(&*self);
        }
        if self.halted || self.position >= self.steps.len() {
            return None;
        }
        let step = self.steps[self.position];
        self.position = self.position + 1;
        if success {
            None
        } else {
            let report = failure_of(step);
            match report {
                Some(e) => {
                    self.halted = e.is_final();
                },
                None => {},
            }
            report
        }
    }
}

/// What a startup did.
pub struct StartupRun {
    /// The steps performed, in order.
    pub steps: Vec<Step>,
    /// The failures reported, in order.
    pub reports: Vec<BridgeError>,
    /// Whether startup ran through to its last step.
    pub completed: bool,
}

/// Whether `run` is a startup on `platform` whose steps ended as `outcomes`
/// say, one outcome for each step that was performed.
pub open spec fn is_run(platform: Platform, outcomes: Seq<bool>, run: StartupRun) -> bool {
    &&& outcomes.len() == run.steps@.len()
    &&& run.steps@ == performed(platform, outcomes)
    &&& run.reports@ == reported(platform, outcomes)
    &&& run.completed == !ends_halted(platform, outcomes)
}

/// Starts the bridge on `platform`: hands each step of the plan to `perform`
/// in order, which performs it and says whether it succeeded, and goes on
/// until the plan has run through or a failed step has ended it. Comes back
/// with the steps that were performed and with what is to be reported.
pub fn start<P>(platform: Platform, perform: P) -> (run: StartupRun) where P: Fn(Step) -> bool
    requires
        forall|step: Step| call_requires(perform, (step,)),
    ensures
        exists|outcomes: Seq<bool>|
            #![trigger is_run(platform, outcomes, run)]
            is_run(platform, outcomes, run) && forall|i: int|
                0 <= i < outcomes.len() ==> call_ensures(perform, (#[trigger] run.steps@[i],), outcomes[i]),
{
    let mut startup = Startup::new(platform);
    let mut steps: Vec<Step> = Vec::new();
    let mut reports_made: Vec<BridgeError> = Vec::new();
    let ghost all = plan(platform);
    let ghost mut outcomes: Seq<bool> = Seq::empty();
    loop
        invariant
            all == plan(platform),
            forall|step: Step| call_requires(perform, (step,)),
            startup.platform() == platform,
            startup.position() == steps@.len(),
            startup.position() <= all.len(),
            outcomes.len() == steps@.len(),
            steps@ == all.take(startup.position()),
            reports_made@ == reports(all, outcomes, startup.position()),
            forall|i: int| 0 <= i < startup.position() - 1 ==> !halts_at(all, outcomes, i),
            startup.halted() <==> halts_at(all, outcomes, startup.position() - 1),
            forall|i: int|
                0 <= i < outcomes.len() ==> call_ensures(perform, (#[trigger] steps@[i],), outcomes[i]),
        ensures
            startup.next() is None,
        decreases all.len() - startup.position() + (if startup.halted() { 0int } else { 1int }),
    {
        let step = match startup.next_step() {
            Some(step) => step,
            None => {
                break ;
            },
        };
        let ghost at = steps@.len() as int;
        let ghost before = outcomes;
        let success = perform(step);
        steps.push(step);
        proof {
            outcomes = before.push(success);
            assert(steps@ == all.take(at + 1));
            lemma_reports_agree(all, before, outcomes, at);
            assert forall|i: int| 0 <= i < at implies !halts_at(all, outcomes, i) by {
                assert(succeeded(outcomes, i) == succeeded(before, i));
                assert(!halts_at(all, before, i));
            }
        }
        match startup.complete(success) {
            Some(e) => {
                reports_made.push(e);
            },
            None => {},
        }
    }
    let completed = !startup.halted;
    proof {
        lemma_stop_is(all, outcomes, 0, startup.position());
    }
    let run = StartupRun { steps, reports: reports_made, completed };
    assert(is_run(platform, outcomes, run));
    run
}

} // verus!

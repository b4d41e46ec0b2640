use compo_platform_loop::error::BridgeError;
use compo_platform_loop::startup::{
    bootstrap, failure_of, start, steps_of, Platform, Startup, Step, MAIN_LOOP_CLASS,
    MAIN_LOOP_ENTRY, POLL_CALLBACK, TIMER_MODE, VOID_SIGNATURE,
};
use std::cell::{Cell, RefCell};

fn spawns(steps: &[Step]) -> usize {
    steps.iter().filter(|s| **s == Step::SpawnEntry).count()
}

#[test]
fn callback_is_registered_under_its_name_and_signature() {
    assert_eq!(MAIN_LOOP_CLASS, "rust/compo/MainLoop");
    assert_eq!(MAIN_LOOP_ENTRY, "run");
    assert_eq!(POLL_CALLBACK, "poll_all");
    assert_eq!(VOID_SIGNATURE, "()V");
    assert_eq!(TIMER_MODE, "NSDefaultRunLoopMode");
}

#[test]
fn message_queue_plan() {
    assert_eq!(
        steps_of(Platform::MessageQueue),
        vec![Step::InstallDrainHandler, Step::RunMessageLoop]
    );
}

#[test]
fn run_loop_plans() {
    assert_eq!(
        steps_of(Platform::RunLoop),
        vec![
            Step::CreateRuntime,
            Step::CreateRootComponent,
            Step::SpawnEntry,
            Step::ObtainMainRunLoop,
            Step::ScheduleTimer,
            Step::AddTimerToDefaultMode,
            Step::RunNativeLoop,
        ]
    );
    assert_eq!(
        steps_of(Platform::RunLoopWithShell),
        vec![
            Step::CreateRuntime,
            Step::CreateRootComponent,
            Step::SpawnEntry,
            Step::ObtainMainRunLoop,
            Step::ScheduleTimer,
            Step::AddTimerToDefaultMode,
            Step::CheckMainThread,
            Step::ActivateApplication,
            Step::RunApplication,
        ]
    );
}

#[test]
fn managed_runtime_plan() {
    assert_eq!(
        steps_of(Platform::ManagedRuntime),
        vec![
            Step::StoreProcessHandle,
            Step::CreateRuntime,
            Step::CreateRootComponent,
            Step::SpawnEntry,
            Step::AttachThread,
            Step::StartMainLoop,
            Step::RegisterPollCallback,
        ]
    );
}

#[test]
fn start_hands_each_step_to_the_caller_in_order() {
    let seen = RefCell::new(Vec::new());
    let run = start(Platform::RunLoop, |step| {
        seen.borrow_mut().push(step);
        true
    });
    assert_eq!(*seen.borrow(), steps_of(Platform::RunLoop));
    assert_eq!(run.steps, steps_of(Platform::RunLoop));
    assert!(run.reports.is_empty());
    assert!(run.completed);
}

#[test]
fn every_startup_spawns_exactly_one_task() {
    let platforms = [
        Platform::RunLoop,
        Platform::RunLoopWithShell,
        Platform::ManagedRuntime,
    ];
    for platform in platforms {
        let plan = steps_of(platform);
        for failing in &plan {
            let spawned = Cell::new(0u32);
            let run = start(platform, |step| {
                if step == Step::SpawnEntry {
                    spawned.set(spawned.get() + 1);
                }
                step != *failing
            });
            assert_eq!(spawned.get(), 1);
            assert_eq!(spawns(&run.steps), 1);
            let at = run.steps.iter().position(|s| *s == Step::SpawnEntry).unwrap();
            assert_eq!(run.steps[at - 2], Step::CreateRuntime);
            assert_eq!(run.steps[at - 1], Step::CreateRootComponent);
        }
        let spawned = Cell::new(0u32);
        start(platform, |step| {
            if step == Step::SpawnEntry {
                spawned.set(spawned.get() + 1);
            }
            false
        });
        assert_eq!(spawned.get(), 1);
    }
}

#[test]
fn on_a_message_queue_the_loop_object_spawns() {
    let run = start(Platform::MessageQueue, |_| true);
    assert_eq!(spawns(&run.steps), 0);
    assert_eq!(run.steps.last(), Some(&Step::RunMessageLoop));
    assert!(run.completed);
}

#[test]
fn clean_startup_runs_through() {
    let run = start(Platform::ManagedRuntime, |_| true);
    assert_eq!(run.steps, steps_of(Platform::ManagedRuntime));
    assert!(run.reports.is_empty());
    assert!(run.completed);
}

#[test]
fn off_the_main_thread_the_loop_does_not_start() {
    let run = start(Platform::RunLoopWithShell, |step| step != Step::CheckMainThread);
    assert_eq!(run.steps.len(), 7);
    assert_eq!(run.steps.last(), Some(&Step::CheckMainThread));
    assert!(!run.steps.contains(&Step::ActivateApplication));
    assert!(!run.steps.contains(&Step::RunApplication));
    assert_eq!(run.reports, vec![BridgeError::OffMainThread]);
    assert!(!run.completed);
}

#[test]
fn attachment_failure_skips_the_managed_calls() {
    let run = start(Platform::ManagedRuntime, |step| step != Step::AttachThread);
    assert_eq!(run.steps.len(), 5);
    assert_eq!(run.steps.last(), Some(&Step::AttachThread));
    assert_eq!(run.reports, vec![BridgeError::AttachFailed]);
    assert!(!run.completed);
}

#[test]
fn main_loop_failure_is_reported_and_the_callback_still_registered() {
    let run = start(Platform::ManagedRuntime, |step| step != Step::StartMainLoop);
    assert_eq!(run.steps, steps_of(Platform::ManagedRuntime));
    assert_eq!(run.reports, vec![BridgeError::MainLoopFailed]);
    assert!(run.completed);
}

#[test]
fn registration_failure_is_reported_and_startup_completes() {
    let run = start(Platform::ManagedRuntime, |step| {
        step != Step::StartMainLoop && step != Step::RegisterPollCallback
    });
    assert_eq!(run.steps, steps_of(Platform::ManagedRuntime));
    assert_eq!(
        run.reports,
        vec![BridgeError::MainLoopFailed, BridgeError::RegistrationFailed]
    );
    assert!(run.completed);
}

#[test]
fn failure_of_a_step_that_cannot_fail_changes_nothing() {
    let run = start(Platform::RunLoop, |_| false);
    assert_eq!(run.steps, steps_of(Platform::RunLoop));
    assert!(run.reports.is_empty());
    assert!(run.completed);
}

#[test]
fn only_four_steps_can_fail() {
    assert_eq!(failure_of(Step::CheckMainThread), Some(BridgeError::OffMainThread));
    assert_eq!(failure_of(Step::AttachThread), Some(BridgeError::AttachFailed));
    assert_eq!(failure_of(Step::StartMainLoop), Some(BridgeError::MainLoopFailed));
    assert_eq!(
        failure_of(Step::RegisterPollCallback),
        Some(BridgeError::RegistrationFailed)
    );
    assert_eq!(failure_of(Step::SpawnEntry), None);
    assert_eq!(failure_of(Step::CreateRuntime), None);
    assert_eq!(failure_of(Step::RunNativeLoop), None);
}

#[test]
fn sequencer_walks_the_plan() {
    let mut startup = Startup::new(Platform::RunLoop);
    let mut seen = Vec::new();
    while let Some(step) = startup.next_step() {
        seen.push(step);
        assert_eq!(startup.complete(true), None);
    }
    assert_eq!(seen, steps_of(Platform::RunLoop));
    assert_eq!(startup.next_step(), None);
    assert_eq!(startup.complete(false), None);
    assert_eq!(startup.next_step(), None);
}

#[test]
fn sequencer_halts_on_a_failed_attachment() {
    let mut startup = Startup::new(Platform::ManagedRuntime);
    for _ in 0..4 {
        assert!(startup.next_step().is_some());
        assert_eq!(startup.complete(true), None);
    }
    assert_eq!(startup.next_step(), Some(Step::AttachThread));
    assert_eq!(startup.complete(false), Some(BridgeError::AttachFailed));
    assert_eq!(startup.next_step(), None);
    assert_eq!(startup.complete(true), None);
    assert_eq!(startup.next_step(), None);
}

#[test]
fn bootstrap_makes_one_runtime_one_root_and_one_spawn() {
    let log = RefCell::new(Vec::new());
    let (rt, root) = bootstrap(
        || {
            log.borrow_mut().push("runtime".to_string());
            11u32
        },
        |rt: &u32| {
            log.borrow_mut().push(format!("root of {rt}"));
            *rt + 1
        },
        |rt: &u32, root: &u32| {
            log.borrow_mut().push(format!("spawn on {rt} for {root}"));
        },
    );
    assert_eq!(rt, 11);
    assert_eq!(root, 12);
    assert_eq!(
        *log.borrow(),
        vec!["runtime", "root of 11", "spawn on 11 for 12"]
    );
}

use compo::prelude::{Rc, Runtime};
use compo_platform_loop::error::BridgeError;
use compo_platform_loop::managed::{report_launch, run};
use compo_platform_loop::reentry::ProcessSlot;
use compo_platform_loop::startup::{bootstrap, POLL_CALLBACK, VOID_SIGNATURE};
use std::cell::Cell;

fn kinds_and_causes(
    started: Result<(), &'static str>,
    registered: Result<(), &'static str>,
) -> Vec<(BridgeError, Option<&'static str>)> {
    report_launch(started, registered)
        .into_iter()
        .map(|f| (f.kind, f.cause))
        .collect()
}

#[test]
fn launch_reports_each_failed_call_in_order() {
    assert_eq!(kinds_and_causes(Ok(()), Ok(())), vec![]);
    assert_eq!(
        kinds_and_causes(Err("no class"), Ok(())),
        vec![(BridgeError::MainLoopFailed, Some("no class"))]
    );
    assert_eq!(
        kinds_and_causes(Ok(()), Err("no method")),
        vec![(BridgeError::RegistrationFailed, Some("no method"))]
    );
    assert_eq!(
        kinds_and_causes(Err("threw"), Err("pending")),
        vec![
            (BridgeError::MainLoopFailed, Some("threw")),
            (BridgeError::RegistrationFailed, Some("pending")),
        ]
    );
}

#[test]
fn run_without_a_stored_handle_bootstraps_and_reports() {
    let slot: ProcessSlot<jni::JavaVM> = ProcessSlot::new();
    let method = jni::NativeMethod {
        name: POLL_CALLBACK.into(),
        sig: VOID_SIGNATURE.into(),
        fn_ptr: std::ptr::null_mut(),
    };
    let bootstraps = Cell::new(0u32);
    let made = run(&slot, || bootstraps.set(bootstraps.get() + 1), method);
    assert_eq!(made.len(), 1);
    assert_eq!(made[0].kind, BridgeError::NotInitialized);
    assert!(made[0].cause.is_none());
    assert_eq!(bootstraps.get(), 1);
}

#[test]
fn bootstrap_spawns_one_task_on_the_runtime_it_made() {
    let ran = Rc::new(Cell::new(0u32));
    let seen = ran.clone();
    let (rt, root): (Rc<Runtime<'static, ()>>, Rc<u8>) = bootstrap(
        || Rc::new(Runtime::new()),
        |rt: &Rc<Runtime<'static, ()>>| {
            assert_eq!(rt.count(), 0);
            Rc::new(3u8)
        },
        |rt: &Rc<Runtime<'static, ()>>, root: &Rc<u8>| {
            let weak = Rc::downgrade(root);
            rt.spawn(async move {
                if weak.upgrade().is_some() {
                    seen.set(seen.get() + 1);
                }
            });
        },
    );
    assert_eq!(rt.count(), 1);
    assert_eq!(Rc::strong_count(&root), 1);
    assert_eq!(Rc::weak_count(&root), 1);
    rt.poll_all();
    assert_eq!(ran.get(), 1);
    assert_eq!(rt.count(), 0);
    rt.poll_all();
    assert_eq!(ran.get(), 1);
}

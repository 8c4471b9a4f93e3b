use elertan_cheat_base::entrypoint::{EntrypointLifecycle, WorkerPhase};

#[test]
fn detach_runs_only_after_worker_observed_signal() {
    // The worker's post-signal continuation marker is set before detach
    // work can run, and still set when detach returns.
    let mut lifecycle = EntrypointLifecycle::new();
    lifecycle.on_load();
    lifecycle.worker_finish_attach(true);
    assert!(!lifecycle.worker_released());

    lifecycle.signal_unload();
    lifecycle.worker_observe_signal();
    assert!(lifecycle.worker_released());

    assert_eq!(lifecycle.run_detach(true), Ok(()));
    assert!(lifecycle.worker_released());
    assert!(lifecycle.detach_done());
}

#[test]
fn failed_attach_still_blocks_worker_for_unload() {
    // Even when attach fails, the worker blocks on the channel so the
    // unload signal has a listener and unload runs cleanly.
    let mut lifecycle = EntrypointLifecycle::new();
    lifecycle.on_load();
    lifecycle.worker_finish_attach(false);
    assert_eq!(lifecycle.worker, WorkerPhase::Blocked);
    assert_eq!(lifecycle.attach_ok, Some(false));

    lifecycle.signal_unload();
    lifecycle.worker_observe_signal();
    assert_eq!(lifecycle.run_detach(true), Ok(()));
    assert!(lifecycle.detach_done());
}

#[test]
fn failed_detach_is_surfaced_but_unload_proceeds() {
    let mut lifecycle = EntrypointLifecycle::new();
    lifecycle.on_load();
    lifecycle.worker_finish_attach(true);
    lifecycle.signal_unload();
    lifecycle.worker_observe_signal();
    assert_eq!(lifecycle.run_detach(false), Err(()));
    // The failure is reported, yet the detach work is recorded as done:
    // unload cannot be refused.
    assert!(lifecycle.detach_done());
}

#[test]
fn fresh_lifecycle_has_nothing_done() {
    let lifecycle = EntrypointLifecycle::new();
    assert_eq!(lifecycle.worker, WorkerPhase::NotSpawned);
    assert!(!lifecycle.signaled);
    assert!(!lifecycle.worker_released());
    assert!(!lifecycle.detach_done());
}

use sidecar_supervisor::store::HandleStore;
use sidecar_supervisor::supervisor::{
    finish_shutdown, ShutdownError, SpawnError, StartDecision, Supervisor,
};

#[test]
fn store_starts_empty_and_reports_it() {
    let store: HandleStore<u64> = HandleStore::new();
    assert!(store.try_acquire_if_empty());
}

#[test]
fn store_install_then_take_hands_the_handle_out_once() {
    let mut store: HandleStore<u64> = HandleStore::new();
    store.install(42);
    assert!(!store.try_acquire_if_empty());
    assert_eq!(store.take(), Some(42));
    assert_eq!(store.take(), None);
    assert!(store.try_acquire_if_empty());
}

#[test]
fn fresh_start_spawns_exactly_once() {
    // A test double counting spawn invocations: a spawn happens exactly when
    // the supervisor answers SpawnNeeded.
    let mut spawn_count = 0;
    let mut s: Supervisor<u64> = Supervisor::new();

    let d = s.begin_start();
    if d == StartDecision::SpawnNeeded {
        spawn_count += 1;
        assert_eq!(s.finish_start(Ok(7)), Ok(()));
    }

    // Two immediate further start requests: both succeed, neither spawns.
    for _ in 0..2 {
        let d = s.begin_start();
        assert_eq!(d, StartDecision::AlreadyRunning);
        if d == StartDecision::SpawnNeeded {
            spawn_count += 1;
        }
    }

    assert_eq!(spawn_count, 1);
    assert_eq!(s.take_for_shutdown(), Ok(7));
}

#[test]
fn start_while_spawn_in_flight_does_not_spawn_again() {
    let mut s: Supervisor<u64> = Supervisor::new();
    assert_eq!(s.begin_start(), StartDecision::SpawnNeeded);
    // Before the first spawn outcome is reported, a second start request
    // must not trigger another spawn.
    assert_eq!(s.begin_start(), StartDecision::AlreadyRunning);
    assert_eq!(s.finish_start(Ok(1)), Ok(()));
    assert_eq!(s.begin_start(), StartDecision::AlreadyRunning);
}

#[test]
fn start_shutdown_shutdown_is_ok_ok_not_running() {
    let mut s: Supervisor<u64> = Supervisor::new();

    // start()
    let started = match s.begin_start() {
        StartDecision::SpawnNeeded => s.finish_start(Ok(11)),
        StartDecision::AlreadyRunning => Ok(()),
    };
    assert_eq!(started, Ok(()));

    // shutdown() — the kill request succeeds.
    let first = match s.take_for_shutdown() {
        Ok(_handle) => finish_shutdown(Ok(())),
        Err(e) => Err(e),
    };
    assert_eq!(first, Ok(()));

    // shutdown() again — explicitly not running, not a silent success.
    let second = match s.take_for_shutdown() {
        Ok(_handle) => finish_shutdown(Ok(())),
        Err(e) => Err(e),
    };
    assert_eq!(second, Err(ShutdownError::NotRunning));
}

#[test]
fn spawn_failure_leaves_clean_state_and_next_start_retries() {
    let mut s: Supervisor<u64> = Supervisor::new();
    assert_eq!(s.begin_start(), StartDecision::SpawnNeeded);
    let r = s.finish_start(Err(SpawnError::LaunchFailed(13)));
    assert_eq!(r, Err(SpawnError::LaunchFailed(13)));
    // The store was never populated, so shutdown reports nothing running...
    assert_eq!(s.take_for_shutdown(), Err(ShutdownError::NotRunning));
    // ...and the next start attempts a fresh spawn.
    assert_eq!(s.begin_start(), StartDecision::SpawnNeeded);
    assert_eq!(s.finish_start(Ok(2)), Ok(()));
}

#[test]
fn resolution_failure_propagates_without_touching_the_store() {
    let mut s: Supervisor<u64> = Supervisor::new();
    assert_eq!(s.begin_start(), StartDecision::SpawnNeeded);
    let r = s.finish_start(Err(SpawnError::ResolutionFailed));
    assert_eq!(r, Err(SpawnError::ResolutionFailed));
    assert_eq!(s.take_for_shutdown(), Err(ShutdownError::NotRunning));
}

#[test]
fn failed_kill_still_counts_the_worker_as_gone() {
    let mut s: Supervisor<u64> = Supervisor::new();
    assert_eq!(s.begin_start(), StartDecision::SpawnNeeded);
    assert_eq!(s.finish_start(Ok(5)), Ok(()));

    let taken = s.take_for_shutdown();
    assert_eq!(taken, Ok(5));
    // The OS refuses the kill: the error surfaces with its code, but the
    // handle stays removed, so a fresh start may spawn again.
    assert_eq!(finish_shutdown(Err(3)), Err(ShutdownError::KillFailed(3)));
    assert_eq!(s.begin_start(), StartDecision::SpawnNeeded);
}

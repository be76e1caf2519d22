use functor_runtime::capsule::OpaqueState;
use functor_runtime::coordinator::{Event, FatalError, Outcome, Phase, ReloadCoordinator, Request};
use functor_runtime::host::{HostError, LoadError};

#[derive(Debug, PartialEq)]
struct Module {
    id: u32,
}

#[derive(Clone, Debug, PartialEq)]
struct GameState {
    counter: i64,
    history: Vec<i64>,
}

type Coordinator = ReloadCoordinator<Module, GameState>;

fn fresh() -> Coordinator {
    ReloadCoordinator::create("/build/libgame.so", 77, Module { id: 1 })
}

fn finished(r: Request<Module, GameState>) -> Outcome {
    match r {
        Request::Finished(o) => o,
        _ => panic!("expected the run to finish"),
    }
}

#[test]
fn full_reload_round_trips_state() {
    let mut c = fresh();
    let state = GameState { counter: 42, history: vec![3, -1, 4, 1, -5] };
    assert!(matches!(c.check_hot_reload(true), Request::Capture));
    assert_eq!(c.active().unwrap().id, 1);
    let old = match c.advance(Event::Captured(OpaqueState::new(state.clone()))) {
        Request::Unload(m) => m,
        _ => panic!("expected an unload"),
    };
    assert_eq!(old.id, 1);
    assert!(c.active().is_err());
    let name = match c.advance(Event::Unloaded) {
        Request::Stage(name) => name,
        _ => panic!("expected staging"),
    };
    assert_eq!(name, "libgame_77_1.so");
    let path = match c.advance(Event::Staged(format!("/tmp/x/{}", name))) {
        Request::Load(p) => p,
        _ => panic!("expected a load"),
    };
    assert_eq!(path, "/tmp/x/libgame_77_1.so");
    let capsule = match c.advance(Event::Loaded(Module { id: 2 })) {
        Request::Restore(capsule) => capsule,
        _ => panic!("expected a restore"),
    };
    let restored: GameState = OpaqueState::coerce(capsule);
    assert_eq!(restored, state);
    assert_eq!(restored.counter, 42);
    assert_eq!(restored.history, vec![3, -1, 4, 1, -5]);
    assert!(matches!(c.advance(Event::Restored), Request::BootstrapTick));
    assert_eq!(finished(c.advance(Event::Ticked)), Outcome::Reloaded);
    assert_eq!(c.current_phase(), Phase::Idle);
    assert_eq!(c.active().unwrap().id, 2);
    assert!(!c.holds_state());
}

#[test]
fn no_signal_does_nothing() {
    let mut c = fresh();
    assert_eq!(finished(c.check_hot_reload(false)), Outcome::NotTriggered);
    assert_eq!(c.current_phase(), Phase::Idle);
    assert_eq!(c.active().unwrap().id, 1);
}

#[test]
fn capture_failure_keeps_old_module() {
    let mut c = fresh();
    assert!(matches!(c.check_hot_reload(true), Request::Capture));
    assert_eq!(finished(c.advance(Event::CaptureFailed)), Outcome::CaptureAborted);
    assert_eq!(c.current_phase(), Phase::Idle);
    assert_eq!(c.active().unwrap().id, 1);
    assert!(!c.is_halted());
    assert!(matches!(c.check_hot_reload(true), Request::Capture));
}

#[test]
fn load_failure_leaves_no_active_module() {
    let mut c = fresh();
    c.check_hot_reload(true);
    c.advance(Event::Captured(OpaqueState::new(GameState { counter: 1, history: vec![] })));
    c.advance(Event::Unloaded);
    c.advance(Event::Staged(String::from("/tmp/y/lib.so")));
    assert_eq!(
        finished(c.advance(Event::LoadFailed(LoadError::MissingSymbol))),
        Outcome::Fatal(FatalError::LoadFailed(LoadError::MissingSymbol))
    );
    assert!(c.is_halted());
    assert_eq!(c.active().unwrap_err(), HostError::NoActiveModule);
    assert_eq!(c.host().active().unwrap_err(), HostError::NoActiveModule);
    assert_eq!(finished(c.check_hot_reload(true)), Outcome::Halted);
    assert_eq!(c.active().unwrap_err(), HostError::NoActiveModule);
}

#[test]
fn unload_failure_halts_reloading() {
    let mut c = fresh();
    c.check_hot_reload(true);
    c.advance(Event::Captured(OpaqueState::new(GameState { counter: 1, history: vec![] })));
    assert_eq!(
        finished(c.advance(Event::UnloadFailed)),
        Outcome::Fatal(FatalError::UnloadFailed)
    );
    assert!(c.is_halted());
    assert!(c.active().is_err());
    assert_eq!(finished(c.check_hot_reload(true)), Outcome::Halted);
}

#[test]
fn staging_failure_retries_on_next_signal() {
    let mut c = fresh();
    c.check_hot_reload(true);
    c.advance(Event::Captured(OpaqueState::new(GameState { counter: 9, history: vec![9] })));
    c.advance(Event::Unloaded);
    assert_eq!(finished(c.advance(Event::StagingFailed)), Outcome::StagingDeferred);
    assert!(!c.is_halted());
    assert!(c.holds_state());
    assert!(c.active().is_err());
    let name = match c.check_hot_reload(true) {
        Request::Stage(name) => name,
        _ => panic!("expected staging"),
    };
    assert_eq!(name, "libgame_77_2.so");
    c.advance(Event::Staged(name));
    let capsule = match c.advance(Event::Loaded(Module { id: 3 })) {
        Request::Restore(capsule) => capsule,
        _ => panic!("expected a restore"),
    };
    assert_eq!(OpaqueState::coerce(capsule), GameState { counter: 9, history: vec![9] });
    c.advance(Event::Restored);
    assert_eq!(finished(c.advance(Event::Ticked)), Outcome::Reloaded);
    assert_eq!(c.active().unwrap().id, 3);
}

#[test]
fn bootstrap_tick_failure_is_fatal() {
    let mut c = fresh();
    c.check_hot_reload(true);
    c.advance(Event::Captured(OpaqueState::new(GameState { counter: 0, history: vec![] })));
    c.advance(Event::Unloaded);
    c.advance(Event::Staged(String::from("p")));
    c.advance(Event::Loaded(Module { id: 2 }));
    c.advance(Event::Restored);
    assert_eq!(
        finished(c.advance(Event::TickFailed)),
        Outcome::Fatal(FatalError::BootstrapFailed)
    );
    assert!(c.active().is_err());
    assert!(c.is_halted());
}

#[test]
fn unexpected_event_changes_nothing() {
    let mut c = fresh();
    assert_eq!(finished(c.advance(Event::Ticked)), Outcome::Unexpected);
    assert_eq!(finished(c.advance(Event::Loaded(Module { id: 5 }))), Outcome::Unexpected);
    assert_eq!(c.current_phase(), Phase::Idle);
    assert_eq!(c.active().unwrap().id, 1);
    c.check_hot_reload(true);
    assert_eq!(finished(c.check_hot_reload(true)), Outcome::Unexpected);
    assert_eq!(c.current_phase(), Phase::Capturing);
}

#[test]
fn second_reload_uses_next_counter() {
    let mut c = fresh();
    for (round, id) in [(1u64, 2u32), (2, 3)] {
        c.check_hot_reload(true);
        c.advance(Event::Captured(OpaqueState::new(GameState { counter: round as i64, history: vec![] })));
        let name = match c.advance(Event::Unloaded) {
            Request::Stage(name) => name,
            _ => panic!("expected staging"),
        };
        assert_eq!(name, format!("libgame_77_{}.so", round));
        c.advance(Event::Staged(name));
        c.advance(Event::Loaded(Module { id }));
        c.advance(Event::Restored);
        assert_eq!(finished(c.advance(Event::Ticked)), Outcome::Reloaded);
        assert_eq!(c.active().unwrap().id, id);
    }
}

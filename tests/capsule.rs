use functor_runtime::capsule::OpaqueState;

#[derive(Clone, Debug, PartialEq)]
struct GameState {
    counter: i64,
    history: Vec<i64>,
}

#[test]
fn capsule_round_trips_a_struct() {
    let state = GameState { counter: -7, history: vec![1, 2, 3, i64::MAX, i64::MIN] };
    let capsule = OpaqueState::new(state.clone());
    let back: GameState = OpaqueState::coerce(capsule);
    assert_eq!(back, state);
}

#[test]
fn capsule_round_trips_nested_values() {
    let value = (Some(vec![String::from("a"), String::new()]), 3u8, vec![vec![1i32], vec![]]);
    let back = OpaqueState::coerce(OpaqueState::new(value.clone()));
    assert_eq!(back, value);
}

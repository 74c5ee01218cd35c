use tx_simulator::errors::SimulationError;
use tx_simulator::sessions::{simulate_stateful_end, SessionRegistry};
use tx_simulator::simulation::{StatefulSimulationEndResponse, StatefulSimulationResponse};

#[test]
fn new_registry_has_no_session() {
    let registry = SessionRegistry::new();
    assert_eq!(registry.acquire(0), Err(SimulationError::StateNotFound));
    assert_eq!(registry.acquire(7), Err(SimulationError::StateNotFound));
}

#[test]
fn begun_session_is_found_under_its_identifier() {
    let mut registry = SessionRegistry::new();
    let first = registry.begin(11).unwrap().stateful_simulation_id;
    let second = registry.begin(22).unwrap().stateful_simulation_id;
    assert_ne!(first, second);
    assert_eq!(registry.acquire(first), Ok(11));
    assert_eq!(registry.acquire(second), Ok(22));
}

#[test]
fn identifiers_are_random_uuids() {
    let mut registry = SessionRegistry::new();
    for handle in 0..32 {
        let id = registry.begin(handle).unwrap().stateful_simulation_id;
        assert_eq!((id >> 76) & 0xf, 4);
        assert_eq!((id >> 62) & 0x3, 2);
    }
}

#[test]
fn identifier_of_a_live_session_is_not_given_twice() {
    let mut registry = SessionRegistry::new();
    assert_eq!(registry.begin_with(5, 1), Some(StatefulSimulationResponse { stateful_simulation_id: 5 }));
    assert_eq!(registry.begin_with(5, 2), None);
    assert_eq!(registry.acquire(5), Ok(1));
    assert_eq!(registry.end(5), Ok(StatefulSimulationEndResponse { success: true }));
    assert_eq!(registry.begin_with(5, 2), Some(StatefulSimulationResponse { stateful_simulation_id: 5 }));
    assert_eq!(registry.acquire(5), Ok(2));
}

#[test]
fn ended_session_is_not_found_again() {
    let mut registry = SessionRegistry::new();
    registry.begin_with(5, 1);
    registry.begin_with(6, 2);
    assert_eq!(
        simulate_stateful_end(5, &mut registry),
        Ok(StatefulSimulationEndResponse { success: true })
    );
    assert_eq!(registry.acquire(5), Err(SimulationError::StateNotFound));
    assert_eq!(simulate_stateful_end(5, &mut registry), Err(SimulationError::StateNotFound));
    assert_eq!(registry.end(5), Err(SimulationError::StateNotFound));
    assert_eq!(registry.acquire(6), Ok(2));
}

#[test]
fn ending_an_unknown_session_changes_nothing() {
    let mut registry = SessionRegistry::new();
    registry.begin_with(1, 10);
    assert_eq!(registry.end(2), Err(SimulationError::StateNotFound));
    assert_eq!(registry.acquire(1), Ok(10));
}

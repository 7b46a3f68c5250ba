use rust_flight_framework::{
    ApplicationId, ApplicationState, LifecycleError, LifecycleOperation, LifecycleRegistry,
    RegistrationError, RegistryCreateError,
};

const STATES: [ApplicationState; 4] = [
    ApplicationState::Registered,
    ApplicationState::Running,
    ApplicationState::Stopped,
    ApplicationState::Failed,
];
const OPERATIONS: [LifecycleOperation; 3] = [
    LifecycleOperation::Start,
    LifecycleOperation::Stop,
    LifecycleOperation::Restart,
];

#[test]
fn registry_enforces_every_state_operation_pair() {
    let expected = [
        Some(ApplicationState::Running),
        None,
        None,
        None,
        Some(ApplicationState::Stopped),
        None,
        None,
        None,
        Some(ApplicationState::Running),
        None,
        None,
        None,
    ];

    for ((state, operation), expected_state) in STATES
        .into_iter()
        .flat_map(|state| {
            OPERATIONS
                .into_iter()
                .map(move |operation| (state, operation))
        })
        .zip(expected)
    {
        let mut registry =
            LifecycleRegistry::from_states(1, &[state]).expect("test capacity is valid");
        let application_id = ApplicationId(0);

        let result = match operation {
            LifecycleOperation::Start => registry.start(application_id),
            LifecycleOperation::Stop => registry.stop(application_id),
            LifecycleOperation::Restart => registry.restart(application_id),
        };

        match expected_state {
            Some(next) => {
                assert_eq!(result, Ok(next));
                assert_eq!(registry.state(application_id), Ok(next));
            }
            None => {
                assert_eq!(
                    result,
                    Err(LifecycleError::InvalidTransition {
                        application_id,
                        state,
                        operation,
                    })
                );
                assert_eq!(registry.state(application_id), Ok(state));
            }
        }
    }
}

#[test]
fn unknown_identity_is_rejected_without_mutating_existing_records() {
    let mut registry = LifecycleRegistry::new(1).expect("test capacity is valid");
    let known_id = registry.register().expect("test record fits");
    let unknown_id = ApplicationId(1);

    assert_eq!(
        registry.start(unknown_id),
        Err(LifecycleError::UnknownApplication {
            application_id: unknown_id,
        })
    );
    assert_eq!(registry.state(known_id), Ok(ApplicationState::Registered));
}

#[test]
fn oversized_registry_capacity_returns_exact_reservation_error() {
    assert_eq!(
        LifecycleRegistry::new(usize::MAX)
            .expect_err("an impossible record capacity must be rejected"),
        RegistryCreateError::CapacityAllocationFailed {
            requested: usize::MAX,
        }
    );
}

#[test]
fn configured_capacity_bounds_registration_without_mutating_existing_records() {
    assert_eq!(
        LifecycleRegistry::new(0).expect_err("zero capacity is invalid"),
        RegistryCreateError::ZeroCapacity
    );

    let mut registry = LifecycleRegistry::new(2).expect("small capacity can be reserved");
    let first = registry.register().expect("first record fits");
    let second = registry.register().expect("second record fits");

    assert_ne!(first, second);
    assert_eq!(registry.capacity(), 2);
    assert_eq!(registry.len(), 2);
    assert_eq!(
        registry.register(),
        Err(RegistrationError::RegistryFull { capacity: 2 })
    );
    assert_eq!(registry.len(), 2);
    assert_eq!(registry.state(first), Ok(ApplicationState::Registered));
    assert_eq!(registry.state(second), Ok(ApplicationState::Registered));
}

#[test]
fn approved_lc1_sequence_preserves_identity_and_registry_bound() {
    let mut registry = LifecycleRegistry::new(1).expect("test capacity is valid");
    let application_id = registry.register().expect("test record fits");

    assert_eq!(
        registry.start(application_id),
        Ok(ApplicationState::Running)
    );
    assert_eq!(registry.stop(application_id), Ok(ApplicationState::Stopped));
    assert_eq!(
        registry.restart(application_id),
        Ok(ApplicationState::Running)
    );

    assert_eq!(
        registry.state(application_id),
        Ok(ApplicationState::Running)
    );
    assert_eq!(registry.len(), 1);
    assert_eq!(registry.capacity(), 1);
}

#[test]
fn invalid_transition_is_typed_and_leaves_state_unchanged() {
    let mut registry = LifecycleRegistry::new(1).expect("test capacity is valid");
    let application_id = registry.register().expect("test record fits");

    assert_eq!(
        registry.restart(application_id),
        Err(LifecycleError::InvalidTransition {
            application_id,
            state: ApplicationState::Registered,
            operation: LifecycleOperation::Restart,
        })
    );
    assert_eq!(
        registry.state(application_id),
        Ok(ApplicationState::Registered)
    );
}

#[test]
fn two_lifecycle_records_transition_independently() {
    let mut registry = LifecycleRegistry::new(2).expect("test capacity is valid");
    let first = registry.register().expect("first record fits");
    let second = registry.register().expect("second record fits");

    registry.start(first).expect("first starts");
    registry.start(second).expect("second starts");
    registry.stop(first).expect("first stops");
    registry.restart(first).expect("first restarts");

    assert_eq!(registry.state(first), Ok(ApplicationState::Running));
    assert_eq!(registry.state(second), Ok(ApplicationState::Running));

    assert_eq!(
        registry.restart(second),
        Err(LifecycleError::InvalidTransition {
            application_id: second,
            state: ApplicationState::Running,
            operation: LifecycleOperation::Restart,
        })
    );
    assert_eq!(registry.state(first), Ok(ApplicationState::Running));
    assert_eq!(registry.state(second), Ok(ApplicationState::Running));
}

#[test]
fn failed_record_is_terminal_for_every_operation() {
    let mut registry = LifecycleRegistry::from_states(1, &[ApplicationState::Failed])
        .expect("test capacity is valid");
    let application_id = ApplicationId(0);

    for operation in OPERATIONS {
        let result = match operation {
            LifecycleOperation::Start => registry.start(application_id),
            LifecycleOperation::Stop => registry.stop(application_id),
            LifecycleOperation::Restart => registry.restart(application_id),
        };
        assert_eq!(
            result,
            Err(LifecycleError::InvalidTransition {
                application_id,
                state: ApplicationState::Failed,
                operation,
            })
        );
    }
    assert_eq!(registry.state(application_id), Ok(ApplicationState::Failed));
    assert!(!registry.is_empty());
}

#[test]
fn lifecycle_error_messages_name_identity_state_and_operation() {
    assert_eq!(
        LifecycleError::UnknownApplication {
            application_id: ApplicationId(12),
        }
        .message(),
        "application ApplicationId(12) is not registered"
    );
    assert_eq!(
        LifecycleError::NotRunning {
            application_id: ApplicationId(0),
            state: ApplicationState::Stopped,
        }
        .message(),
        "application ApplicationId(0) cannot perform work while Stopped"
    );
    assert_eq!(
        LifecycleError::InvalidTransition {
            application_id: ApplicationId(3),
            state: ApplicationState::Failed,
            operation: LifecycleOperation::Restart,
        }
        .message(),
        "application ApplicationId(3) cannot perform Restart while Failed"
    );
    assert_eq!(
        rust_flight_framework::RegistryCreateError::CapacityAllocationFailed { requested: 40 }
            .message(),
        "could not reserve lifecycle storage for 40 applications"
    );
    assert_eq!(
        rust_flight_framework::RegistryCreateError::ZeroCapacity.message(),
        "application capacity must be positive"
    );
    assert_eq!(
        rust_flight_framework::RegistrationError::RegistryFull { capacity: 2 }.message(),
        "application registry is full at capacity 2"
    );
}

//! Bounded, validated configuration replacement and consume-once rollback.

use std::cell::Cell;
use std::fmt;
use std::rc::Rc;

use rust_flight_framework::{ConfigurationError, ConfigurationTable};

type Validator<E> = fn(&[u8]) -> Result<(), E>;

#[derive(Clone, Copy, Debug, Eq, PartialEq)]
enum MissionValidationError {
    InvalidLength(usize),
    UnknownMode(u8),
    InvalidPeriod(u8),
}

impl fmt::Display for MissionValidationError {
    fn fmt(&self, formatter: &mut fmt::Formatter<'_>) -> fmt::Result {
        match self {
            Self::InvalidLength(length) => {
                formatter.write_str(&format!("expected two bytes, got {length}"))
            }
            Self::UnknownMode(mode) => formatter.write_str(&format!("unknown mission mode {mode}")),
            Self::InvalidPeriod(period) => {
                formatter.write_str(&format!("invalid sample period {period}"))
            }
        }
    }
}

// A mode byte followed by a period in simulated seconds.
fn validate_mission(bytes: &[u8]) -> Result<(), MissionValidationError> {
    let [mode, period] = bytes else {
        return Err(MissionValidationError::InvalidLength(bytes.len()));
    };
    if *mode > 1 {
        return Err(MissionValidationError::UnknownMode(*mode));
    }
    if !(1..=10).contains(period) {
        return Err(MissionValidationError::InvalidPeriod(*period));
    }
    Ok(())
}

type MissionTable = ConfigurationTable<MissionValidationError, 2, Validator<MissionValidationError>>;

fn mission_table(initial: &[u8]) -> MissionTable {
    ConfigurationTable::new(initial, validate_mission as Validator<MissionValidationError>)
        .expect("initial configuration is valid")
}

#[test]
fn oversize_replacement_and_rollback_do_not_invoke_validator() {
    let armed = Rc::new(Cell::new(false));
    let guard = Rc::clone(&armed);
    let mut table = ConfigurationTable::<(), 1, _>::new(&[1], move |_: &[u8]| {
        if guard.get() {
            panic!("validation must not run on this path");
        }
        Ok(())
    })
    .unwrap();
    table.replace(&[2]).unwrap();
    armed.set(true);

    assert_eq!(
        table.replace(&[3, 4]),
        Err(ConfigurationError::TooLarge {
            length: 2,
            maximum: 1,
        })
    );
    assert_eq!(table.active().bytes(), &[2]);
    assert_eq!(table.highest_revision(), 2);
    assert_eq!(table.rollback(), Ok(1));
    assert_eq!(table.active().bytes(), &[1]);
    assert_eq!(
        table.rollback(),
        Err(ConfigurationError::NoRollbackAvailable)
    );
    assert_eq!(table.highest_revision(), 2);
}

#[test]
fn final_revision_and_exhaustion_preserve_snapshots_and_high_water() {
    // Reach the boundary by restoring a recorded revision history.
    let mut table = ConfigurationTable::<(), 1, Validator<()>>::restore(
        &[1],
        u64::MAX - 1,
        u64::MAX - 1,
        |_| Ok(()),
    )
    .unwrap();
    assert_eq!(table.replace(&[2]), Ok(u64::MAX));
    let active = table.active().clone();
    let rollback = table.rollback_snapshot().cloned();

    assert_eq!(
        table.replace(&[3]),
        Err(ConfigurationError::RevisionExhausted)
    );
    assert_eq!(*table.active(), active);
    assert_eq!(table.rollback_snapshot().cloned(), rollback);
    assert_eq!(table.highest_revision(), u64::MAX);

    assert_eq!(table.rollback(), Ok(u64::MAX - 1));
    assert_eq!(table.active().bytes(), &[1]);
    assert_eq!(
        table.replace(&[4]),
        Err(ConfigurationError::RevisionExhausted)
    );
    assert_eq!(table.active().revision(), u64::MAX - 1);
    assert_eq!(table.active().bytes(), &[1]);
    assert!(table.rollback_snapshot().is_none());
    assert_eq!(table.highest_revision(), u64::MAX);
    assert_eq!(
        table.rollback(),
        Err(ConfigurationError::NoRollbackAvailable)
    );
}

#[test]
fn validation_precedes_exhaustion_without_changing_retained_state() {
    let mut table =
        ConfigurationTable::<u8, 1, Validator<u8>>::restore(&[1], 1, u64::MAX - 1, |bytes| {
            match bytes {
                [0] => Err(7),
                _ => Ok(()),
            }
        })
        .unwrap();
    table.replace(&[2]).unwrap();
    let active = table.active().clone();
    let rollback = table.rollback_snapshot().cloned();

    assert_eq!(
        table.replace(&[0, 0]),
        Err(ConfigurationError::TooLarge {
            length: 2,
            maximum: 1,
        })
    );
    assert_eq!(table.replace(&[0]), Err(ConfigurationError::Rejected(7)));
    assert_eq!(*table.active(), active);
    assert_eq!(table.rollback_snapshot().cloned(), rollback);
    assert_eq!(table.highest_revision(), u64::MAX);
    assert_eq!(table.rollback(), Ok(1));
}

#[test]
fn initial_configuration_is_validated_and_has_no_rollback_history() {
    let mut table = mission_table(&[0, 1]);

    assert_eq!(table.active().bytes(), &[0, 1]);
    assert_eq!(table.active().revision(), 1);
    assert_eq!(
        table.rollback(),
        Err(ConfigurationError::NoRollbackAvailable)
    );
    assert_eq!(table.active().bytes(), &[0, 1]);
    assert_eq!(table.active().revision(), 1);

    assert_eq!(
        MissionTable::new(&[0, 0], validate_mission)
            .expect_err("the initial configuration must pass mission validation"),
        ConfigurationError::Rejected(MissionValidationError::InvalidPeriod(0))
    );
}

#[test]
fn oversized_initial_configuration_is_rejected_before_validation() {
    let result = MissionTable::new(&[0, 1, 2], |_| {
        panic!("the validator must not see an oversized initial configuration")
    });

    assert_eq!(
        result.expect_err("three bytes exceed a two-byte bound"),
        ConfigurationError::TooLarge {
            length: 3,
            maximum: 2,
        }
    );
}

#[test]
fn oversized_replacement_is_rejected_before_validation() {
    let mut table = MissionTable::new(&[0, 1], |bytes| {
        assert_eq!(bytes, &[0, 1], "only the initial bytes reach validation");
        Ok(())
    })
    .expect("the initial bytes fit");
    let before = table.active().clone();

    assert_eq!(
        table.replace(&[1, 2, 3]),
        Err(ConfigurationError::TooLarge {
            length: 3,
            maximum: 2,
        })
    );
    assert_eq!(table.active(), &before);
    assert_eq!(
        table.rollback(),
        Err(ConfigurationError::NoRollbackAvailable)
    );
}

#[test]
fn exact_bound_is_accepted_and_shorter_snapshots_expose_only_used_bytes() {
    let mut table = ConfigurationTable::<MissionValidationError, 4, Validator<_>>::new(
        &[0, 1, 2, 3],
        |_| Ok(()),
    )
    .expect("exactly four bytes fit");

    assert_eq!(table.active().bytes(), &[0, 1, 2, 3]);
    assert_eq!(table.replace(&[4]), Ok(2));
    assert_eq!(table.active().bytes(), &[4]);
    assert_eq!(table.rollback(), Ok(1));
    assert_eq!(table.active().bytes(), &[0, 1, 2, 3]);
}

#[test]
fn zero_capacity_accepts_valid_empty_content_and_rejects_nonempty_content() {
    let mut table = ConfigurationTable::<MissionValidationError, 0, Validator<_>>::new(&[], |bytes| {
        assert!(bytes.is_empty(), "nonempty bytes must fail the bound first");
        Ok(())
    })
    .expect("an empty configuration can fit a zero-byte bound");

    assert_eq!(table.active().bytes(), &[]);
    assert_eq!(table.active().revision(), 1);
    assert_eq!(table.replace(&[]), Ok(2));
    assert_eq!(
        table.replace(&[0]),
        Err(ConfigurationError::TooLarge {
            length: 1,
            maximum: 0,
        })
    );
    assert_eq!(table.active().bytes(), &[]);
    assert_eq!(table.active().revision(), 2);
    assert_eq!(table.rollback(), Ok(1));
}

#[test]
fn initial_and_replacement_bytes_are_owned_copies() {
    let mut initial = [0, 1];
    let mut table = mission_table(&initial);
    initial.fill(255);

    assert_eq!(initial, [255, 255]);
    assert_eq!(table.active().bytes(), &[0, 1]);

    let mut replacement = [1, 2];
    assert_eq!(table.replace(&replacement), Ok(2));
    replacement.fill(255);

    assert_eq!(replacement, [255, 255]);
    assert_eq!(table.active().bytes(), &[1, 2]);
    assert_eq!(table.rollback(), Ok(1));
    assert_eq!(table.active().bytes(), &[0, 1]);
}

#[test]
fn cloned_snapshot_retains_its_bytes_and_revision_after_replacement() {
    let mut table = mission_table(&[0, 1]);
    let initial = table.active().clone();

    assert_eq!(table.replace(&[1, 2]), Ok(2));
    assert_eq!(initial.bytes(), &[0, 1]);
    assert_eq!(initial.revision(), 1);
    assert_ne!(table.active(), &initial);
    assert_eq!(table.rollback(), Ok(1));
    assert_eq!(table.active(), &initial);
}

#[test]
fn rejected_replacements_preserve_active_history_and_revision_allocation() {
    let mut table = mission_table(&[0, 1]);
    assert_eq!(table.replace(&[1, 2]), Ok(2));
    let before = table.active().clone();
    let invalid: &[(&[u8], ConfigurationError<MissionValidationError>)] = &[
        (
            &[2, 2],
            ConfigurationError::Rejected(MissionValidationError::UnknownMode(2)),
        ),
        (
            &[1, 0],
            ConfigurationError::Rejected(MissionValidationError::InvalidPeriod(0)),
        ),
        (
            &[1],
            ConfigurationError::Rejected(MissionValidationError::InvalidLength(1)),
        ),
        (
            &[0, 1, 2],
            ConfigurationError::TooLarge {
                length: 3,
                maximum: 2,
            },
        ),
    ];

    for (bytes, expected_error) in invalid {
        let actual = table.replace(bytes).expect_err("candidate is invalid");
        assert_eq!(&actual, expected_error);
        assert_eq!(table.active(), &before);
    }

    assert_eq!(table.rollback(), Ok(1));
    assert_eq!(table.active().bytes(), &[0, 1]);
    assert_eq!(table.replace(&[1, 3]), Ok(3));
    assert_eq!(table.active().bytes(), &[1, 3]);
}

#[test]
fn equal_content_replacements_still_allocate_distinct_revisions() {
    let mut table = mission_table(&[0, 1]);

    for revision in 2..=4 {
        assert_eq!(table.replace(&[0, 1]), Ok(revision));
        assert_eq!(table.active().bytes(), &[0, 1]);
        assert_eq!(table.active().revision(), revision);
    }

    assert_eq!(table.rollback(), Ok(3));
    assert_eq!(table.active().bytes(), &[0, 1]);
    assert_eq!(table.active().revision(), 3);
    assert_eq!(table.replace(&[0, 1]), Ok(5));
}

#[test]
fn rollback_is_consumed_once_and_does_not_reuse_issued_revisions() {
    let mut table = mission_table(&[0, 1]);
    assert_eq!(table.replace(&[1, 2]), Ok(2));

    assert_eq!(table.rollback(), Ok(1));
    assert_eq!(table.active().bytes(), &[0, 1]);
    assert_eq!(table.active().revision(), 1);
    assert_eq!(
        table.rollback(),
        Err(ConfigurationError::NoRollbackAvailable)
    );
    assert_eq!(table.active().bytes(), &[0, 1]);
    assert_eq!(table.active().revision(), 1);

    assert_eq!(table.replace(&[1, 3]), Ok(3));
    assert_eq!(table.active().bytes(), &[1, 3]);
    assert_eq!(table.active().revision(), 3);
    assert_eq!(table.rollback(), Ok(1));
    assert_eq!(table.active().bytes(), &[0, 1]);
}

#[test]
fn each_replacement_retains_only_the_immediately_previous_active_snapshot() {
    let mut table = mission_table(&[0, 1]);
    assert_eq!(table.replace(&[1, 2]), Ok(2));
    assert_eq!(table.replace(&[0, 3]), Ok(3));

    assert_eq!(table.rollback(), Ok(2));
    assert_eq!(table.active().bytes(), &[1, 2]);
    assert_eq!(table.active().revision(), 2);
    assert_eq!(
        table.rollback(),
        Err(ConfigurationError::NoRollbackAvailable)
    );
    assert_eq!(table.active().bytes(), &[1, 2]);

    assert_eq!(table.replace(&[1, 4]), Ok(4));
    assert_eq!(table.rollback(), Ok(2));
    assert_eq!(table.active().bytes(), &[1, 2]);
}

#[test]
fn rejected_error_preserves_concrete_mission_error_as_its_source() {
    let mut table = mission_table(&[0, 1]);
    let error = table
        .replace(&[7, 1])
        .expect_err("an unknown mission mode is rejected");

    assert_eq!(
        error,
        ConfigurationError::Rejected(MissionValidationError::UnknownMode(7))
    );
    match &error {
        ConfigurationError::Rejected(source) => {
            assert_eq!(*source, MissionValidationError::UnknownMode(7));
        }
        _ => panic!("the mission error must be carried unchanged"),
    }
    assert!(!error.message().is_empty());

    for structural in [
        ConfigurationError::<MissionValidationError>::TooLarge {
            length: 3,
            maximum: 2,
        },
        ConfigurationError::RevisionExhausted,
        ConfigurationError::NoRollbackAvailable,
    ] {
        assert!(!matches!(structural, ConfigurationError::Rejected(_)));
        assert!(!structural.message().is_empty());
    }
}

#[test]
fn validator_runs_once_per_bounded_candidate() {
    let calls = Rc::new(Cell::new(0));
    let counter = Rc::clone(&calls);
    let mut table = ConfigurationTable::<(), 2, _>::new(&[0], move |_: &[u8]| {
        counter.set(counter.get() + 1);
        Ok(())
    })
    .expect("one byte fits");
    assert_eq!(calls.get(), 1);
    assert_eq!(table.replace(&[1, 2]), Ok(2));
    assert_eq!(calls.get(), 2);
    assert_eq!(
        table.replace(&[1, 2, 3]),
        Err(ConfigurationError::TooLarge {
            length: 3,
            maximum: 2,
        })
    );
    assert_eq!(calls.get(), 2);
    assert_eq!(table.rollback(), Ok(1));
    assert_eq!(calls.get(), 2);
    assert_eq!(table.highest_revision(), 2);
}

#[test]
fn error_messages_match_their_variants() {
    assert_eq!(
        ConfigurationError::<MissionValidationError>::TooLarge {
            length: 3,
            maximum: 2,
        }
        .message(),
        "configuration length 3 exceeds maximum 2 bytes"
    );
    assert_eq!(
        ConfigurationError::<MissionValidationError>::TooLarge {
            length: 1234567,
            maximum: 10,
        }
        .message(),
        "configuration length 1234567 exceeds maximum 10 bytes"
    );
    assert_eq!(
        ConfigurationError::Rejected(MissionValidationError::UnknownMode(7)).message(),
        "configuration validation rejected: unknown mission mode 7"
    );
    assert_eq!(
        ConfigurationError::<MissionValidationError>::RevisionExhausted.message(),
        "configuration revisions exhausted"
    );
    assert_eq!(
        ConfigurationError::<MissionValidationError>::NoRollbackAvailable.message(),
        "no configuration rollback available"
    );
}

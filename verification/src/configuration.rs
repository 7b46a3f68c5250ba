//! Bounded immutable configuration snapshots and consume-once rollback.
//!
//! One retained validator checks bytes before initial acceptance and before
//! every replacement. The table keeps an active snapshot, at most one
//! rollback snapshot, and a revision high-water mark that never decreases.
use std::marker::PhantomData;
use vstd::prelude::*;
use vstd::string::StringExecFns;

use crate::text::{append_decimal, decimal_text};

verus! {

/// One accepted immutable configuration value and its table-local revision.
///
/// A revision identifies an acceptance, starting at one per table; equal
/// revisions from different tables can alias.
#[derive(Clone, Debug, PartialEq, Eq)]
pub struct ConfigurationSnapshot<const MAX_BYTES: usize> {
    bytes: Vec<u8>,
    revision: u64,
}

impl<const MAX_BYTES: usize> View for ConfigurationSnapshot<MAX_BYTES> {
    type V = (Seq<u8>, u64);

    closed spec fn view(&self) -> (Seq<u8>, u64) {
        (self.bytes@, self.revision)
    }
}

impl<const MAX_BYTES: usize> ConfigurationSnapshot<MAX_BYTES> {
    /// Borrows the accepted content.
    pub fn bytes(&self) -> (bytes: &[u8])
        ensures
            bytes@ == self@.0,
    {
        self.bytes.as_slice()
    }

    /// Returns the revision assigned when this snapshot was accepted.
    pub fn revision(&self) -> (revision: u64)
        ensures
            revision == self@.1,
    {
        self.revision
    }
}

/// A rejected configuration operation; retained table state is unchanged.
#[derive(Debug, PartialEq, Eq, Structural)]
pub enum ConfigurationError<E> {
    /// The candidate exceeded the byte bound; validation was not called.
    TooLarge {
        /// Number of bytes supplied by the caller.
        length: usize,
        /// Maximum bytes in each snapshot.
        maximum: usize,
    },
    /// The retained mission validator rejected the candidate.
    Rejected(E),
    /// Every representable nonzero revision has already been assigned.
    RevisionExhausted,
    /// No accepted previous snapshot remains to restore.
    NoRollbackAvailable,
}

/// The text describing a configuration error other than a validator
/// rejection.
pub open spec fn structural_error_text<E>(error: ConfigurationError<E>) -> Seq<char> {
    match error {
        ConfigurationError::TooLarge { length, maximum } => "configuration length "@ + decimal_text(
            length as nat,
        ) + " exceeds maximum "@ + decimal_text(maximum as nat) + " bytes"@,
        ConfigurationError::Rejected(_) => "configuration validation rejected: "@,
        ConfigurationError::RevisionExhausted => "configuration revisions exhausted"@,
        ConfigurationError::NoRollbackAvailable => "no configuration rollback available"@,
    }
}

impl<E: core::fmt::Display> ConfigurationError<E> {
    /// Returns the human-readable description of the error; a rejection
    /// includes the validator's own description of its error.
    pub fn message(&self) -> (text: String)
        ensures
            !(self is Rejected) ==> text@ == structural_error_text(*self),
            self matches ConfigurationError::Rejected(error) ==> exists|shown: String|
                #[trigger] vstd::string::to_string_from_display_ensures::<E>(&error, shown)
                    && text@ == "configuration validation rejected: "@ + shown@,
    {
        match self {
            ConfigurationError::TooLarge { length, maximum } => {
                let mut text = String::new();
                text.append("configuration length ");
                append_decimal(&mut text, *length);
                text.append(" exceeds maximum ");
                append_decimal(&mut text, *maximum);
                text.append(" bytes");
                proof {
                    assert(text@ =~= structural_error_text(*self));
                }
                text
            },
            ConfigurationError::Rejected(error) => {
                let shown = error.to_string();
                let mut text = String::new();
                text.append("configuration validation rejected: ");
                text.append(shown.as_str());
                proof {
                    assert(text@ =~= "configuration validation rejected: "@ + shown@);
                }
                text
            },
            ConfigurationError::RevisionExhausted => "configuration revisions exhausted".to_owned(),
            ConfigurationError::NoRollbackAvailable => "no configuration rollback available".to_owned(),
        }
    }
}

/// The retained state of a table: active snapshot, optional rollback
/// snapshot, and revision high-water mark.
pub type ConfigurationHistory = ((Seq<u8>, u64), Option<(Seq<u8>, u64)>, u64);

/// The history after accepting `candidate` into `history`: the candidate
/// becomes active at the next revision, and the former active snapshot
/// replaces the sole rollback slot.
pub open spec fn history_after_replace(history: ConfigurationHistory, candidate: Seq<u8>) -> ConfigurationHistory {
    ((candidate, (history.2 + 1) as u64), Some(history.0), (history.2 + 1) as u64)
}

/// The history after restoring the rollback snapshot of `history`.
pub open spec fn history_after_rollback(history: ConfigurationHistory) -> ConfigurationHistory {
    (history.1->Some_0, None, history.2)
}

/// A standalone bounded configuration value with one rollback slot.
///
/// The same validator checks initial and replacement bytes; the table relies
/// on it for nothing but its verdict.
#[derive(Debug)]
pub struct ConfigurationTable<E, const MAX_BYTES: usize, V> {
    active: ConfigurationSnapshot<MAX_BYTES>,
    rollback: Option<ConfigurationSnapshot<MAX_BYTES>>,
    highest_revision: u64,
    validate: V,
    rejection: PhantomData<E>,
}

/// The view of an optional snapshot.
pub open spec fn snapshot_option_view<const MAX_BYTES: usize>(
    snapshot: Option<ConfigurationSnapshot<MAX_BYTES>>,
) -> Option<(Seq<u8>, u64)> {
    match snapshot {
        Some(s) => Some(s@),
        None => None,
    }
}

impl<E, const MAX_BYTES: usize, V> View for ConfigurationTable<E, MAX_BYTES, V> {
    type V = ConfigurationHistory;

    closed spec fn view(&self) -> ConfigurationHistory {
        (self.active@, snapshot_option_view(self.rollback), self.highest_revision)
    }
}

/// The table's retained-state invariant: snapshots fit the byte bound, the
/// active revision is positive and at most the high-water mark, and a
/// retained rollback snapshot is older than the active one.
pub open spec fn history_wf(history: ConfigurationHistory, max_bytes: usize) -> bool {
    &&& history.0.0.len() <= max_bytes
    &&& 1 <= history.0.1 <= history.2
    &&& history.1 matches Some(previous) ==> {
        &&& previous.0.len() <= max_bytes
        &&& 1 <= previous.1 < history.0.1
    }
}

impl<E, const MAX_BYTES: usize, V> ConfigurationTable<E, MAX_BYTES, V> {
    /// The table's retained-state invariant.
    pub open spec fn wf(&self) -> bool {
        history_wf(self@, MAX_BYTES)
    }

    /// The retained mission validator.
    pub closed spec fn validator(&self) -> V {
        self.validate
    }

    /// Borrows the active immutable snapshot.
    pub fn active(&self) -> (active: &ConfigurationSnapshot<MAX_BYTES>)
        ensures
            active@ == self@.0,
    {
        &self.active
    }

    /// Borrows the snapshot that a rollback would restore, if any.
    pub fn rollback_snapshot(&self) -> (rollback: Option<&ConfigurationSnapshot<MAX_BYTES>>)
        ensures
            rollback matches Some(snapshot) ==> self@.1 == Some(snapshot@),
            rollback is None ==> self@.1 is None,
    {
        match &self.rollback {
            Some(snapshot) => Some(snapshot),
            None => None,
        }
    }

    /// Returns the highest revision this table has assigned.
    pub fn highest_revision(&self) -> (highest: u64)
        ensures
            highest == self@.2,
    {
        self.highest_revision
    }
}

impl<E, const MAX_BYTES: usize, V> ConfigurationTable<E, MAX_BYTES, V> {
    /// Validates and copies the initial value, accepting it at revision one.
    ///
    /// Oversized input is rejected before the validator runs; a validator
    /// rejection returns its exact error. No rollback snapshot exists initially.
    pub fn new(initial: &[u8], validate: V) -> (result: Result<Self, ConfigurationError<E>>) where
        V: Fn(&[u8]) -> Result<(), E>,

        requires
            forall|bytes: &[u8]| #[trigger] validate.requires((bytes,)),
        ensures
            initial@.len() > MAX_BYTES <==> result matches Err(
                ConfigurationError::TooLarge { .. },
            ),
            result matches Err(ConfigurationError::TooLarge { length, maximum }) ==> {
                &&& length == initial@.len()
                &&& maximum == MAX_BYTES
            },
            result matches Ok(table) ==> {
                &&& table@ == ((initial@, 1u64), None::<(Seq<u8>, u64)>, 1u64)
                &&& table.wf()
                &&& table.validator() == validate
                &&& validate.ensures((initial,), Ok::<(), E>(()))
            },
            result matches Err(ConfigurationError::Rejected(error)) ==> validate.ensures(
                (initial,),
                Err::<(), E>(error),
            ),
            !(result matches Err(ConfigurationError::RevisionExhausted)),
            !(result matches Err(ConfigurationError::NoRollbackAvailable)),
    {
        if initial.len() > MAX_BYTES {
            return Err(ConfigurationError::TooLarge { length: initial.len(), maximum: MAX_BYTES });
        }
        let bytes = crate::storage::copy_bytes(initial);
        let verdict = validate(initial);
        match verdict {
            Err(error) => Err(ConfigurationError::Rejected(error)),
            Ok(()) => {
                assert(verdict->Ok_0 == ());
                let active = ConfigurationSnapshot { bytes, revision: 1 };
                Ok(
                    ConfigurationTable {
                        active,
                        rollback: None,
                        highest_revision: 1,
                        validate,
                        rejection: PhantomData,
                    },
                )
            },
        }
    }

    /// Validates and copies a value to restore as active at a recorded
    /// revision, under a recorded revision high-water mark.
    ///
    /// Checks run as for [`ConfigurationTable::new`]; the restored table has
    /// no rollback snapshot and never reissues a revision up to the mark.
    pub fn restore(
        active: &[u8],
        active_revision: u64,
        highest_revision: u64,
        validate: V,
    ) -> (result: Result<Self, ConfigurationError<E>>) where V: Fn(&[u8]) -> Result<(), E>,

        requires
            1 <= active_revision <= highest_revision,
            forall|bytes: &[u8]| #[trigger] validate.requires((bytes,)),
        ensures
            active@.len() > MAX_BYTES <==> result matches Err(
                ConfigurationError::TooLarge { .. },
            ),
            result matches Err(ConfigurationError::TooLarge { length, maximum }) ==> {
                &&& length == active@.len()
                &&& maximum == MAX_BYTES
            },
            result matches Ok(table) ==> {
                &&& table@ == ((active@, active_revision), None::<(Seq<u8>, u64)>, highest_revision)
                &&& table.wf()
                &&& table.validator() == validate
                &&& validate.ensures((active,), Ok::<(), E>(()))
            },
            result matches Err(ConfigurationError::Rejected(error)) ==> validate.ensures(
                (active,),
                Err::<(), E>(error),
            ),
            !(result matches Err(ConfigurationError::RevisionExhausted)),
            !(result matches Err(ConfigurationError::NoRollbackAvailable)),
    {
        if active.len() > MAX_BYTES {
            return Err(ConfigurationError::TooLarge { length: active.len(), maximum: MAX_BYTES });
        }
        let bytes = crate::storage::copy_bytes(active);
        let verdict = validate(active);
        match verdict {
            Err(error) => Err(ConfigurationError::Rejected(error)),
            Ok(()) => {
                assert(verdict->Ok_0 == ());
                let active = ConfigurationSnapshot { bytes, revision: active_revision };
                Ok(
                    ConfigurationTable {
                        active,
                        rollback: None,
                        highest_revision,
                        validate,
                        rejection: PhantomData,
                    },
                )
            },
        }
    }

    /// Accepts a validated replacement and returns its newly assigned revision.
    ///
    /// The former active snapshot replaces the sole rollback slot. Equal
    /// content still receives a fresh revision. The bound check precedes
    /// validation, which precedes the exhaustion check; no failure changes
    /// anything.
    pub fn replace(&mut self, candidate: &[u8]) -> (result: Result<u64, ConfigurationError<E>>) where
        V: Fn(&[u8]) -> Result<(), E>,

        requires
            forall|bytes: &[u8]| #[trigger] old(self).validator().requires((bytes,)),
        ensures
            final(self).validator() == old(self).validator(),
            candidate@.len() > MAX_BYTES <==> result matches Err(
                ConfigurationError::TooLarge { .. },
            ),
            result matches Err(ConfigurationError::TooLarge { length, maximum }) ==> {
                &&& length == candidate@.len()
                &&& maximum == MAX_BYTES
            },
            result is Err ==> final(self)@ == old(self)@,
            result matches Err(ConfigurationError::Rejected(error)) ==> old(self).validator().ensures(
                (candidate,),
                Err::<(), E>(error),
            ),
            result matches Ok(revision) ==> {
                &&& old(self).validator().ensures((candidate,), Ok::<(), E>(()))
                &&& old(self)@.2 < u64::MAX
                &&& revision == old(self)@.2 + 1
                &&& final(self)@ == history_after_replace(old(self)@, candidate@)
            },
            result matches Err(ConfigurationError::RevisionExhausted) ==> {
                &&& old(self).validator().ensures((candidate,), Ok::<(), E>(()))
                &&& old(self)@.2 == u64::MAX
            },
            !(result matches Err(ConfigurationError::NoRollbackAvailable)),
            old(self).wf() ==> final(self).wf(),
            candidate@.len() <= MAX_BYTES && old(self)@.2 < u64::MAX && (forall|verdict: Result<(), E>|
                #[trigger] old(self).validator().ensures((candidate,), verdict) ==> verdict is Ok)
                ==> result == Ok::<u64, ConfigurationError<E>>((old(self)@.2 + 1) as u64),
    {
        if candidate.len() > MAX_BYTES {
            return Err(
                ConfigurationError::TooLarge { length: candidate.len(), maximum: MAX_BYTES },
            );
        }
        let bytes = crate::storage::copy_bytes(candidate);
        proof {
            assert(self.validator().requires((candidate,)));
        }
        let verdict = (self.validate)(candidate);
        match verdict {
            Err(error) => {
                return Err(ConfigurationError::Rejected(error));
            },
            Ok(()) => {
                assert(verdict->Ok_0 == ());
            },
        }
        if self.highest_revision == u64::MAX {
            return Err(ConfigurationError::RevisionExhausted);
        }
        let revision = self.highest_revision + 1;
        let mut displaced = ConfigurationSnapshot { bytes, revision };
        std::mem::swap(&mut self.active, &mut displaced);
        self.rollback = Some(displaced);
        self.highest_revision = revision;
        Ok(revision)
    }

    /// Restores the previous snapshot and consumes its rollback slot.
    ///
    /// Returns the revision it was first accepted at; it is not revalidated. The
    /// displaced active value is discarded and the high-water mark is kept.
    pub fn rollback(&mut self) -> (result: Result<u64, ConfigurationError<E>>)
        ensures
            final(self).validator() == old(self).validator(),
            old(self)@.1 is None ==> {
                &&& result == Err::<u64, _>(ConfigurationError::<E>::NoRollbackAvailable)
                &&& final(self)@ == old(self)@
            },
            old(self)@.1 matches Some(previous) ==> {
                &&& result == Ok::<_, ConfigurationError<E>>(previous.1)
                &&& final(self)@ == history_after_rollback(old(self)@)
            },
            old(self).wf() ==> final(self).wf(),
    {
        match self.rollback.take() {
            None => Err(ConfigurationError::NoRollbackAvailable),
            Some(previous) => {
                self.active = previous;
                Ok(self.active.revision)
            },
        }
    }
}

/// Replacement followed by rollback restores exactly the previously active
/// snapshot, consumes the rollback slot, and keeps the advanced high-water
/// mark, so the revision issued by the replacement is never issued again.
pub proof fn lemma_replace_then_rollback_restores(history: ConfigurationHistory, candidate: Seq<u8>)
    requires
        history.2 < u64::MAX,
    ensures
        history_after_rollback(history_after_replace(history, candidate)).0 == history.0,
        history_after_rollback(history_after_replace(history, candidate)).1 is None,
        history_after_rollback(history_after_replace(history, candidate)).2 == history.2 + 1,
{
}

/// Every accepted replacement is assigned a revision greater than every
/// revision the table retains or has ever assigned, and the invariant holds
/// afterwards.
pub proof fn lemma_replacement_revision_is_fresh(
    history: ConfigurationHistory,
    candidate: Seq<u8>,
    max_bytes: usize,
)
    requires
        history_wf(history, max_bytes),
        history.2 < u64::MAX,
        candidate.len() <= max_bytes,
    ensures
        history_after_replace(history, candidate).0.1 > history.2,
        history_after_replace(history, candidate).0.1 > history.0.1,
        history.1 matches Some(previous) ==> history_after_replace(history, candidate).0.1
            > previous.1,
        history_wf(history_after_replace(history, candidate), max_bytes),
{
}

/// Rollback is consumed once: immediately after a rollback none remains, and
/// the high-water mark is unchanged.
pub proof fn lemma_rollback_is_consumed_once(history: ConfigurationHistory, max_bytes: usize)
    requires
        history_wf(history, max_bytes),
        history.1 is Some,
    ensures
        history_after_rollback(history).1 is None,
        history_after_rollback(history).2 == history.2,
        history_wf(history_after_rollback(history), max_bytes),
{
}


/// In a well-formed table (every table built by `new` or `restore` and
/// changed only by its operations) the active bytes fit the bound and the
/// active revision lies between one and the high-water mark; a retained
/// rollback snapshot is older than the active one.
pub proof fn lemma_active_snapshot_bounds<E, const MAX_BYTES: usize, V>(
    table: ConfigurationTable<E, MAX_BYTES, V>,
)
    requires
        table.wf(),
    ensures
        table@.0.0.len() <= MAX_BYTES,
        1 <= table@.0.1 <= table@.2,
        table@.1 matches Some(previous) ==> previous.1 < table@.0.1,
{
}

} // verus!

//! The global operational phase state machine.
//!
//! A deployment owns one [`Lifecycle`] account: its current phase, a global
//! freeze switch and the migration flags. Every mutating operation of the
//! engine is gated on [`Lifecycle::assert_writes_allowed`] before any other
//! check runs.

use vstd::prelude::*;

use crate::constants::CURRENT_SCHEMA_VERSION;
use crate::errors::EngineError;
use crate::ids::NoteRef;

verus! {

/// High-level lifecycle phases of a deployment.
///
/// A phase is stored as a `u8` in [`Lifecycle`]; the numeric mapping given
/// by [`phase_code`] must stay stable across versions.
#[derive(Clone, Copy, PartialEq, Eq, Structural, Debug)]
pub enum LifecyclePhase {
    /// Initial bootstrapping: configuration and first setup.
    Bootstrapping,
    /// Normal operation.
    Operational,
    /// Restricted operation: only a subset of operations is expected.
    Maintenance,
    /// Write operations are blocked by phase.
    Frozen,
    /// A migration is running; only migration steps are expected.
    Migration,
    /// The deployment is shut down for new activity.
    Sunset,
}

/// The stable numeric code under which each phase is stored.
pub open spec fn phase_code(p: LifecyclePhase) -> u8 {
    match p {
        LifecyclePhase::Bootstrapping => 0,
        LifecyclePhase::Operational => 1,
        LifecyclePhase::Maintenance => 2,
        LifecyclePhase::Frozen => 3,
        LifecyclePhase::Migration => 4,
        LifecyclePhase::Sunset => 5,
    }
}

/// The phase a stored code stands for, if the code is recognized.
pub open spec fn phase_of_code(v: u8) -> Option<LifecyclePhase> {
    if v == 0 {
        Some(LifecyclePhase::Bootstrapping)
    } else if v == 1 {
        Some(LifecyclePhase::Operational)
    } else if v == 2 {
        Some(LifecyclePhase::Maintenance)
    } else if v == 3 {
        Some(LifecyclePhase::Frozen)
    } else if v == 4 {
        Some(LifecyclePhase::Migration)
    } else if v == 5 {
        Some(LifecyclePhase::Sunset)
    } else {
        None
    }
}

/// True of the phases in which writes are blocked by phase alone.
pub open spec fn phase_write_restricted(p: LifecyclePhase) -> bool {
    p == LifecyclePhase::Frozen || p == LifecyclePhase::Migration || p == LifecyclePhase::Sunset
}

/// True of the phases treated as read-only by default.
///
/// `Migration` is write-blocked but deliberately not counted here; the
/// asymmetry with [`phase_write_restricted`] is part of the stated behavior.
pub open spec fn phase_read_only(p: LifecyclePhase) -> bool {
    p == LifecyclePhase::Frozen || p == LifecyclePhase::Sunset
}

impl LifecyclePhase {
    /// Decode a stored phase code.
    pub fn from_u8(value: u8) -> (r: Option<LifecyclePhase>)
        ensures
            r == phase_of_code(value),
    {
        match value {
            0 => Some(LifecyclePhase::Bootstrapping),
            1 => Some(LifecyclePhase::Operational),
            2 => Some(LifecyclePhase::Maintenance),
            3 => Some(LifecyclePhase::Frozen),
            4 => Some(LifecyclePhase::Migration),
            5 => Some(LifecyclePhase::Sunset),
            _ => None,
        }
    }

    /// The stable numeric code of this phase.
    pub fn as_u8(self) -> (r: u8)
        ensures
            r == phase_code(self),
    {
        match self {
            LifecyclePhase::Bootstrapping => 0,
            LifecyclePhase::Operational => 1,
            LifecyclePhase::Maintenance => 2,
            LifecyclePhase::Frozen => 3,
            LifecyclePhase::Migration => 4,
            LifecyclePhase::Sunset => 5,
        }
    }

    /// Whether this phase blocks write operations by itself.
    pub fn is_write_restricted(self) -> (r: bool)
        ensures
            r == phase_write_restricted(self),
    {
        self == LifecyclePhase::Frozen || self == LifecyclePhase::Migration
            || self == LifecyclePhase::Sunset
    }

    /// Whether this phase is treated as read-only by default.
    pub fn is_read_only(self) -> (r: bool)
        ensures
            r == phase_read_only(self),
    {
        self == LifecyclePhase::Frozen || self == LifecyclePhase::Sunset
    }
}

/// The lifecycle account of a deployment: phase, global switches and the
/// timestamps of their last changes. Created once at bootstrap and mutated
/// only through the operations below.
#[derive(Clone, Copy, PartialEq, Eq, Structural, Debug)]
pub struct Lifecycle {
    /// Current phase, stored under the code given by [`phase_code`].
    pub phase: u8,
    /// Emergency switch: when set, no writes are allowed in any phase.
    pub global_freeze: bool,
    /// Whether a migration must run before further writes are allowed.
    pub migration_required: bool,
    /// Whether a migration is currently in progress.
    pub migration_in_progress: bool,
    /// When the current phase was entered.
    pub phase_changed_at: i64,
    /// When a migration flag was last set or cleared.
    pub migration_state_changed_at: i64,
    /// Reference to an off-chain lifecycle note.
    pub note_ref: NoteRef,
    /// When this account was created.
    pub created_at: i64,
    /// When any field last changed.
    pub updated_at: i64,
    /// Schema version of this account layout.
    pub schema_version: u8,
}

/// The write gate: writes are allowed exactly when the stored phase is
/// recognized and not write-restricted, no global freeze is active, and no
/// required migration is still pending.
pub open spec fn writes_allowed(l: Lifecycle) -> bool {
    match phase_of_code(l.phase) {
        Some(p) => !l.global_freeze && !phase_write_restricted(p) && !(l.migration_required
            && !l.migration_in_progress),
        None => false,
    }
}

/// The stored phase is recognized, but freeze, phase or a pending migration
/// blocks writes.
pub open spec fn lifecycle_blocked(l: Lifecycle) -> bool {
    match phase_of_code(l.phase) {
        Some(p) => l.global_freeze || phase_write_restricted(p) || (l.migration_required
            && !l.migration_in_progress),
        None => false,
    }
}

/// The failure the write gate reports when it refuses: an unrecognized
/// stored phase code is corruption, every other refusal a lifecycle block.
pub open spec fn write_gate_error(l: Lifecycle) -> EngineError {
    if phase_of_code(l.phase) is None {
        EngineError::InternalInconsistency
    } else {
        EngineError::LifecycleBlocked
    }
}

impl Lifecycle {
    /// Initialize a fresh lifecycle account in the `Bootstrapping` phase with
    /// all switches cleared.
    pub fn init(&mut self, now: i64, note_ref: NoteRef) -> (r: Result<(), EngineError>)
        ensures
            r == Ok::<(), EngineError>(()),
            *final(self) == (Lifecycle {
                phase: phase_code(LifecyclePhase::Bootstrapping),
                global_freeze: false,
                migration_required: false,
                migration_in_progress: false,
                phase_changed_at: now,
                migration_state_changed_at: 0,
                note_ref: note_ref,
                created_at: now,
                updated_at: now,
                schema_version: CURRENT_SCHEMA_VERSION,
            }),
    {
        self.phase = LifecyclePhase::Bootstrapping.as_u8();
        self.global_freeze = false;
        self.migration_required = false;
        self.migration_in_progress = false;
        self.phase_changed_at = now;
        self.migration_state_changed_at = 0;
        self.note_ref = note_ref;
        self.created_at = now;
        self.updated_at = now;
        self.schema_version = CURRENT_SCHEMA_VERSION;
        Ok(())
    }

    /// Change the phase. A no-op when the stored phase already is the
    /// requested one; fails only when the stored phase code is unrecognized.
    pub fn set_phase(&mut self, new_phase: LifecyclePhase, now: i64) -> (r: Result<
        (),
        EngineError,
    >)
        ensures
            phase_of_code(old(self).phase) is None ==> r == Err::<(), EngineError>(
                EngineError::InternalInconsistency,
            ) && *final(self) == *old(self),
            phase_of_code(old(self).phase) == Some(new_phase) ==> r == Ok::<(), EngineError>(())
                && *final(self) == *old(self),
            phase_of_code(old(self).phase) is Some && phase_of_code(old(self).phase) != Some(
                new_phase,
            ) ==> r == Ok::<(), EngineError>(()) && *final(self) == (Lifecycle {
                phase: phase_code(new_phase),
                phase_changed_at: now,
                updated_at: now,
                ..*old(self)
            }),
    {
        let old_phase = match LifecyclePhase::from_u8(self.phase) {
            Some(p) => p,
            None => {
                return Err(EngineError::InternalInconsistency);
            },
        };
        if old_phase == new_phase {
            return Ok(());
        }
        self.phase = new_phase.as_u8();
        self.phase_changed_at = now;
        self.updated_at = now;
        Ok(())
    }

    /// Set or clear the global freeze switch, independently of the phase.
    pub fn set_global_freeze(&mut self, freeze: bool, now: i64) -> (r: Result<(), EngineError>)
        ensures
            r == Ok::<(), EngineError>(()),
            *final(self) == (Lifecycle { global_freeze: freeze, updated_at: now, ..*old(self) }),
    {
        self.global_freeze = freeze;
        self.updated_at = now;
        Ok(())
    }

    /// Mark that a migration is required. Idempotent on the flag; the phase
    /// is unaffected.
    pub fn require_migration(&mut self, now: i64) -> (r: Result<(), EngineError>)
        ensures
            r == Ok::<(), EngineError>(()),
            *final(self) == (Lifecycle {
                migration_required: true,
                migration_state_changed_at: now,
                updated_at: now,
                ..*old(self)
            }),
    {
        self.migration_required = true;
        self.migration_state_changed_at = now;
        self.updated_at = now;
        Ok(())
    }

    /// Start the required migration: marks it in progress and forces the
    /// phase to `Migration`.
    pub fn start_migration(&mut self, now: i64) -> (r: Result<(), EngineError>)
        ensures
            !old(self).migration_required ==> r == Err::<(), EngineError>(
                EngineError::MigrationNotRequired,
            ) && *final(self) == *old(self),
            old(self).migration_required && old(self).migration_in_progress ==> r == Err::<
                (),
                EngineError,
            >(EngineError::MigrationAlreadyInProgress) && *final(self) == *old(self),
            old(self).migration_required && !old(self).migration_in_progress ==> r == Ok::<
                (),
                EngineError,
            >(()) && *final(self) == (Lifecycle {
                migration_in_progress: true,
                phase: phase_code(LifecyclePhase::Migration),
                phase_changed_at: now,
                migration_state_changed_at: now,
                updated_at: now,
                ..*old(self)
            }),
    {
        if !self.migration_required {
            return Err(EngineError::MigrationNotRequired);
        }
        if self.migration_in_progress {
            return Err(EngineError::MigrationAlreadyInProgress);
        }
        self.migration_in_progress = true;
        self.phase = LifecyclePhase::Migration.as_u8();
        self.phase_changed_at = now;
        self.migration_state_changed_at = now;
        self.updated_at = now;
        Ok(())
    }

    /// Complete the migration in progress: clears both migration flags and
    /// sets the phase of the caller's choice.
    pub fn complete_migration(&mut self, new_phase: LifecyclePhase, now: i64) -> (r: Result<
        (),
        EngineError,
    >)
        ensures
            !old(self).migration_in_progress ==> r == Err::<(), EngineError>(
                EngineError::MigrationNotInProgress,
            ) && *final(self) == *old(self),
            old(self).migration_in_progress ==> r == Ok::<(), EngineError>(()) && *final(self)
                == (Lifecycle {
                migration_required: false,
                migration_in_progress: false,
                phase: phase_code(new_phase),
                phase_changed_at: now,
                migration_state_changed_at: now,
                updated_at: now,
                ..*old(self)
            }),
    {
        if !self.migration_in_progress {
            return Err(EngineError::MigrationNotInProgress);
        }
        self.migration_required = false;
        self.migration_in_progress = false;
        self.phase = new_phase.as_u8();
        self.phase_changed_at = now;
        self.migration_state_changed_at = now;
        self.updated_at = now;
        Ok(())
    }

    /// Replace the off-chain note reference.
    pub fn update_note_ref(&mut self, note_ref: NoteRef, now: i64) -> (r: Result<(), EngineError>)
        ensures
            r == Ok::<(), EngineError>(()),
            *final(self) == (Lifecycle { note_ref: note_ref, updated_at: now, ..*old(self) }),
    {
        self.note_ref = note_ref;
        self.updated_at = now;
        Ok(())
    }

    /// The central write gate. Succeeds exactly when [`writes_allowed`]
    /// holds of this state; an unrecognized stored phase code is reported as
    /// corruption, every other refusal as a lifecycle block.
    pub fn assert_writes_allowed(&self) -> (r: Result<(), EngineError>)
        ensures
            r is Ok <==> writes_allowed(*self),
            phase_of_code(self.phase) is None ==> r == Err::<(), EngineError>(
                EngineError::InternalInconsistency,
            ),
            lifecycle_blocked(*self) ==> r == Err::<(), EngineError>(EngineError::LifecycleBlocked),
    {
        let phase = match LifecyclePhase::from_u8(self.phase) {
            Some(p) => p,
            None => {
                return Err(EngineError::InternalInconsistency);
            },
        };
        if self.global_freeze {
            return Err(EngineError::LifecycleBlocked);
        }
        if phase.is_write_restricted() {
            return Err(EngineError::LifecycleBlocked);
        }
        if self.migration_required && !self.migration_in_progress {
            return Err(EngineError::LifecycleBlocked);
        }
        Ok(())
    }

    /// Whether this state is effectively read-only: frozen globally or in a
    /// phase that [`phase_read_only`] counts. `Migration` is write-blocked
    /// but not counted here.
    pub fn is_effectively_read_only(&self) -> (r: Result<bool, EngineError>)
        ensures
            phase_of_code(self.phase) is None ==> r == Err::<bool, EngineError>(
                EngineError::InternalInconsistency,
            ),
            phase_of_code(self.phase) matches Some(p) ==> r == Ok::<bool, EngineError>(
                self.global_freeze || phase_read_only(p),
            ),
    {
        let phase = match LifecyclePhase::from_u8(self.phase) {
            Some(p) => p,
            None => {
                return Err(EngineError::InternalInconsistency);
            },
        };
        Ok(self.global_freeze || phase.is_read_only())
    }
}

/// Law: the write gate refuses whenever the global freeze is set, whatever
/// the phase and the migration flags.
pub proof fn lemma_freeze_blocks_writes(l: Lifecycle)
    requires
        l.global_freeze,
    ensures
        !writes_allowed(l),
{
}

/// Law: starting a migration twice without an intervening completion fails
/// the second time. On any state where [`Lifecycle::start_migration`] can
/// succeed, its contract pins the state it leaves behind to exactly the
/// value below — and on that state both migration flags are set, the
/// condition under which the contract of `start_migration` returns
/// `MigrationAlreadyInProgress` and changes nothing. Only
/// [`Lifecycle::complete_migration`] clears the in-progress flag.
pub proof fn lemma_start_migration_twice_blocked(l: Lifecycle, now: i64)
    requires
        l.migration_required,
        !l.migration_in_progress,
    ensures
        (Lifecycle {
            migration_in_progress: true,
            phase: phase_code(LifecyclePhase::Migration),
            phase_changed_at: now,
            migration_state_changed_at: now,
            updated_at: now,
            ..l
        }).migration_required,
        (Lifecycle {
            migration_in_progress: true,
            phase: phase_code(LifecyclePhase::Migration),
            phase_changed_at: now,
            migration_state_changed_at: now,
            updated_at: now,
            ..l
        }).migration_in_progress,
{
}

} // verus!

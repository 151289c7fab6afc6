//! The table of legal changes between operating modes.

use vstd::prelude::*;
use crate::firmware::state::FirmwareState;

verus! {

/// What asks for a change of operating mode.
#[derive(Debug, Clone, Copy, PartialEq, Eq, Structural)]
pub enum Transition {
    /// Hardware initialization succeeded.
    InitComplete,
    /// Homing of the Z axis was requested.
    HomeRequested,
    /// Homing of the Z axis finished.
    HomeComplete,
    /// A job was accepted.
    StartPrint,
    /// The thermal targets of the job were reached.
    TargetsReached,
    /// The job was paused.
    Pause,
    /// The paused job was resumed.
    Resume,
    /// The job was cancelled and the cooldown sequence has finished.
    Cancel,
    /// The last layer of the job was completed.
    JobComplete,
    /// A fault was raised.
    Fault,
    /// All recorded faults were cleared.
    ErrorsCleared,
    /// The safety supervisor tripped.
    SafetyTrip,
    /// An operator reset the machine after an emergency stop.
    Reset,
    /// The engine was asked to shut down.
    Shutdown,
}

/// Governs the legal changes between operating modes.
#[derive(Debug, Clone, Copy)]
pub struct StateMachine;

impl StateMachine {
    /// The mode that `t` leads to from `from`, or `None` where the table
    /// has no such change.
    pub open spec fn spec_next(from: FirmwareState, t: Transition) -> Option<FirmwareState> {
        match t {
            Transition::InitComplete => if from == FirmwareState::Initializing {
                Some(FirmwareState::Idle)
            } else {
                None
            },
            Transition::HomeRequested => if from == FirmwareState::Idle {
                Some(FirmwareState::Homing)
            } else {
                None
            },
            Transition::HomeComplete => if from == FirmwareState::Homing {
                Some(FirmwareState::Idle)
            } else {
                None
            },
            Transition::StartPrint => if from == FirmwareState::Idle {
                Some(FirmwareState::Heating)
            } else {
                None
            },
            Transition::TargetsReached => if from == FirmwareState::Heating {
                Some(FirmwareState::Printing)
            } else {
                None
            },
            Transition::Pause => if from == FirmwareState::Printing {
                Some(FirmwareState::Paused)
            } else {
                None
            },
            Transition::Resume => if from == FirmwareState::Paused {
                Some(FirmwareState::Printing)
            } else {
                None
            },
            Transition::Cancel => if from == FirmwareState::Printing {
                Some(FirmwareState::Idle)
            } else {
                None
            },
            Transition::JobComplete => if from == FirmwareState::Printing {
                Some(FirmwareState::Idle)
            } else {
                None
            },
            Transition::Fault => if from != FirmwareState::EmergencyStopped {
                Some(FirmwareState::Error)
            } else {
                None
            },
            Transition::ErrorsCleared => if from == FirmwareState::Error {
                Some(FirmwareState::Idle)
            } else {
                None
            },
            Transition::SafetyTrip => Some(FirmwareState::EmergencyStopped),
            Transition::Reset => if from == FirmwareState::EmergencyStopped {
                Some(FirmwareState::Initializing)
            } else {
                None
            },
            Transition::Shutdown => if from == FirmwareState::Idle {
                Some(FirmwareState::ShuttingDown)
            } else {
                None
            },
        }
    }

    /// Looks up the table of legal changes.
    pub fn next(from: FirmwareState, t: Transition) -> (to: Option<FirmwareState>)
        ensures
            to == Self::spec_next(from, t),
    {
        match (t, from) {
            (Transition::InitComplete, FirmwareState::Initializing) => Some(FirmwareState::Idle),
            (Transition::HomeRequested, FirmwareState::Idle) => Some(FirmwareState::Homing),
            (Transition::HomeComplete, FirmwareState::Homing) => Some(FirmwareState::Idle),
            (Transition::StartPrint, FirmwareState::Idle) => Some(FirmwareState::Heating),
            (Transition::TargetsReached, FirmwareState::Heating) => Some(FirmwareState::Printing),
            (Transition::Pause, FirmwareState::Printing) => Some(FirmwareState::Paused),
            (Transition::Resume, FirmwareState::Paused) => Some(FirmwareState::Printing),
            (Transition::Cancel, FirmwareState::Printing) => Some(FirmwareState::Idle),
            (Transition::JobComplete, FirmwareState::Printing) => Some(FirmwareState::Idle),
            (Transition::Fault, FirmwareState::EmergencyStopped) => None,
            (Transition::Fault, _) => Some(FirmwareState::Error),
            (Transition::ErrorsCleared, FirmwareState::Error) => Some(FirmwareState::Idle),
            (Transition::SafetyTrip, _) => Some(FirmwareState::EmergencyStopped),
            (Transition::Reset, FirmwareState::EmergencyStopped) => Some(
                FirmwareState::Initializing,
            ),
            (Transition::Shutdown, FirmwareState::Idle) => Some(FirmwareState::ShuttingDown),
            _ => None,
        }
    }

    /// Some request leads from `from` to `to`.
    pub open spec fn spec_is_legal(from: FirmwareState, to: FirmwareState) -> bool {
        exists|t: Transition| Self::spec_next(from, t) == Some(to)
    }

    /// An emergency stop is left by a reset alone, and a trip leads to it
    /// from every mode.
    pub proof fn lemma_emergency_stop_is_terminal(from: FirmwareState, t: Transition)
        ensures
            Self::spec_next(from, Transition::SafetyTrip) == Some(FirmwareState::EmergencyStopped),
            from == FirmwareState::EmergencyStopped && t != Transition::Reset && t
                != Transition::SafetyTrip ==> Self::spec_next(from, t).is_none(),
    {
    }
}

} // verus!

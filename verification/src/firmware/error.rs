//! Faults of the engine and how they are promoted into the snapshot.

use vstd::prelude::*;
use crate::firmware::state::{
    ErrorSeverity, FirmwareState, SystemError, SystemErrorView, SystemState, SystemStateView,
};

verus! {

/// A fault of the engine.
#[derive(Debug, Clone, PartialEq, Eq)]
pub enum FirmwareError {
    /// Hardware could not be brought up; the engine never reaches `Idle`.
    HardwareInit(String),
    /// A single hardware call failed.
    HardwareOperation(String),
    /// A safety limit was violated.
    SafetyViolation(String),
    /// A command was refused.
    InvalidCommand(String),
    /// The job could not be carried on.
    PrintExecution(String),
    /// The job file is unusable.
    File(String),
    /// The transport failed.
    Communication(String),
    /// A wait or a settle time ran out.
    Timeout(String),
    /// Input or output failed.
    Io(String),
    /// Anything else.
    Other(String),
}

/// The kind of a [`FirmwareError`], without its message.
#[derive(Debug, Clone, Copy, PartialEq, Eq, Structural)]
pub enum FaultKind {
    HardwareInit,
    HardwareOperation,
    SafetyViolation,
    InvalidCommand,
    PrintExecution,
    File,
    Communication,
    Timeout,
    Io,
    Other,
}

/// Mathematical value of a [`FirmwareError`].
pub struct FirmwareErrorView {
    pub kind: FaultKind,
    pub detail: Seq<char>,
}

impl FaultKind {
    /// The code under which a fault of this kind is recorded.
    pub open spec fn spec_code(self) -> Seq<char> {
        match self {
            FaultKind::HardwareInit => "HARDWARE_INIT"@,
            FaultKind::HardwareOperation => "HARDWARE_OPERATION"@,
            FaultKind::SafetyViolation => "SAFETY_VIOLATION"@,
            FaultKind::InvalidCommand => "INVALID_COMMAND"@,
            FaultKind::PrintExecution => "PRINT_EXECUTION"@,
            FaultKind::File => "FILE"@,
            FaultKind::Communication => "COMMUNICATION"@,
            FaultKind::Timeout => "TIMEOUT"@,
            FaultKind::Io => "IO"@,
            FaultKind::Other => "OTHER"@,
        }
    }

    /// The code under which a fault of this kind is recorded.
    pub fn code(&self) -> (s: String)
        ensures
            s@ == self.spec_code(),
    {
        match self {
            FaultKind::HardwareInit => String::from_str("HARDWARE_INIT"),
            FaultKind::HardwareOperation => String::from_str("HARDWARE_OPERATION"),
            FaultKind::SafetyViolation => String::from_str("SAFETY_VIOLATION"),
            FaultKind::InvalidCommand => String::from_str("INVALID_COMMAND"),
            FaultKind::PrintExecution => String::from_str("PRINT_EXECUTION"),
            FaultKind::File => String::from_str("FILE"),
            FaultKind::Communication => String::from_str("COMMUNICATION"),
            FaultKind::Timeout => String::from_str("TIMEOUT"),
            FaultKind::Io => String::from_str("IO"),
            FaultKind::Other => String::from_str("OTHER"),
        }
    }

    /// What precedes the detail in the text of a fault of this kind.
    pub open spec fn spec_prefix(self) -> Seq<char> {
        match self {
            FaultKind::HardwareInit => "Hardware initialization failed: "@,
            FaultKind::HardwareOperation => "Hardware operation failed: "@,
            FaultKind::SafetyViolation => "Safety violation: "@,
            FaultKind::InvalidCommand => "Invalid command: "@,
            FaultKind::PrintExecution => "Print execution error: "@,
            FaultKind::File => "File error: "@,
            FaultKind::Communication => "Communication error: "@,
            FaultKind::Timeout => "Timeout: "@,
            FaultKind::Io => "I/O error: "@,
            FaultKind::Other => "Other error: "@,
        }
    }

    fn prefix(&self) -> (s: String)
        ensures
            s@ == self.spec_prefix(),
    {
        match self {
            FaultKind::HardwareInit => String::from_str("Hardware initialization failed: "),
            FaultKind::HardwareOperation => String::from_str("Hardware operation failed: "),
            FaultKind::SafetyViolation => String::from_str("Safety violation: "),
            FaultKind::InvalidCommand => String::from_str("Invalid command: "),
            FaultKind::PrintExecution => String::from_str("Print execution error: "),
            FaultKind::File => String::from_str("File error: "),
            FaultKind::Communication => String::from_str("Communication error: "),
            FaultKind::Timeout => String::from_str("Timeout: "),
            FaultKind::Io => String::from_str("I/O error: "),
            FaultKind::Other => String::from_str("Other error: "),
        }
    }

    /// How serious a fault of this kind is once it is promoted: a failed
    /// start-up and a safety violation are critical, a transport fault is a
    /// warning, every other kind is an error.
    pub open spec fn spec_severity(self) -> ErrorSeverity {
        match self {
            FaultKind::HardwareInit => ErrorSeverity::Critical,
            FaultKind::SafetyViolation => ErrorSeverity::Critical,
            FaultKind::Communication => ErrorSeverity::Warning,
            _ => ErrorSeverity::Error,
        }
    }

    /// How serious a fault of this kind is once it is promoted.
    pub fn severity(&self) -> (s: ErrorSeverity)
        ensures
            s == self.spec_severity(),
    {
        match self {
            FaultKind::HardwareInit => ErrorSeverity::Critical,
            FaultKind::SafetyViolation => ErrorSeverity::Critical,
            FaultKind::Communication => ErrorSeverity::Warning,
            _ => ErrorSeverity::Error,
        }
    }
}

impl View for FirmwareError {
    type V = FirmwareErrorView;

    open spec fn view(&self) -> FirmwareErrorView {
        match self {
            FirmwareError::HardwareInit(m) => FirmwareErrorView {
                kind: FaultKind::HardwareInit,
                detail: m@,
            },
            FirmwareError::HardwareOperation(m) => FirmwareErrorView {
                kind: FaultKind::HardwareOperation,
                detail: m@,
            },
            FirmwareError::SafetyViolation(m) => FirmwareErrorView {
                kind: FaultKind::SafetyViolation,
                detail: m@,
            },
            FirmwareError::InvalidCommand(m) => FirmwareErrorView {
                kind: FaultKind::InvalidCommand,
                detail: m@,
            },
            FirmwareError::PrintExecution(m) => FirmwareErrorView {
                kind: FaultKind::PrintExecution,
                detail: m@,
            },
            FirmwareError::File(m) => FirmwareErrorView { kind: FaultKind::File, detail: m@ },
            FirmwareError::Communication(m) => FirmwareErrorView {
                kind: FaultKind::Communication,
                detail: m@,
            },
            FirmwareError::Timeout(m) => FirmwareErrorView { kind: FaultKind::Timeout, detail: m@ },
            FirmwareError::Io(m) => FirmwareErrorView { kind: FaultKind::Io, detail: m@ },
            FirmwareError::Other(m) => FirmwareErrorView { kind: FaultKind::Other, detail: m@ },
        }
    }
}

impl FirmwareErrorView {
    /// The text of the fault: what its kind says, then its detail.
    pub open spec fn text(self) -> Seq<char> {
        self.kind.spec_prefix() + self.detail
    }

    /// The record that the fault becomes in the snapshot.
    pub open spec fn promoted(self, timestamp: u64) -> SystemErrorView {
        SystemErrorView {
            severity: self.kind.spec_severity(),
            code: self.kind.spec_code(),
            message: self.text(),
            affected_systems: Seq::empty(),
            recovery_action: None,
            timestamp,
        }
    }
}

impl FirmwareError {
    /// The kind of the fault.
    pub fn kind(&self) -> (k: FaultKind)
        ensures
            k == self@.kind,
    {
        match self {
            FirmwareError::HardwareInit(_) => FaultKind::HardwareInit,
            FirmwareError::HardwareOperation(_) => FaultKind::HardwareOperation,
            FirmwareError::SafetyViolation(_) => FaultKind::SafetyViolation,
            FirmwareError::InvalidCommand(_) => FaultKind::InvalidCommand,
            FirmwareError::PrintExecution(_) => FaultKind::PrintExecution,
            FirmwareError::File(_) => FaultKind::File,
            FirmwareError::Communication(_) => FaultKind::Communication,
            FirmwareError::Timeout(_) => FaultKind::Timeout,
            FirmwareError::Io(_) => FaultKind::Io,
            FirmwareError::Other(_) => FaultKind::Other,
        }
    }

    fn detail(&self) -> (d: &String)
        ensures
            d@ == self@.detail,
    {
        match self {
            FirmwareError::HardwareInit(m) => m,
            FirmwareError::HardwareOperation(m) => m,
            FirmwareError::SafetyViolation(m) => m,
            FirmwareError::InvalidCommand(m) => m,
            FirmwareError::PrintExecution(m) => m,
            FirmwareError::File(m) => m,
            FirmwareError::Communication(m) => m,
            FirmwareError::Timeout(m) => m,
            FirmwareError::Io(m) => m,
            FirmwareError::Other(m) => m,
        }
    }

    /// Renders the fault as text.
    pub fn message(&self) -> (s: String)
        ensures
            s@ == self@.text(),
    {
        self.kind().prefix().concat(self.detail().as_str())
    }

    /// The record that the fault becomes in the snapshot.
    pub fn promote(&self, timestamp: u64) -> (e: SystemError)
        ensures
            e@ == self@.promoted(timestamp),
    {
        let e = SystemError {
            severity: self.kind().severity(),
            code: self.kind().code(),
            message: self.message(),
            affected_systems: Vec::new(),
            recovery_action: None,
            timestamp,
        };
        assert(e@.affected_systems =~= Seq::empty());
        e
    }
}

impl SystemStateView {
    /// The snapshot after a fault was reported: a transport fault becomes a
    /// warning and stops nothing; a safety violation trips the emergency
    /// stop; every other fault is recorded as an error.
    pub open spec fn reported(self, fault: FirmwareErrorView, timestamp: u64) -> SystemStateView {
        match fault.kind {
            FaultKind::Communication => SystemStateView {
                warnings: self.warnings.push(fault.text()),
                ..self
            },
            FaultKind::SafetyViolation => self.tripped(fault.promoted(timestamp)),
            _ => self.with_error(fault.promoted(timestamp)),
        }
    }
}

impl SystemState {
    /// Promotes a fault into the snapshot.
    pub fn report(&mut self, fault: &FirmwareError, timestamp: u64)
        ensures
            final(self)@ == old(self)@.reported(fault@, timestamp),
            final(self)@ == crate::firmware::laws::state_step(
                old(self)@,
                crate::firmware::laws::Step::Report(fault@, timestamp),
            ),
            old(self)@.wf() ==> final(self)@.wf(),
            fault@.kind == FaultKind::SafetyViolation ==> final(self)@.firmware_state
                == FirmwareState::EmergencyStopped,
    {
        match fault.kind() {
            FaultKind::Communication => {
                self.warnings.push(fault.message());
                assert(self.warnings.deep_view() =~= old(self).warnings.deep_view().push(
                    fault@.text(),
                ));
            },
            FaultKind::SafetyViolation => {
                self.emergency_stop(fault.promote(timestamp));
            },
            _ => {
                self.add_error(fault.promote(timestamp));
            },
        }
    }
}

} // verus!

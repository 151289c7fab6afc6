//! Messages between the engine and its control interface.

use vstd::prelude::*;
use crate::config_types::PrinterConfig;
use crate::firmware::state::{Reading, SystemError, SystemState};
use crate::firmware::state::ErrorSeverity as FaultSeverity;

verus! {

/// Protocol version identifier.
pub const PROTOCOL_VERSION: &'static str = "1.0";

/// Default WebSocket port.
pub const DEFAULT_WEBSOCKET_PORT: u16 = 8080;

/// Default serial baud rate.
pub const DEFAULT_SERIAL_BAUD: u32 = 115200;

/// Maximum message size in bytes.
pub const MAX_MESSAGE_SIZE: usize = 1048576;

/// Periodic status of the job.
#[derive(Debug, Clone, PartialEq, Eq)]
pub struct StatusUpdate {
    /// Name of the operating mode.
    pub state: String,
    /// Number of layers completed.
    pub current_layer: u32,
    /// Number of layers in the job.
    pub total_layers: u32,
    /// Z position in micrometres.
    pub z_position: i64,
    /// Progress in thousandths of a percent.
    pub progress_percent: i64,
    /// Seconds since the job started.
    pub elapsed_time: u64,
    /// Estimated seconds that remain.
    pub estimated_remaining: u64,
}

/// Temperature of one zone.
#[derive(Debug, Clone, Copy, PartialEq, Eq, Structural)]
pub struct ThermalZone {
    pub id: u8,
    pub current: i64,
    pub target: i64,
}

/// A temperature against its target.
#[derive(Debug, Clone, Copy, PartialEq, Eq, Structural)]
pub struct ThermalReading {
    pub current: i64,
    pub target: i64,
}

/// Status of the thermal system.
#[derive(Debug, Clone, PartialEq, Eq)]
pub struct ThermalUpdate {
    /// Zone temperatures.
    pub zones: Vec<ThermalZone>,
    /// Manifold temperature.
    pub manifold: Option<ThermalReading>,
    /// Build plate temperature.
    pub bed: Option<ThermalReading>,
    /// Chamber temperature.
    pub chamber: Option<ThermalReading>,
}

/// Pressure and flow of one channel.
#[derive(Debug, Clone, Copy, PartialEq, Eq, Structural)]
pub struct PressureChannel {
    pub id: u8,
    pub pressure: i64,
    pub target: i64,
    pub flow_rate: i64,
}

/// Status of the pressure system.
#[derive(Debug, Clone, PartialEq, Eq)]
pub struct PressureUpdate {
    /// Pressures and flow rates by channel.
    pub channels: Vec<PressureChannel>,
}

/// Sent when the valve pattern changes.
#[derive(Debug, Clone, PartialEq, Eq)]
pub struct ValveStateUpdate {
    /// Layer whose pattern is applied.
    pub layer: u32,
    /// Number of active valve nodes.
    pub active_nodes: usize,
    /// Number of open valves.
    pub open_valves: usize,
    /// Checksum of the pattern, as text.
    pub pattern_hash: String,
}

/// Severity of an error event.
#[derive(Debug, Clone, Copy, PartialEq, Eq, Structural)]
pub enum ErrorSeverity {
    Info,
    Warning,
    Error,
    Critical,
}

/// Notification of a fault.
#[derive(Debug, Clone, PartialEq, Eq)]
pub struct ErrorEvent {
    /// Severity of the fault.
    pub severity: ErrorSeverity,
    /// Machine-readable code.
    pub code: String,
    /// Human-readable message.
    pub message: String,
    /// Affected subsystems.
    pub affected_systems: Vec<String>,
    /// Suggested recovery action.
    pub recommended_action: Option<String>,
}

/// Request to start a job.
#[derive(Debug, Clone, PartialEq, Eq)]
pub struct StartPrintCommand {
    /// Path of the job file.
    pub file_path: String,
    /// Layer to start from, when resuming.
    pub start_layer: Option<u32>,
}

/// Request to pause the job.
#[derive(Debug, Clone, PartialEq, Eq)]
pub struct PausePrintCommand {
    /// Why the job is paused.
    pub reason: String,
}

/// A parameter that can be adjusted while printing.
#[derive(Debug, Clone, Copy, PartialEq, Eq, Structural)]
pub enum AdjustableParameter {
    FlowRate,
    Temperature,
    Pressure,
    Speed,
}

/// Request to adjust a parameter while printing.
#[derive(Debug, Clone, PartialEq, Eq)]
pub struct AdjustParameterCommand {
    /// Parameter to adjust.
    pub parameter: AdjustableParameter,
    /// Channel or zone the value applies to.
    pub channel_or_zone: Option<u8>,
    /// New value, in thousandths of the unit.
    pub value: i64,
    /// Unit of the value.
    pub unit: String,
}

/// Request for the current status.
#[derive(Debug, Clone, PartialEq, Eq)]
pub struct GetStatusRequest {
    /// Kind of status that is wanted.
    pub status_type: Option<String>,
}

/// Progress of the job, as the protocol carries it.
#[derive(Debug, Clone, PartialEq, Eq)]
pub struct PrintStatus {
    pub current_layer: u32,
    pub total_layers: u32,
    pub z_position: i64,
    pub progress_percent: i64,
    pub file_path: String,
}

/// Answer to a status request.
#[derive(Debug, Clone, PartialEq, Eq)]
pub struct StatusResponse {
    pub state: String,
    pub print_status: Option<PrintStatus>,
    pub thermal: ThermalUpdate,
    pub pressure: PressureUpdate,
}

/// Answer to a configuration request.
#[derive(Debug, Clone)]
pub struct ConfigResponse {
    pub printer_config: PrinterConfig,
    pub firmware_version: String,
}

/// Generic answer to a command.
#[derive(Debug, Clone, PartialEq, Eq)]
pub struct CommandResponse {
    pub success: bool,
    pub message: String,
    pub error: Option<String>,
}

impl CommandResponse {
    /// The answer to a command that succeeded.
    pub fn success(message: &str) -> (r: Self)
        ensures
            r.success,
            r.message@ == message@,
            r.error.is_none(),
    {
        Self { success: true, message: String::from_str(message), error: None }
    }

    /// The answer to a command that failed: no message, the error text in
    /// its place.
    pub fn error(message: &str) -> (r: Self)
        ensures
            !r.success,
            r.message@ == Seq::<char>::empty(),
            r.error is Some,
            r.error->Some_0@ == message@,
    {
        Self { success: false, message: String::new(), error: Some(String::from_str(message)) }
    }
}

/// Envelope of every message.
#[derive(Debug, Clone)]
pub enum ProtocolMessage {
    StatusUpdate(StatusUpdate),
    ThermalUpdate(ThermalUpdate),
    PressureUpdate(PressureUpdate),
    ValveStateUpdate(ValveStateUpdate),
    ErrorEvent(ErrorEvent),
    StartPrint(StartPrintCommand),
    PausePrint(PausePrintCommand),
    ResumePrint,
    CancelPrint,
    EmergencyStop,
    AdjustParameter(AdjustParameterCommand),
    GetStatus(GetStatusRequest),
    StatusResponse(StatusResponse),
    GetConfig,
    ConfigResponse(ConfigResponse),
    CommandResponse(CommandResponse),
}

/// A message with the time at which it was stamped.
#[derive(Debug, Clone)]
pub struct TimestampedMessage {
    /// Seconds since the Unix epoch.
    pub timestamp: u64,
    /// The message.
    pub message: ProtocolMessage,
}

impl ProtocolMessage {
    /// Wraps the message with the time `now`, in seconds since the Unix
    /// epoch.
    pub fn with_timestamp(self, now: u64) -> (t: TimestampedMessage)
        ensures
            t.timestamp == now,
            t.message == self,
    {
        TimestampedMessage { timestamp: now, message: self }
    }

    /// The name of the variant.
    pub open spec fn spec_message_type(&self) -> Seq<char> {
        match self {
            ProtocolMessage::StatusUpdate(_) => "StatusUpdate"@,
            ProtocolMessage::ThermalUpdate(_) => "ThermalUpdate"@,
            ProtocolMessage::PressureUpdate(_) => "PressureUpdate"@,
            ProtocolMessage::ValveStateUpdate(_) => "ValveStateUpdate"@,
            ProtocolMessage::ErrorEvent(_) => "ErrorEvent"@,
            ProtocolMessage::StartPrint(_) => "StartPrint"@,
            ProtocolMessage::PausePrint(_) => "PausePrint"@,
            ProtocolMessage::ResumePrint => "ResumePrint"@,
            ProtocolMessage::CancelPrint => "CancelPrint"@,
            ProtocolMessage::EmergencyStop => "EmergencyStop"@,
            ProtocolMessage::AdjustParameter(_) => "AdjustParameter"@,
            ProtocolMessage::GetStatus(_) => "GetStatus"@,
            ProtocolMessage::StatusResponse(_) => "StatusResponse"@,
            ProtocolMessage::GetConfig => "GetConfig"@,
            ProtocolMessage::ConfigResponse(_) => "ConfigResponse"@,
            ProtocolMessage::CommandResponse(_) => "CommandResponse"@,
        }
    }

    /// Returns the message type as a string for logging.
    pub fn message_type(&self) -> (name: &'static str)
        ensures
            name@ == self.spec_message_type(),
    {
        match self {
            ProtocolMessage::StatusUpdate(_) => "StatusUpdate",
            ProtocolMessage::ThermalUpdate(_) => "ThermalUpdate",
            ProtocolMessage::PressureUpdate(_) => "PressureUpdate",
            ProtocolMessage::ValveStateUpdate(_) => "ValveStateUpdate",
            ProtocolMessage::ErrorEvent(_) => "ErrorEvent",
            ProtocolMessage::StartPrint(_) => "StartPrint",
            ProtocolMessage::PausePrint(_) => "PausePrint",
            ProtocolMessage::ResumePrint => "ResumePrint",
            ProtocolMessage::CancelPrint => "CancelPrint",
            ProtocolMessage::EmergencyStop => "EmergencyStop",
            ProtocolMessage::AdjustParameter(_) => "AdjustParameter",
            ProtocolMessage::GetStatus(_) => "GetStatus",
            ProtocolMessage::StatusResponse(_) => "StatusResponse",
            ProtocolMessage::GetConfig => "GetConfig",
            ProtocolMessage::ConfigResponse(_) => "ConfigResponse",
            ProtocolMessage::CommandResponse(_) => "CommandResponse",
        }
    }

    /// The message asks the engine to act.
    pub open spec fn spec_is_command(&self) -> bool {
        self is StartPrint || self is PausePrint || self is ResumePrint || self is CancelPrint
            || self is EmergencyStop || self is AdjustParameter
    }

    /// Returns true if this is a command message.
    pub fn is_command(&self) -> (b: bool)
        ensures
            b == self.spec_is_command(),
    {
        matches!(
            self,
            ProtocolMessage::StartPrint(_) | ProtocolMessage::PausePrint(_)
                | ProtocolMessage::ResumePrint | ProtocolMessage::CancelPrint
                | ProtocolMessage::EmergencyStop | ProtocolMessage::AdjustParameter(_)
        )
    }

    /// The message reports status.
    pub open spec fn spec_is_status(&self) -> bool {
        self is StatusUpdate || self is ThermalUpdate || self is PressureUpdate
            || self is ValveStateUpdate
    }

    /// Returns true if this is a status message.
    pub fn is_status(&self) -> (b: bool)
        ensures
            b == self.spec_is_status(),
    {
        matches!(
            self,
            ProtocolMessage::StatusUpdate(_) | ProtocolMessage::ThermalUpdate(_)
                | ProtocolMessage::PressureUpdate(_) | ProtocolMessage::ValveStateUpdate(_)
        )
    }
}

/// No message is both a command and a status report.
pub proof fn lemma_command_or_status(m: ProtocolMessage)
    ensures
        !(m.spec_is_command() && m.spec_is_status()),
{
}

/// A fault of the protocol.
#[derive(Debug, Clone, PartialEq, Eq)]
pub enum ProtocolError {
    ConnectionError(String),
    SerializationError(String),
    DeserializationError(String),
    ValidationError(String),
    /// The size of the message, then the maximum.
    MessageTooLarge(usize, usize),
    Timeout(String),
    Io(String),
    Other(String),
}

/// Why a message is invalid, if it is: a request to start a job must name
/// a file.
pub open spec fn spec_invalid(msg: &ProtocolMessage) -> Option<Seq<char>> {
    match msg {
        ProtocolMessage::StartPrint(cmd) => if cmd.file_path@.len() == 0 {
            Some("file_path cannot be empty"@)
        } else {
            None
        },
        _ => None,
    }
}

/// Validates the structure and content of a message.
pub fn validate_message(msg: &ProtocolMessage) -> (r: Result<(), ProtocolError>)
    ensures
        match spec_invalid(msg) {
            Some(reason) => r matches Err(ProtocolError::ValidationError(m)) && m@ == reason,
            None => r is Ok,
        },
{
    match msg {
        ProtocolMessage::StartPrint(cmd) => {
            if cmd.file_path.as_str().unicode_len() == 0 {
                return Err(
                    ProtocolError::ValidationError(String::from_str("file_path cannot be empty")),
                );
            }
        },
        _ => {},
    }
    Ok(())
}

/// Checks the size of an encoded message against the maximum.
pub fn check_message_size(len: usize) -> (r: Result<(), ProtocolError>)
    ensures
        len <= MAX_MESSAGE_SIZE ==> r is Ok,
        len > MAX_MESSAGE_SIZE ==> r == Err::<(), ProtocolError>(
            ProtocolError::MessageTooLarge(len, MAX_MESSAGE_SIZE),
        ),
{
    if len > MAX_MESSAGE_SIZE {
        Err(ProtocolError::MessageTooLarge(len, MAX_MESSAGE_SIZE))
    } else {
        Ok(())
    }
}

/// Creates a status update from its components; the progress is computed
/// from the two layer counts.
pub fn create_status_update(
    state: &str,
    current_layer: u32,
    total_layers: u32,
    z_position: i64,
    elapsed_secs: u64,
    remaining_secs: u64,
) -> (m: ProtocolMessage)
    ensures
        m matches ProtocolMessage::StatusUpdate(u) && {
            &&& u.state@ == state@
            &&& u.current_layer == current_layer
            &&& u.total_layers == total_layers
            &&& u.z_position == z_position
            &&& u.progress_percent as int == crate::firmware::state::spec_progress(
                current_layer,
                total_layers,
            )
            &&& u.elapsed_time == elapsed_secs
            &&& u.estimated_remaining == remaining_secs
        },
{
    ProtocolMessage::StatusUpdate(
        StatusUpdate {
            state: String::from_str(state),
            current_layer,
            total_layers,
            z_position,
            progress_percent: crate::firmware::state::progress_of(current_layer, total_layers),
            elapsed_time: elapsed_secs,
            estimated_remaining: remaining_secs,
        },
    )
}

/// The zone that a triple of id, current and target stands for.
pub open spec fn spec_zone(t: (u8, i64, i64)) -> ThermalZone {
    ThermalZone { id: t.0, current: t.1, target: t.2 }
}

/// Creates a thermal update from zone readings, given as id, current and
/// target; the optional readings are absent.
pub fn create_thermal_update(zones: Vec<(u8, i64, i64)>) -> (m: ProtocolMessage)
    ensures
        m matches ProtocolMessage::ThermalUpdate(u) && {
            &&& u.zones@ == zones@.map_values(|t: (u8, i64, i64)| spec_zone(t))
            &&& u.manifold.is_none()
            &&& u.bed.is_none()
            &&& u.chamber.is_none()
        },
{
    let mut out: Vec<ThermalZone> = Vec::new();
    let mut i: usize = 0;
    while i < zones.len()
        invariant
            i <= zones@.len(),
            out@ == zones@.take(i as int).map_values(|t: (u8, i64, i64)| spec_zone(t)),
        decreases zones@.len() - i,
    {
        let t = zones[i];
        out.push(ThermalZone { id: t.0, current: t.1, target: t.2 });
        assert(out@ =~= zones@.take(i as int + 1).map_values(|t: (u8, i64, i64)| spec_zone(t)));
        i = i + 1;
    }
    assert(zones@.take(i as int) =~= zones@);
    ProtocolMessage::ThermalUpdate(
        ThermalUpdate { zones: out, manifold: None, bed: None, chamber: None },
    )
}

/// Creates an error event without affected systems or recommended action.
pub fn create_error_event(severity: ErrorSeverity, code: &str, message: &str) -> (m:
    ProtocolMessage)
    ensures
        m matches ProtocolMessage::ErrorEvent(e) && {
            &&& e.severity == severity
            &&& e.code@ == code@
            &&& e.message@ == message@
            &&& e.affected_systems@.len() == 0
            &&& e.recommended_action.is_none()
        },
{
    ProtocolMessage::ErrorEvent(
        ErrorEvent {
            severity,
            code: String::from_str(code),
            message: String::from_str(message),
            affected_systems: Vec::new(),
            recommended_action: None,
        },
    )
}

/// The severity of the protocol that stands for a severity of the engine.
pub open spec fn spec_severity(s: FaultSeverity) -> ErrorSeverity {
    match s {
        FaultSeverity::Info => ErrorSeverity::Info,
        FaultSeverity::Warning => ErrorSeverity::Warning,
        FaultSeverity::Error => ErrorSeverity::Error,
        FaultSeverity::Critical => ErrorSeverity::Critical,
    }
}

fn copy_texts(texts: &Vec<String>) -> (out: Vec<String>)
    ensures
        out.deep_view() == texts.deep_view(),
{
    let mut out: Vec<String> = Vec::new();
    let mut i: usize = 0;
    while i < texts.len()
        invariant
            i <= texts@.len(),
            out@.len() == i,
            forall|j: int| 0 <= j < i ==> out@[j]@ == texts@[j]@,
        decreases texts@.len() - i,
    {
        out.push(String::from_str(texts[i].as_str()));
        i = i + 1;
    }
    assert(out.deep_view() =~= texts.deep_view());
    out
}

/// The error event that announces a recorded fault: severity, code,
/// message and affected systems are those of the fault, and the
/// recommended action is its recovery action.
pub fn error_event_of(error: &SystemError) -> (m: ProtocolMessage)
    ensures
        m matches ProtocolMessage::ErrorEvent(e) && {
            &&& e.severity == spec_severity(error.severity)
            &&& e.code@ == error.code@
            &&& e.message@ == error.message@
            &&& e.affected_systems.deep_view() == error@.affected_systems
            &&& match e.recommended_action {
                Some(a) => error@.recovery_action == Some(a@),
                None => error@.recovery_action.is_none(),
            }
        },
{
    let severity = match error.severity {
        FaultSeverity::Info => ErrorSeverity::Info,
        FaultSeverity::Warning => ErrorSeverity::Warning,
        FaultSeverity::Error => ErrorSeverity::Error,
        FaultSeverity::Critical => ErrorSeverity::Critical,
    };
    ProtocolMessage::ErrorEvent(
        ErrorEvent {
            severity,
            code: String::from_str(error.code.as_str()),
            message: String::from_str(error.message.as_str()),
            affected_systems: copy_texts(&error.affected_systems),
            recommended_action: match &error.recovery_action {
                Some(a) => Some(String::from_str(a.as_str())),
                None => None,
            },
        },
    )
}

/// The status update that a snapshot gives rise to: none without a job;
/// otherwise the name of the mode, the progress of the job, and the times
/// in whole seconds.
pub fn status_update_of(state: &SystemState) -> (m: Option<ProtocolMessage>)
    ensures
        state@.print_status.is_none() ==> m.is_none(),
        state@.print_status is Some ==> (m matches Some(ProtocolMessage::StatusUpdate(u)) && {
            let p = state@.print_status->Some_0;
            &&& u.state@ == state@.firmware_state.spec_name()
            &&& u.current_layer == p.current_layer
            &&& u.total_layers == p.total_layers
            &&& u.z_position == p.z_position
            &&& u.progress_percent as int == crate::firmware::state::spec_progress(
                p.current_layer,
                p.total_layers,
            )
            &&& u.elapsed_time == p.elapsed_time / 1000
            &&& u.estimated_remaining == p.estimated_remaining / 1000
        }),
{
    match &state.print_status {
        Some(p) => Some(
            create_status_update(
                state.firmware_state.name(),
                p.current_layer,
                p.total_layers,
                p.z_position,
                p.elapsed_time / 1000,
                p.estimated_remaining / 1000,
            ),
        ),
        None => None,
    }
}

/// The zones of a map of readings with an id below `k`, in ascending
/// order of their ids.
pub open spec fn spec_zones_below(zones: Map<u8, Reading>, k: int) -> Seq<ThermalZone>
    decreases k,
{
    if k <= 0 {
        Seq::empty()
    } else {
        spec_zones_below(zones, k - 1) + (if zones.contains_key((k - 1) as u8) {
            seq![
                ThermalZone {
                    id: (k - 1) as u8,
                    current: zones[(k - 1) as u8].0,
                    target: zones[(k - 1) as u8].1,
                },
            ]
        } else {
            Seq::empty()
        })
    }
}

/// An optional reading as the protocol carries it.
pub open spec fn spec_reading(r: Option<Reading>) -> Option<ThermalReading> {
    match r {
        Some(p) => Some(ThermalReading { current: p.0, target: p.1 }),
        None => None,
    }
}

fn reading_of(r: &Option<Reading>) -> (t: Option<ThermalReading>)
    ensures
        t == spec_reading(*r),
{
    match r {
        Some(p) => Some(ThermalReading { current: p.0, target: p.1 }),
        None => None,
    }
}

/// The thermal update that a snapshot gives rise to: every zone in
/// ascending order of the zone ids, and the optional readings.
pub fn thermal_update_of(state: &SystemState) -> (m: ProtocolMessage)
    ensures
        m matches ProtocolMessage::ThermalUpdate(u) && {
            &&& u.zones@ == spec_zones_below(state@.thermal.zones, 256)
            &&& u.manifold == spec_reading(state@.thermal.manifold)
            &&& u.bed == spec_reading(state@.thermal.bed)
            &&& u.chamber == spec_reading(state@.thermal.chamber)
        },
{
    let mut zones: Vec<ThermalZone> = Vec::new();
    let mut k: u16 = 0;
    while k < 256
        invariant
            k <= 256,
            zones@ == spec_zones_below(state@.thermal.zones, k as int),
        decreases 256 - k,
    {
        let key: u8 = k as u8;
        match state.thermal.zones.get(&key) {
            Some(r) => {
                zones.push(ThermalZone { id: key, current: r.0, target: r.1 });
            },
            None => {},
        }
        k = k + 1;
    }
    ProtocolMessage::ThermalUpdate(
        ThermalUpdate {
            zones,
            manifold: reading_of(&state.thermal.manifold),
            bed: reading_of(&state.thermal.bed),
            chamber: reading_of(&state.thermal.chamber),
        },
    )
}

/// What became of a message that was published.
#[derive(Debug, Clone, Copy, PartialEq, Eq, Structural)]
pub enum Published {
    /// The message was added to the queue.
    Queued,
    /// The queue was full: the message took the place of the latest status
    /// message in it.
    Coalesced,
    /// The queue was full and held nothing to replace: the message was
    /// dropped.
    Dropped,
}

/// The position of the latest status message among the first `n` messages
/// of a queue.
pub open spec fn spec_latest_status(queue: Seq<ProtocolMessage>, n: int) -> Option<int>
    decreases n,
{
    if n <= 0 || n > queue.len() {
        None
    } else if queue[n - 1].spec_is_status() {
        Some(n - 1)
    } else {
        spec_latest_status(queue, n - 1)
    }
}

/// An outbound queue that never blocks its publisher.
#[derive(Debug, Clone)]
pub struct MessageBroker {
    capacity: usize,
    queue: Vec<ProtocolMessage>,
}

impl MessageBroker {
    /// The messages that wait, oldest first.
    pub closed spec fn pending(&self) -> Seq<ProtocolMessage> {
        self.queue@
    }

    /// The number of messages that the queue holds at most.
    pub closed spec fn limit(&self) -> usize {
        self.capacity
    }

    /// An empty queue for 64 messages.
    pub fn new() -> (b: Self)
        ensures
            b.pending().len() == 0,
            b.limit() == 64,
    {
        Self { capacity: 64, queue: Vec::new() }
    }

    /// An empty queue for `capacity` messages.
    pub fn with_capacity(capacity: usize) -> (b: Self)
        ensures
            b.pending().len() == 0,
            b.limit() == capacity,
    {
        Self { capacity, queue: Vec::new() }
    }

    /// Number of messages that wait.
    pub fn len(&self) -> (n: usize)
        ensures
            n == self.pending().len(),
    {
        self.queue.len()
    }

    /// Publishes a message without ever waiting. While there is room the
    /// message is queued. When the queue is full, a status message takes
    /// the place of the latest status message that waits, so that the
    /// latest snapshot is kept; any other message, and a status message
    /// when no status message waits, is dropped.
    pub fn publish(&mut self, msg: ProtocolMessage) -> (p: Published)
        ensures
            final(self).limit() == old(self).limit(),
            old(self).pending().len() < old(self).limit() ==> p == Published::Queued && final(self).pending() == old(self).pending().push(msg),
            old(self).pending().len() >= old(self).limit() ==> match spec_latest_status(
                old(self).pending(),
                old(self).pending().len() as int,
            ) {
                Some(i) => if msg.spec_is_status() {
                    p == Published::Coalesced && final(self).pending() == old(self).pending().update(i, msg)
                } else {
                    p == Published::Dropped && final(self).pending() == old(self).pending()
                },
                None => p == Published::Dropped && final(self).pending() == old(self).pending(),
            },
    {
        if self.queue.len() < self.capacity {
            self.queue.push(msg);
            return Published::Queued;
        }
        if !msg.is_status() {
            return Published::Dropped;
        }
        let mut n: usize = self.queue.len();
        while n > 0
            invariant
                n <= self.queue@.len(),
                self.queue@ == old(self).queue@,
                self.capacity == old(self).capacity,
                self.queue@.len() >= self.capacity,
                msg.spec_is_status(),
                spec_latest_status(self.queue@, self.queue@.len() as int) == spec_latest_status(
                    self.queue@,
                    n as int,
                ),
            decreases n,
        {
            if self.queue[n - 1].is_status() {
                assert(spec_latest_status(self.queue@, n as int) == Some(n as int - 1));
                self.queue.set(n - 1, msg);
                return Published::Coalesced;
            }
            n = n - 1;
        }
        Published::Dropped
    }

    /// Takes the oldest message that waits.
    pub fn take(&mut self) -> (m: Option<ProtocolMessage>)
        ensures
            final(self).limit() == old(self).limit(),
            old(self).pending().len() == 0 ==> m.is_none() && final(self).pending() == old(self).pending(),
            old(self).pending().len() > 0 ==> m == Some(old(self).pending()[0]) && final(self).pending() == old(self).pending().skip(1),
    {
        if self.queue.len() == 0 {
            None
        } else {
            let m = self.queue.remove(0);
            assert(self.queue@ =~= old(self).queue@.skip(1));
            Some(m)
        }
    }
}

/// Moves messages as raw bytes.
pub trait MessageTransport {
    /// Sends raw bytes.
    fn send_bytes(&mut self, data: &[u8]) -> Result<(), ProtocolError>;

    /// Receives raw bytes.
    fn recv_bytes(&mut self) -> Result<Vec<u8>, ProtocolError>;

    /// Tells whether the transport is connected.
    fn is_connected(&self) -> bool;
}

} // verus!

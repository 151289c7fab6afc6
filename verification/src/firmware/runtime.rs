//! The settings with which the engine runs.

use vstd::prelude::*;
use crate::config_types::PrinterConfig;
use crate::firmware::error::{FaultKind, FirmwareError, FirmwareErrorView};

verus! {

/// Complete runtime configuration.
#[derive(Debug, Clone)]
pub struct RuntimeConfig {
    /// The printer.
    pub printer_config: PrinterConfig,
    /// WebSocket server port.
    pub websocket_port: u16,
    /// REST server port.
    pub api_port: u16,
    /// Whether the network interfaces are enabled.
    pub network_enabled: bool,
    /// Whether the engine runs without hardware.
    pub simulation_mode: bool,
    /// Directory of the job files.
    pub print_directory: String,
}

impl RuntimeConfig {
    /// Validates the runtime configuration: the two servers cannot share
    /// a port.
    pub fn validate(&self) -> (r: Result<(), FirmwareError>)
        ensures
            self.websocket_port != self.api_port ==> r is Ok,
            self.websocket_port == self.api_port ==> r is Err && r->Err_0@ == (FirmwareErrorView {
                kind: FaultKind::Other,
                detail: "WebSocket and API ports cannot be the same"@,
            }),
    {
        if self.websocket_port == self.api_port {
            Err(FirmwareError::Other(String::from_str("WebSocket and API ports cannot be the same")))
        } else {
            Ok(())
        }
    }
}

} // verus!

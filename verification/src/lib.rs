//! Control software for a valve-array printer: the shared data model, the
//! command scheduler, the print executor and the safety supervisor, all
//! stated over fixed-point quantities and proved against their contracts.
//!
//! Every physical quantity is an `i64` in thousandths of its base unit
//! (micrometres, millidegrees Celsius, milli-PSI, thousandths of a percent),
//! unless a field's documentation names another unit.

pub mod checksum;
pub mod config_types;
pub mod firmware;
pub mod gcode_text;
pub mod gcode_types;
pub mod layer_codec;
pub mod protocol;
pub mod slicer;
pub mod units;
pub mod wire;

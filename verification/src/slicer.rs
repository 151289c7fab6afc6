//! What the slicer shares with the engine: command builders, reports of
//! validation, mesh indices and the job file.

pub mod commands;
pub mod config_report;
pub mod job_file;
pub mod mesh;
pub mod report;
pub mod slicing;

pub use commands::{CommandBuilder, G4DBuilder, MaterialCommandBuilder};
pub use mesh::{MeshFormat, MeshLoadError, MeshUnits};
pub use report::ValidationReport;
pub use slicing::{GridAlignedMapper, RoundingMode, SlicePhase, SlicerConfig, SlicerError};

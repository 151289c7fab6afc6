//! Phases, settings and faults of a slicing run.

use vstd::prelude::*;
use sha2::{Digest, Sha256};
use crate::config_types::BuildVolume;
use crate::gcode_types::GridCoordinate;

verus! {

/// Supported version of the job file format.
pub const HG4D_FORMAT_VERSION: u32 = 1;

/// Magic number of job files: the ASCII text `HG4D`.
pub const HG4D_MAGIC: u32 = 0x48473444;

/// Phases of the slicing process.
#[derive(Debug, Clone, Copy, PartialEq, Eq, Structural)]
pub enum SlicePhase {
    LoadingModel,
    ValidatingGeometry,
    GeneratingLayers,
    MappingValves,
    OptimizingRouting,
    CalculatingPressure,
    GeneratingGCode,
    WritingOutput,
}

impl SlicePhase {
    /// What the phase does, in words.
    pub open spec fn spec_description(&self) -> Seq<char> {
        match self {
            SlicePhase::LoadingModel => "Loading 3D model"@,
            SlicePhase::ValidatingGeometry => "Validating geometry"@,
            SlicePhase::GeneratingLayers => "Generating layers"@,
            SlicePhase::MappingValves => "Mapping to valve grid"@,
            SlicePhase::OptimizingRouting => "Optimizing material routing"@,
            SlicePhase::CalculatingPressure => "Simulating pressure distribution"@,
            SlicePhase::GeneratingGCode => "Generating G-code"@,
            SlicePhase::WritingOutput => "Writing output file"@,
        }
    }

    /// Returns what the phase does, in words.
    pub fn description(&self) -> (d: &'static str)
        ensures
            d@ == self.spec_description(),
    {
        match self {
            SlicePhase::LoadingModel => "Loading 3D model",
            SlicePhase::ValidatingGeometry => "Validating geometry",
            SlicePhase::GeneratingLayers => "Generating layers",
            SlicePhase::MappingValves => "Mapping to valve grid",
            SlicePhase::OptimizingRouting => "Optimizing material routing",
            SlicePhase::CalculatingPressure => "Simulating pressure distribution",
            SlicePhase::GeneratingGCode => "Generating G-code",
            SlicePhase::WritingOutput => "Writing output file",
        }
    }
}

/// Settings of the slicer beyond the printer configuration.
#[derive(Debug, Clone, Copy, PartialEq, Eq, Structural)]
pub struct SlicerConfig {
    /// Number of worker threads.
    pub worker_threads: usize,
    /// Whether to validate by pressure simulation.
    pub enable_pressure_simulation: bool,
    /// Whether to optimize the routing.
    pub enable_routing_optimization: bool,
    /// Number of optimization iterations.
    pub optimization_iterations: u32,
    /// Compression level of the output, from 0 to 9.
    pub compression_level: u32,
}

impl SlicerConfig {
    /// The default settings for a machine with `worker_threads` processors.
    pub fn with_threads(worker_threads: usize) -> (c: Self)
        ensures
            c == (SlicerConfig {
                worker_threads,
                enable_pressure_simulation: true,
                enable_routing_optimization: true,
                optimization_iterations: 100,
                compression_level: 6,
            }),
    {
        Self {
            worker_threads,
            enable_pressure_simulation: true,
            enable_routing_optimization: true,
            optimization_iterations: 100,
            compression_level: 6,
        }
    }
}

/// A single active valve node.
#[derive(Debug, Clone)]
pub struct ActiveNode {
    pub position: GridCoordinate,
    pub material_channel: u8,
    /// The valves that must be open.
    pub required_valves: Vec<u8>,
}

/// A path that material takes through the network.
#[derive(Debug, Clone)]
pub struct RoutingPath {
    pub from: GridCoordinate,
    pub to: GridCoordinate,
    pub intermediate_nodes: Vec<GridCoordinate>,
    /// Position and valve id of each valve on the path.
    pub valve_sequence: Vec<(GridCoordinate, u8)>,
}

/// Timing of a layer, in milliseconds.
#[derive(Debug, Clone, Copy, PartialEq, Eq, Structural)]
pub struct LayerTiming {
    pub valve_switching_time: u64,
    pub deposition_time: u64,
    pub total_time: u64,
}

/// A fault of a slicing run.
#[derive(Debug, Clone, PartialEq, Eq)]
pub enum SlicerError {
    ModelLoad(String),
    InvalidGeometry(String),
    LayerGeneration(String),
    ValveMapping(String),
    RoutingOptimization(String),
    PressureSimulation(String),
    GCodeGeneration(String),
    OutputWrite(String),
    Configuration(String),
    BuildVolumeExceeded(String),
    MaterialIncompatibility(String),
    Io(String),
    Other(String),
}

/// Number of layers of a height: the height divided by the layer height,
/// rounded up and held at `u32::MAX`; zero unless both are positive.
pub open spec fn spec_layer_count(total_height: i64, layer_height: i64) -> int {
    crate::config_types::spec_grid_count(total_height, layer_height)
}

/// Converts a layer thickness to the number of layers of a given height,
/// both in micrometres.
pub fn calculate_layer_count(total_height: i64, layer_height: i64) -> (n: u32)
    ensures
        n as int == spec_layer_count(total_height, layer_height),
{
    if total_height <= 0 || layer_height <= 0 {
        0
    } else {
        let n: i128 = (total_height as i128 + layer_height as i128 - 1) / (layer_height as i128);
        if n > u32::MAX as i128 {
            u32::MAX
        } else {
            n as u32
        }
    }
}

/// Validates that a point is within the build volume.
pub fn point_in_build_volume(x: i64, y: i64, z: i64, build_volume: &BuildVolume) -> (b: bool)
    ensures
        b == build_volume.spec_contains_point(x, y, z),
{
    build_volume.contains_point(x, y, z)
}

/// The SHA-256 digest that the `sha2` crate computes of a run of bytes.
pub uninterp spec fn sha256(data: Seq<u8>) -> Seq<u8>;

/// `Sha256::digest` of `sha2`: the digest depends on the bytes alone.
#[verifier::external_body]
fn sha256_of(data: &[u8]) -> (hash: [u8; 32])
    ensures
        hash@ == sha256(data@),
{
    Sha256::digest(data).into()
}

/// Calculates the SHA-256 hash of a serialized printer configuration, for
/// the metadata of a job file.
pub fn hash_printer_config(serialized: &[u8]) -> (hash: [u8; 32])
    ensures
        hash@ == sha256(serialized@),
{
    sha256_of(serialized)
}

/// `num_cpus::get`: the number of processors that this process may use.
/// Nothing is claimed of the number: it depends on the machine.
#[verifier::external_body]
fn processor_count() -> usize {
    num_cpus::get()
}

impl Default for SlicerConfig {
    /// The default settings, with one worker thread for each processor.
    fn default() -> (c: Self)
        ensures
            c == (SlicerConfig {
                worker_threads: c.worker_threads,
                enable_pressure_simulation: true,
                enable_routing_optimization: true,
                optimization_iterations: 100,
                compression_level: 6,
            }),
    {
        Self::with_threads(processor_count())
    }
}

/// How a physical position is brought onto the grid.
#[derive(Debug, Clone, Copy, PartialEq, Eq, Structural)]
pub enum RoundingMode {
    /// To the nearest grid point, halves upwards.
    Nearest,
    /// Towards the origin.
    Inside,
    /// Away from the origin.
    Outside,
}

/// The grid index of a position along one axis: the position divided by
/// the spacing and rounded as the mode says, zero for a position below
/// zero or a spacing of zero or less, and held at `u32::MAX`.
pub open spec fn spec_grid_index(mode: RoundingMode, position: i64, spacing: i64) -> int {
    if position <= 0 || spacing <= 0 {
        0
    } else {
        let q = match mode {
            RoundingMode::Nearest => (2 * position as int + spacing as int) / (2 * spacing as int),
            RoundingMode::Inside => position as int / spacing as int,
            RoundingMode::Outside => (position as int + spacing as int - 1) / (spacing as int),
        };
        if q > u32::MAX {
            u32::MAX as int
        } else {
            q
        }
    }
}

/// Snaps geometry to the points of the valve grid.
#[derive(Debug, Clone, Copy, PartialEq, Eq, Structural)]
pub struct GridAlignedMapper {
    /// How positions are rounded.
    pub rounding_mode: RoundingMode,
}

impl GridAlignedMapper {
    /// A mapper that rounds as `mode` says.
    pub fn new(mode: RoundingMode) -> (m: Self)
        ensures
            m.rounding_mode == mode,
    {
        Self { rounding_mode: mode }
    }

    fn index(&self, position: i64, spacing: i64) -> (i: u32)
        ensures
            i as int == spec_grid_index(self.rounding_mode, position, spacing),
    {
        if position <= 0 || spacing <= 0 {
            return 0;
        }
        let p: i128 = position as i128;
        let s: i128 = spacing as i128;
        let q: i128 = match self.rounding_mode {
            RoundingMode::Nearest => (2 * p + s) / (2 * s),
            RoundingMode::Inside => p / s,
            RoundingMode::Outside => (p + s - 1) / s,
        };
        if q > u32::MAX as i128 {
            u32::MAX
        } else {
            q as u32
        }
    }

    /// Converts a physical position in micrometres to grid coordinates,
    /// for a grid spacing in micrometres.
    pub fn to_grid_coord(&self, x: i64, y: i64, spacing: i64) -> (g: GridCoordinate)
        ensures
            g.x as int == spec_grid_index(self.rounding_mode, x, spacing),
            g.y as int == spec_grid_index(self.rounding_mode, y, spacing),
    {
        GridCoordinate { x: self.index(x, spacing), y: self.index(y, spacing) }
    }
}

} // verus!

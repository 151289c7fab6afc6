//! Printer and material configuration.

use vstd::prelude::*;
use crate::units::{push_decimal, push_fixed3, spec_decimal, spec_fixed3};

verus! {

/// Valve technology of the array.
#[derive(Debug, Clone, Copy, PartialEq, Eq, Structural)]
pub enum ValveType {
    PneumaticSolenoid,
    Piezoelectric,
    Electromagnetic,
    Microfluidic,
}

/// Material injection point on the valve plane.
#[derive(Debug, Clone, Copy, PartialEq, Eq, Structural)]
pub struct InjectionPoint {
    /// Identifier of the injection point.
    pub id: u8,
    /// X position on the valve plane, in micrometres.
    pub x: i64,
    /// Y position on the valve plane, in micrometres.
    pub y: i64,
    /// Material channel that the point feeds.
    pub material_channel: u8,
}

/// Valve array configuration.
#[derive(Debug, Clone)]
pub struct ValveArrayConfig {
    /// Spacing between valve grid points, in micrometres.
    pub grid_spacing: i64,
    /// Total number of valve nodes (X count × Y count).
    pub total_nodes: u32,
    /// Number of valves per node.
    pub valves_per_node: u8,
    /// Valve technology.
    pub valve_type: ValveType,
    /// Valve response time, in microseconds.
    pub response_time_ms: i64,
    /// Dead volume per valve, in thousandths of a cubic millimetre.
    pub dead_volume: i64,
    /// Maximum valve switching frequency, in millihertz.
    pub max_switching_freq: i64,
    /// Material injection points.
    pub injection_points: Vec<InjectionPoint>,
}

/// Safety limits for all monitored parameters.
#[derive(Debug, Clone, Copy, PartialEq, Eq, Structural)]
pub struct SafetyLimits {
    /// Maximum allowed temperature anywhere, in millidegrees Celsius.
    pub max_temperature: i64,
    /// Maximum allowed pressure, in milli-PSI.
    pub max_pressure: i64,
    /// Maximum valve switching rate, in millihertz.
    pub max_valve_rate: i64,
    /// Maximum Z-axis speed, in micrometres per second.
    pub max_z_speed: i64,
    /// Thermal runaway threshold, in millidegrees Celsius per second.
    pub thermal_runaway_rate: i64,
    /// Pressure fault threshold, as a deviation in milli-PSI.
    pub pressure_fault_threshold: i64,
}

/// Printer model variants.
#[derive(Debug, Clone, Copy, PartialEq, Eq, Structural)]
pub enum PrinterModel {
    HyperCubeMini,
    HyperCubeStandard,
    HyperCubePro,
    HyperCubeIndustrial,
    Custom,
}

impl PrinterModel {
    /// The human-readable name of the model.
    pub open spec fn spec_name(&self) -> Seq<char> {
        match self {
            PrinterModel::HyperCubeMini => "HyperCube-4D Mini"@,
            PrinterModel::HyperCubeStandard => "HyperCube-4D Standard"@,
            PrinterModel::HyperCubePro => "HyperCube-4D Pro"@,
            PrinterModel::HyperCubeIndustrial => "HyperCube-4D Industrial"@,
            PrinterModel::Custom => "Custom HyperGCode-4D Printer"@,
        }
    }

    /// Returns the human-readable name of the model.
    pub fn name(&self) -> (n: &'static str)
        ensures
            n@ == self.spec_name(),
    {
        match self {
            PrinterModel::HyperCubeMini => "HyperCube-4D Mini",
            PrinterModel::HyperCubeStandard => "HyperCube-4D Standard",
            PrinterModel::HyperCubePro => "HyperCube-4D Pro",
            PrinterModel::HyperCubeIndustrial => "HyperCube-4D Industrial",
            PrinterModel::Custom => "Custom HyperGCode-4D Printer",
        }
    }
}

/// Build volume dimensions, in micrometres.
#[derive(Debug, Clone, Copy, PartialEq, Eq, Structural)]
pub struct BuildVolume {
    /// Maximum X dimension.
    pub x: i64,
    /// Maximum Y dimension.
    pub y: i64,
    /// Maximum Z dimension.
    pub z: i64,
    /// Margin of the printable area from the edges.
    pub margin: i64,
}

/// A difference that is held at zero from below.
pub open spec fn spec_positive_part(v: int) -> int {
    if v > 0 {
        v
    } else {
        0
    }
}

fn positive_part(v: i128) -> (r: i64)
    requires
        v <= i64::MAX,
    ensures
        r as int == spec_positive_part(v as int),
{
    if v > 0 {
        v as i64
    } else {
        0
    }
}

impl BuildVolume {
    /// A build volume with the default margin of five millimetres.
    pub fn new(x: i64, y: i64, z: i64) -> (v: Self)
        ensures
            v == (BuildVolume { x, y, z, margin: 5000 }),
    {
        Self { x, y, z, margin: 5000 }
    }

    /// The extent that can be used: the margin is taken off both sides in X
    /// and Y and off the top in Z; no extent is negative, and none exceeds
    /// the range of `i64`.
    pub open spec fn spec_usable_volume(self) -> (int, int, int) {
        (
            crate::gcode_types::spec_clamp_i64(
                spec_positive_part(self.x as int - 2 * self.margin as int),
            ),
            crate::gcode_types::spec_clamp_i64(
                spec_positive_part(self.y as int - 2 * self.margin as int),
            ),
            crate::gcode_types::spec_clamp_i64(spec_positive_part(self.z as int - self.margin as int)),
        )
    }

    /// Returns the usable build volume, accounting for the margins.
    pub fn usable_volume(&self) -> (u: (i64, i64, i64))
        ensures
            (u.0 as int, u.1 as int, u.2 as int) == self.spec_usable_volume(),
    {
        let m2: i128 = 2 * self.margin as i128;
        let ux: i128 = self.x as i128 - m2;
        let uy: i128 = self.y as i128 - m2;
        let uz: i128 = self.z as i128 - self.margin as i128;
        (limit(ux), limit(uy), limit(uz))
    }

    /// The point lies within the margins in X and Y and between the build
    /// plate and the top in Z.
    pub open spec fn spec_contains_point(self, x: i64, y: i64, z: i64) -> bool {
        &&& x >= self.margin
        &&& x as int <= self.x as int - self.margin as int
        &&& y >= self.margin
        &&& y as int <= self.y as int - self.margin as int
        &&& z >= 0
        &&& z <= self.z
    }

    /// Checks if a point is within the build volume.
    pub fn contains_point(&self, x: i64, y: i64, z: i64) -> (b: bool)
        ensures
            b == self.spec_contains_point(x, y, z),
    {
        x >= self.margin && x as i128 <= self.x as i128 - self.margin as i128 && y >= self.margin
            && y as i128 <= self.y as i128 - self.margin as i128 && z >= 0 && z <= self.z
    }
}

fn limit(v: i128) -> (r: i64)
    ensures
        r as int == crate::gcode_types::spec_clamp_i64(spec_positive_part(v as int)),
{
    if v > i64::MAX as i128 {
        i64::MAX
    } else if v > 0 {
        v as i64
    } else {
        0
    }
}

/// PID control parameters, in thousandths.
#[derive(Debug, Clone, Copy, PartialEq, Eq, Structural)]
pub struct PidParameters {
    /// Proportional gain.
    pub kp: i64,
    /// Integral gain.
    pub ki: i64,
    /// Derivative gain.
    pub kd: i64,
}

impl Default for PidParameters {
    fn default() -> (p: Self)
        ensures
            p == (PidParameters { kp: 20_000, ki: 500, kd: 100_000 }),
    {
        Self { kp: 20_000, ki: 500, kd: 100_000 }
    }
}

/// Configuration of one thermal zone.
#[derive(Debug, Clone)]
pub struct ThermalZone {
    /// Zone identifier.
    pub id: u8,
    /// Name of the zone.
    pub name: String,
    /// Minimum safe temperature, in millidegrees Celsius.
    pub min_temp: i64,
    /// Maximum safe temperature, in millidegrees Celsius.
    pub max_temp: i64,
    /// Heating power, in milliwatts.
    pub power_watts: i64,
    /// PID tuning.
    pub pid: PidParameters,
}

/// Heated manifold configuration.
#[derive(Debug, Clone, Copy, PartialEq, Eq, Structural)]
pub struct ManifoldHeating {
    /// Heater power, in milliwatts.
    pub power_watts: i64,
    /// Minimum temperature, in millidegrees Celsius.
    pub min_temp: i64,
    /// Maximum temperature, in millidegrees Celsius.
    pub max_temp: i64,
    /// PID tuning.
    pub pid: PidParameters,
}

/// Build chamber heating configuration.
#[derive(Debug, Clone, Copy, PartialEq, Eq, Structural)]
pub struct ChamberHeating {
    /// Heater power, in milliwatts.
    pub power_watts: i64,
    /// Maximum chamber temperature, in millidegrees Celsius.
    pub max_temp: i64,
    /// Whether chamber heating is required for operation.
    pub required: bool,
}

/// Thermal management configuration.
#[derive(Debug, Clone)]
pub struct ThermalConfig {
    /// Heating zones.
    pub zones: Vec<ThermalZone>,
    /// Heated manifold, if any.
    pub manifold: Option<ManifoldHeating>,
    /// Build chamber heating, if any.
    pub chamber: Option<ChamberHeating>,
}

/// Kind of extruder.
#[derive(Debug, Clone, Copy, PartialEq, Eq, Structural)]
pub enum ExtruderType {
    DirectDrive,
    Bowden,
    Geared,
}

/// Configuration of one extruder.
#[derive(Debug, Clone, Copy, PartialEq, Eq, Structural)]
pub struct ExtruderConfig {
    /// Extruder identifier.
    pub id: u8,
    /// Material channel that the extruder feeds.
    pub material_channel: u8,
    /// Kind of extruder.
    pub extruder_type: ExtruderType,
    /// Steps per millimetre of filament, in thousandths.
    pub steps_per_mm: i64,
    /// Maximum extrusion rate, in thousandths of a cubic millimetre per
    /// second.
    pub max_flow_rate: i64,
    /// Filament diameter, in micrometres.
    pub filament_diameter: i64,
}

/// How the pressure is regulated.
#[derive(Debug, Clone, Copy, PartialEq, Eq, Structural)]
pub enum PressureRegulationType {
    Pneumatic,
    Hydraulic,
    PedalFilament,
}

/// A closed range of a quantity, lowest value first.
#[derive(Debug, Clone, Copy, PartialEq, Eq, Structural)]
pub struct Span {
    pub low: i64,
    pub high: i64,
}

/// A pressure sensor.
#[derive(Debug, Clone)]
pub struct PressureSensor {
    pub id: u8,
    pub location: String,
    /// Range in milli-PSI.
    pub range_psi: Span,
    /// Accuracy in thousandths of a percent.
    pub accuracy_percent: i64,
}

/// Pressure system configuration.
#[derive(Debug, Clone)]
pub struct PressureConfig {
    /// Minimum operating pressure, in milli-PSI.
    pub min_pressure: i64,
    /// Maximum operating pressure, in milli-PSI.
    pub max_pressure: i64,
    /// How the pressure is regulated.
    pub regulation_type: PressureRegulationType,
    /// Pressure sensors.
    pub sensors: Vec<PressureSensor>,
}

/// Material system configuration.
#[derive(Debug, Clone)]
pub struct MaterialSystemConfig {
    /// Number of independent material channels.
    pub channel_count: u8,
    /// Whether the channels share no path.
    pub isolated_channels: bool,
    /// Extruders, one entry each.
    pub extruders: Vec<ExtruderConfig>,
    /// Pressure system.
    pub pressure: PressureConfig,
}

/// Z-axis motion configuration.
#[derive(Debug, Clone, Copy, PartialEq, Eq, Structural)]
pub struct ZAxisConfig {
    /// Lead screw pitch, in micrometres.
    pub lead_screw_pitch: i64,
    /// Number of lead screws.
    pub screw_count: u8,
    /// Steps per millimetre, in thousandths.
    pub steps_per_mm: i64,
    /// Maximum speed, in micrometres per second.
    pub max_speed: i64,
    /// Maximum acceleration, in micrometres per second squared.
    pub max_acceleration: i64,
}

/// Homing configuration.
#[derive(Debug, Clone, Copy, PartialEq, Eq, Structural)]
pub struct HomingConfig {
    /// Homing speed, in micrometres per second.
    pub homing_speed: i64,
    /// Homing direction: towards the maximum if true.
    pub home_to_max: bool,
    /// Whether to home at start-up.
    pub home_at_startup: bool,
}

/// Motion system configuration.
#[derive(Debug, Clone, Copy, PartialEq, Eq, Structural)]
pub struct MotionConfig {
    /// Z axis.
    pub z_axis: ZAxisConfig,
    /// Homing.
    pub homing: HomingConfig,
}

/// Printer metadata.
#[derive(Debug, Clone, PartialEq, Eq)]
pub struct PrinterMetadata {
    /// Serial number of the printer.
    pub serial_number: Option<String>,
    /// Firmware version.
    pub firmware_version: Option<String>,
    /// Date of the last calibration.
    pub last_calibration: Option<String>,
    /// Notes of the user.
    pub notes: Option<String>,
}

/// Kind of material.
#[derive(Debug, Clone, Copy, PartialEq, Eq, Structural)]
pub enum MaterialType {
    PLA,
    PETG,
    ABS,
    TPU,
    Nylon,
    PC,
    ASA,
    HIPS,
    PVA,
    CompositePLA,
    CompositeOther,
    Engineering,
    Experimental,
}

/// Infill pattern.
#[derive(Debug, Clone, Copy, PartialEq, Eq, Structural)]
pub enum InfillPattern {
    Rectilinear,
    Grid,
    Triangular,
    Cubic,
    Gyroid,
    Honeycomb,
}

/// Where purged material goes.
#[derive(Debug, Clone, Copy, PartialEq, Eq, Structural)]
pub enum PurgeStrategy {
    /// Into a dedicated tower.
    Tower,
    /// Into the infill.
    Infill,
    /// Into a designated waste area.
    WasteArea,
}

/// Why a configuration is unusable.
#[derive(Debug, Clone, PartialEq, Eq)]
pub enum ConfigError {
    IoError(String),
    ParseError(String),
    SerializationError(String),
    InvalidConfiguration(String),
    MissingField(String),
}

/// Physical and chemical properties of a material.
#[derive(Debug, Clone, Copy, PartialEq, Eq, Structural)]
pub struct MaterialProperties {
    /// Density, in milligrams per cubic centimetre.
    pub density: i64,
    /// Viscosity at extrusion temperature, in millipascal seconds.
    pub viscosity: i64,
    /// Glass transition temperature, in millidegrees Celsius.
    pub glass_transition_temp: i64,
    /// Thermal conductivity, in milliwatts per metre kelvin.
    pub thermal_conductivity: i64,
    /// Shrinkage, in thousandths of a percent.
    pub shrinkage: i64,
}

/// Extrusion parameters of a material.
#[derive(Debug, Clone, Copy, PartialEq, Eq, Structural)]
pub struct ExtrusionParameters {
    /// Recommended pressure, in milli-PSI.
    pub pressure_psi: i64,
    /// Flow rate compensation, in thousandths.
    pub flow_multiplier: i64,
    /// Retraction distance, in micrometres.
    pub retraction_distance: i64,
    /// Retraction speed, in micrometres per second.
    pub retraction_speed: i64,
}

/// Purge parameters of a material, for material changes.
#[derive(Debug, Clone, Copy, PartialEq, Eq, Structural)]
pub struct PurgeParameters {
    /// Volume to purge when switching to this material, in thousandths of
    /// a cubic millimetre.
    pub purge_volume_incoming: i64,
    /// Volume to purge when switching from this material, in thousandths
    /// of a cubic millimetre.
    pub purge_volume_outgoing: i64,
    /// Purge temperature, in millidegrees Celsius, where it differs.
    pub purge_temp: Option<i64>,
}

/// Cooling requirements of a material.
#[derive(Debug, Clone, Copy, PartialEq, Eq, Structural)]
pub struct CoolingParameters {
    /// Minimum layer time for adequate cooling, in milliseconds.
    pub min_layer_time: i64,
    /// Whether active cooling is required.
    pub requires_cooling: bool,
    /// Fan speed for the first layers, in thousandths of a percent.
    pub initial_fan_speed: i64,
    /// Fan speed for the other layers, in thousandths of a percent.
    pub regular_fan_speed: i64,
}

/// The parameters of a material.
#[derive(Debug, Clone)]
pub struct MaterialProfile {
    /// Name of the material.
    pub name: String,
    /// Kind of material.
    pub material_type: MaterialType,
    /// Range of the extrusion temperature, in millidegrees Celsius.
    pub temp_range: Span,
    /// Optimal extrusion temperature, in millidegrees Celsius.
    pub optimal_temp: i64,
    /// Build plate temperature, in millidegrees Celsius.
    pub bed_temp: i64,
    /// Properties of the material.
    pub properties: MaterialProperties,
    /// Extrusion parameters.
    pub extrusion: ExtrusionParameters,
    /// Purge requirements.
    pub purge: PurgeParameters,
    /// Cooling requirements.
    pub cooling: CoolingParameters,
}

/// Speed settings of a job.
#[derive(Debug, Clone, Copy, PartialEq, Eq, Structural)]
pub struct SpeedSettings {
    /// Normal print speed, in micrometres per second.
    pub normal_speed: i64,
    /// Speed factor of the first layer, in thousandths.
    pub first_layer_factor: i64,
    /// Speed factor of small perimeters, in thousandths.
    pub small_perimeter_factor: i64,
}

/// Infill settings of a job.
#[derive(Debug, Clone, Copy, PartialEq, Eq, Structural)]
pub struct InfillSettings {
    /// Infill density, in thousandths of a percent.
    pub density: i64,
    /// Infill pattern.
    pub pattern: InfillPattern,
}

/// Support settings of a job.
#[derive(Debug, Clone, Copy, PartialEq, Eq, Structural)]
pub struct SupportSettings {
    /// Whether to generate supports.
    pub enabled: bool,
    /// Material channel of the supports; that of the model when absent.
    pub material_channel: Option<u8>,
    /// Support density, in thousandths of a percent.
    pub density: i64,
}

/// Settings of a purge tower, in micrometres.
#[derive(Debug, Clone, Copy, PartialEq, Eq, Structural)]
pub struct PurgeTowerSettings {
    pub x: i64,
    pub y: i64,
    pub width: i64,
    pub depth: i64,
}

/// Multi-material settings of a job.
#[derive(Debug, Clone)]
pub struct MultiMaterialSettings {
    /// Material channel of each named region or object.
    pub material_map: Vec<(String, u8)>,
    /// Where purged material goes.
    pub purge_strategy: PurgeStrategy,
    /// Purge tower, where one is used.
    pub purge_tower: Option<PurgeTowerSettings>,
}

/// Settings of a job.
#[derive(Debug, Clone)]
pub struct PrintSettings {
    /// Layer height, in micrometres.
    pub layer_height: i64,
    /// Height of the first layer, in micrometres.
    pub first_layer_height: i64,
    /// Speeds.
    pub speeds: SpeedSettings,
    /// Infill.
    pub infill: InfillSettings,
    /// Supports.
    pub supports: SupportSettings,
    /// Multi-material settings, where they apply.
    pub multi_material: Option<MultiMaterialSettings>,
}

/// Complete printer configuration.
#[derive(Debug, Clone)]
pub struct PrinterConfig {
    /// Printer model.
    pub model: PrinterModel,
    /// Build volume.
    pub build_volume: BuildVolume,
    /// Valve array.
    pub valve_array: ValveArrayConfig,
    /// Thermal management.
    pub thermal: ThermalConfig,
    /// Material handling.
    pub materials: MaterialSystemConfig,
    /// Motion system.
    pub motion: MotionConfig,
    /// Safety limits.
    pub safety: SafetyLimits,
    /// Metadata.
    pub metadata: PrinterMetadata,
}

/// Number of grid positions along an extent: the extent divided by the
/// spacing, rounded up and held at `u32::MAX`; zero unless both are
/// positive.
pub open spec fn spec_grid_count(extent: i64, spacing: i64) -> int {
    if extent <= 0 || spacing <= 0 {
        0
    } else {
        let n = (extent as int + spacing as int - 1) / (spacing as int);
        if n > u32::MAX {
            u32::MAX as int
        } else {
            n
        }
    }
}

fn grid_count(extent: i64, spacing: i64) -> (n: u32)
    ensures
        n as int == spec_grid_count(extent, spacing),
{
    if extent <= 0 || spacing <= 0 {
        0
    } else {
        let n: i128 = (extent as i128 + spacing as i128 - 1) / (spacing as i128);
        if n > u32::MAX as i128 {
            u32::MAX
        } else {
            n as u32
        }
    }
}

/// The first zone, from `from` on, whose minimum temperature is not below
/// its maximum.
pub open spec fn first_bad_zone(zones: Seq<ThermalZone>, from: int) -> Option<int>
    decreases zones.len() - from,
{
    if from < 0 || from >= zones.len() {
        None
    } else if zones[from].min_temp >= zones[from].max_temp {
        Some(from)
    } else {
        first_bad_zone(zones, from + 1)
    }
}

/// Message for a count of nodes that does not match the grid.
pub open spec fn spec_nodes_message(total: u32, expected: int) -> Seq<char> {
    "Total valve nodes "@ + spec_decimal(total as nat) + " doesn't match calculated value "@
        + spec_decimal(expected as nat) + " for grid spacing"@
}

/// Message for a zone whose temperature range is empty.
pub open spec fn spec_zone_message(zone: ThermalZone) -> Seq<char> {
    "Invalid temperature range for zone "@ + spec_decimal(zone.id as nat) + ": min "@
        + spec_fixed3(zone.min_temp as int) + " >= max "@ + spec_fixed3(zone.max_temp as int)
}

impl PrinterConfig {
    /// Number of grid positions in the X direction.
    pub fn grid_x_count(&self) -> (n: u32)
        ensures
            n as int == spec_grid_count(self.build_volume.x, self.valve_array.grid_spacing),
    {
        grid_count(self.build_volume.x, self.valve_array.grid_spacing)
    }

    /// Number of grid positions in the Y direction.
    pub fn grid_y_count(&self) -> (n: u32)
        ensures
            n as int == spec_grid_count(self.build_volume.y, self.valve_array.grid_spacing),
    {
        grid_count(self.build_volume.y, self.valve_array.grid_spacing)
    }

    /// Number of valve nodes that the grid calls for.
    pub open spec fn spec_expected_nodes(&self) -> int {
        spec_grid_count(self.build_volume.x, self.valve_array.grid_spacing) * spec_grid_count(
            self.build_volume.y,
            self.valve_array.grid_spacing,
        )
    }

    /// Why the configuration is not physically reasonable, if it is not.
    /// The checks run in this order: every dimension of the build volume
    /// is positive; the grid spacing is positive; the number of valve
    /// nodes is the one that the grid calls for; the minimum temperature
    /// of every zone lies below its maximum.
    pub open spec fn spec_invalid(&self) -> Option<Seq<char>> {
        if self.build_volume.x <= 0 || self.build_volume.y <= 0 || self.build_volume.z <= 0 {
            Some("Build volume dimensions must be positive"@)
        } else if self.valve_array.grid_spacing <= 0 {
            Some("Valve grid spacing must be positive"@)
        } else if self.valve_array.total_nodes as int != self.spec_expected_nodes() {
            Some(spec_nodes_message(self.valve_array.total_nodes, self.spec_expected_nodes()))
        } else if first_bad_zone(self.thermal.zones@, 0) is Some {
            Some(
                spec_zone_message(
                    self.thermal.zones@[first_bad_zone(self.thermal.zones@, 0).unwrap()],
                ),
            )
        } else {
            None
        }
    }

    /// Validates that the configuration values are physically reasonable.
    pub fn validate(&self) -> (r: Result<(), ConfigError>)
        ensures
            match self.spec_invalid() {
                Some(reason) => r matches Err(ConfigError::InvalidConfiguration(m)) && m@
                    == reason,
                None => r is Ok,
            },
    {
        if self.build_volume.x <= 0 || self.build_volume.y <= 0 || self.build_volume.z <= 0 {
            return Err(
                ConfigError::InvalidConfiguration(
                    String::from_str("Build volume dimensions must be positive"),
                ),
            );
        }
        if self.valve_array.grid_spacing <= 0 {
            return Err(
                ConfigError::InvalidConfiguration(
                    String::from_str("Valve grid spacing must be positive"),
                ),
            );
        }
        let nx: u64 = self.grid_x_count() as u64;
        let ny: u64 = self.grid_y_count() as u64;
        assert(nx * ny <= 0xffff_ffff * 0xffff_ffff) by (nonlinear_arith)
            requires
                nx <= 0xffff_ffff,
                ny <= 0xffff_ffff,
        ;
        let expected: u64 = nx * ny;
        if self.valve_array.total_nodes as u64 != expected {
            let mut m = String::from_str("Total valve nodes ");
            push_decimal(&mut m, self.valve_array.total_nodes as u64);
            m.append(" doesn't match calculated value ");
            push_decimal(&mut m, expected);
            m.append(" for grid spacing");
            assert(m@ =~= spec_nodes_message(
                self.valve_array.total_nodes,
                self.spec_expected_nodes(),
            ));
            return Err(ConfigError::InvalidConfiguration(m));
        }
        let mut i: usize = 0;
        while i < self.thermal.zones.len()
            invariant
                i <= self.thermal.zones@.len(),
                self.build_volume.x > 0 && self.build_volume.y > 0 && self.build_volume.z > 0,
                self.valve_array.grid_spacing > 0,
                self.valve_array.total_nodes as int == self.spec_expected_nodes(),
                first_bad_zone(self.thermal.zones@, 0) == first_bad_zone(
                    self.thermal.zones@,
                    i as int,
                ),
            decreases self.thermal.zones@.len() - i,
        {
            let zone = &self.thermal.zones[i];
            if zone.min_temp >= zone.max_temp {
                let mut m = String::from_str("Invalid temperature range for zone ");
                push_decimal(&mut m, zone.id as u64);
                m.append(": min ");
                push_fixed3(&mut m, zone.min_temp);
                m.append(" >= max ");
                push_fixed3(&mut m, zone.max_temp);
                assert(m@ =~= spec_zone_message(*zone));
                assert(*zone == self.thermal.zones@[i as int]);
                assert(first_bad_zone(self.thermal.zones@, i as int) == Some(i as int));
                return Err(ConfigError::InvalidConfiguration(m));
            }
            i = i + 1;
        }
        Ok(())
    }
}

} // verus!

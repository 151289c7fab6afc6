use hypergcode::config_types::{
    BuildVolume, ConfigError, HomingConfig, MaterialSystemConfig, MotionConfig, PidParameters,
    PressureConfig, PressureRegulationType, PrinterConfig, PrinterMetadata, PrinterModel,
    SafetyLimits, ThermalConfig, ThermalZone, ValveArrayConfig, ValveType, ZAxisConfig,
};
use hypergcode::slicer::config_report::PrinterConfigValidator;

fn mini() -> PrinterConfig {
    PrinterConfig {
        model: PrinterModel::HyperCubeMini,
        build_volume: BuildVolume::new(100_000, 100_000, 150_000),
        valve_array: ValveArrayConfig {
            grid_spacing: 500,
            total_nodes: 40000,
            valves_per_node: 4,
            valve_type: ValveType::PneumaticSolenoid,
            response_time_ms: 10_000,
            dead_volume: 500,
            max_switching_freq: 10_000,
            injection_points: vec![],
        },
        thermal: ThermalConfig { zones: vec![], manifold: None, chamber: None },
        materials: MaterialSystemConfig {
            channel_count: 1,
            isolated_channels: false,
            extruders: vec![],
            pressure: PressureConfig {
                min_pressure: 20_000,
                max_pressure: 100_000,
                regulation_type: PressureRegulationType::Pneumatic,
                sensors: vec![],
            },
        },
        motion: MotionConfig {
            z_axis: ZAxisConfig {
                lead_screw_pitch: 2_000,
                screw_count: 1,
                steps_per_mm: 400_000,
                max_speed: 10_000,
                max_acceleration: 100_000,
            },
            homing: HomingConfig { homing_speed: 5_000, home_to_max: false, home_at_startup: true },
        },
        safety: SafetyLimits {
            max_temperature: 300_000,
            max_pressure: 120_000,
            max_valve_rate: 20_000,
            max_z_speed: 15_000,
            thermal_runaway_rate: 10_000,
            pressure_fault_threshold: 10_000,
        },
        metadata: PrinterMetadata {
            serial_number: None,
            firmware_version: None,
            last_calibration: None,
            notes: None,
        },
    }
}

fn zone(id: u8, min_temp: i64, max_temp: i64) -> ThermalZone {
    ThermalZone {
        id,
        name: "zone".to_string(),
        min_temp,
        max_temp,
        power_watts: 40_000,
        pid: PidParameters::default(),
    }
}

#[test]
fn test_build_volume_contains_point() {
    let volume = BuildVolume::new(200_000, 200_000, 150_000);
    assert!(volume.contains_point(100_000, 100_000, 75_000));
    assert!(!volume.contains_point(250_000, 100_000, 75_000));
}

#[test]
fn test_printer_config_grid_counts() {
    let config = mini();
    assert_eq!(config.grid_x_count(), 200);
    assert_eq!(config.grid_y_count(), 200);
}

#[test]
fn build_volume_margins() {
    let volume = BuildVolume::new(200_000, 100_000, 150_000);
    assert_eq!(volume.margin, 5_000);
    assert_eq!(volume.usable_volume(), (190_000, 90_000, 145_000));
    assert!(volume.contains_point(5_000, 5_000, 0));
    assert!(volume.contains_point(195_000, 95_000, 150_000));
    assert!(!volume.contains_point(4_999, 5_000, 0));
    assert!(!volume.contains_point(5_000, 95_001, 0));
    assert!(!volume.contains_point(5_000, 5_000, -1));
    assert!(!volume.contains_point(5_000, 5_000, 150_001));
    let tiny = BuildVolume { x: 8_000, y: 10_000, z: 3_000, margin: 5_000 };
    assert_eq!(tiny.usable_volume(), (0, 0, 0));
    let wide = BuildVolume { x: i64::MAX, y: i64::MIN, z: i64::MAX, margin: i64::MIN };
    assert_eq!(wide.usable_volume(), (i64::MAX, i64::MAX, i64::MAX));
    assert!(wide.contains_point(0, 0, 0));
    assert!(!wide.contains_point(0, 1, 0));
}

#[test]
fn grid_counts_round_up() {
    let mut config = mini();
    config.build_volume.x = 100_001;
    assert_eq!(config.grid_x_count(), 201);
    config.valve_array.grid_spacing = 0;
    assert_eq!(config.grid_x_count(), 0);
    config.valve_array.grid_spacing = 1;
    config.build_volume.y = i64::MAX;
    assert_eq!(config.grid_y_count(), u32::MAX);
}

#[test]
fn validation_reports_the_first_fault() {
    let invalid = |m: &str| Err(ConfigError::InvalidConfiguration(m.to_string()));
    assert_eq!(mini().validate(), Ok(()));
    let mut c = mini();
    c.build_volume.z = 0;
    c.valve_array.grid_spacing = 0;
    assert_eq!(c.validate(), invalid("Build volume dimensions must be positive"));
    let mut c = mini();
    c.valve_array.grid_spacing = -1;
    c.valve_array.total_nodes = 1;
    assert_eq!(c.validate(), invalid("Valve grid spacing must be positive"));
    let mut c = mini();
    c.valve_array.total_nodes = 39_999;
    c.thermal.zones.push(zone(0, 10, 5));
    assert_eq!(
        c.validate(),
        invalid("Total valve nodes 39999 doesn't match calculated value 40000 for grid spacing")
    );
    let mut c = mini();
    c.thermal.zones.push(zone(0, 180_000, 260_000));
    c.thermal.zones.push(zone(4, 260_000, 260_000));
    c.thermal.zones.push(zone(5, 300_000, 1_500));
    assert_eq!(
        c.validate(),
        invalid("Invalid temperature range for zone 4: min 260.000 >= max 260.000")
    );
    c.thermal.zones[1].max_temp = 260_001;
    assert_eq!(
        c.validate(),
        invalid("Invalid temperature range for zone 5: min 300.000 >= max 1.500")
    );
    c.thermal.zones.pop();
    assert_eq!(c.validate(), Ok(()));
}

#[test]
fn huge_grids_do_not_overflow() {
    let mut c = mini();
    c.build_volume.x = i64::MAX;
    c.build_volume.y = i64::MAX;
    c.valve_array.grid_spacing = 1;
    c.valve_array.total_nodes = 1;
    assert_eq!(
        c.validate(),
        Err(ConfigError::InvalidConfiguration(
            "Total valve nodes 1 doesn't match calculated value 18446744065119617025 for grid spacing"
                .to_string()
        ))
    );
}

#[test]
fn validator_reports() {
    let validator = PrinterConfigValidator::new();
    let report = validator.validate(&mini());
    assert!(report.valid);
    assert!(report.errors.is_empty() && report.warnings.is_empty());
    let mut c = mini();
    c.valve_array.grid_spacing = 0;
    let report = validator.validate(&c);
    assert!(!report.valid);
    assert_eq!(report.errors, vec!["Valve grid spacing must be positive".to_string()]);
}

#[test]
fn model_names_and_defaults() {
    assert_eq!(PrinterModel::HyperCubeMini.name(), "HyperCube-4D Mini");
    assert_eq!(PrinterModel::HyperCubeStandard.name(), "HyperCube-4D Standard");
    assert_eq!(PrinterModel::HyperCubePro.name(), "HyperCube-4D Pro");
    assert_eq!(PrinterModel::HyperCubeIndustrial.name(), "HyperCube-4D Industrial");
    assert_eq!(PrinterModel::Custom.name(), "Custom HyperGCode-4D Printer");
    assert_eq!(PidParameters::default(), PidParameters { kp: 20_000, ki: 500, kd: 100_000 });
}

use hypergcode::gcode_types::{
    Color, Command, Coordinate, G4CCommand, G4DCommand, G4HCommand, G4LCommand, G4PCommand,
    G4WCommand, ValveState, WaitType,
};
use hypergcode::slicer::commands::{CommandBuilder, G4DBuilder, MaterialCommandBuilder};
use hypergcode::slicer::mesh::{
    check_file_size, check_manifold, triangles_equal, validate_mesh, MeshFormat, MeshLoadError,
    MAX_IN_MEMORY_SIZE,
};
use hypergcode::slicer::report::ValidationReport;
use hypergcode::slicer::slicing::{
    calculate_layer_count, point_in_build_volume, SlicePhase, SlicerConfig, SlicerError,
    HG4D_FORMAT_VERSION, HG4D_MAGIC,
};

#[test]
fn test_mesh_format_extensions() {
    assert_eq!(MeshFormat::StlBinary.extensions(), &["stl"]);
    assert_eq!(MeshFormat::Obj.extensions(), &["obj"]);
    assert_eq!(MeshFormat::ThreeMf.extensions(), &["3mf"]);
}

#[test]
fn test_calculate_layer_count() {
    assert_eq!(calculate_layer_count(100_000, 200), 500);
    assert_eq!(calculate_layer_count(10_500, 200), 53); // Rounds up
}

#[test]
fn mesh_formats() {
    assert_eq!(MeshFormat::StlAscii.extensions(), &["stl"]);
    assert!(MeshFormat::Unknown.extensions().is_empty());
    assert_eq!(MeshFormat::StlAscii.name(), "STL (ASCII)");
    assert_eq!(MeshFormat::StlBinary.name(), "STL (Binary)");
    assert_eq!(MeshFormat::Obj.name(), "Wavefront OBJ");
    assert_eq!(MeshFormat::ThreeMf.name(), "3D Manufacturing Format (3MF)");
    assert_eq!(MeshFormat::Unknown.name(), "Unknown");
    assert_eq!(check_file_size(MAX_IN_MEMORY_SIZE), Ok(()));
    assert_eq!(
        check_file_size(MAX_IN_MEMORY_SIZE + 1),
        Err(MeshLoadError::FileTooLarge(MAX_IN_MEMORY_SIZE + 1, MAX_IN_MEMORY_SIZE))
    );
}

#[test]
fn layer_count_edges() {
    assert_eq!(calculate_layer_count(0, 200), 0);
    assert_eq!(calculate_layer_count(200, 0), 0);
    assert_eq!(calculate_layer_count(-5, 200), 0);
    assert_eq!(calculate_layer_count(1, 200), 1);
    assert_eq!(calculate_layer_count(i64::MAX, 1), u32::MAX);
    let volume = hypergcode::config_types::BuildVolume::new(200_000, 200_000, 150_000);
    assert!(point_in_build_volume(100_000, 100_000, 75_000, &volume));
    assert!(!point_in_build_volume(100_000, 100_000, 150_001, &volume));
}

#[test]
fn triangles_with_the_same_vertices() {
    assert!(triangles_equal(&[1, 2, 3], &[3, 1, 2]));
    assert!(triangles_equal(&[1, 2, 3], &[2, 1, 3]));
    assert!(triangles_equal(&[5, 5, 1], &[5, 1, 5]));
    assert!(!triangles_equal(&[5, 5, 1], &[5, 1, 1]));
    assert!(!triangles_equal(&[0, 1, 2], &[0, 1, 3]));
    assert!(triangles_equal(&[u32::MAX, 0, u32::MAX], &[u32::MAX, u32::MAX, 0]));
}

#[test]
fn manifold_check_finds_duplicates() {
    assert!(check_manifold(&[]));
    assert!(check_manifold(&[0, 1, 2, 0, 2, 3]));
    assert!(!check_manifold(&[0, 1, 2, 0, 2, 3, 2, 0, 1]));
    // A trailing run of fewer than three indices is no triangle.
    assert!(check_manifold(&[0, 1, 2, 0, 1]));
}

#[test]
fn mesh_validation_reports_the_first_fault() {
    let invalid = |m: &str| Err(SlicerError::InvalidGeometry(m.to_string()));
    assert_eq!(validate_mesh(12, &[0, 1, 2, 0, 2, 3]), Ok(()));
    assert_eq!(validate_mesh(0, &[]), invalid("Mesh has no vertices"));
    assert_eq!(validate_mesh(10, &[0, 1, 2]), invalid("Vertex data length not multiple of 3"));
    assert_eq!(validate_mesh(9, &[]), invalid("Mesh has no triangles"));
    assert_eq!(validate_mesh(9, &[0, 1]), invalid("Index data length not multiple of 3"));
    assert_eq!(
        validate_mesh(9, &[0, 1, 2, 0, 7, 3]),
        invalid("Triangle references out-of-bounds vertex 7")
    );
    assert_eq!(
        validate_mesh(9, &[0, 3, 2]),
        invalid("Triangle references out-of-bounds vertex 3")
    );
}

#[test]
fn validation_report_is_valid_without_errors() {
    let mut report = ValidationReport::new();
    assert!(report.valid);
    report.add_info("checked 3 commands");
    report.add_warning("slow");
    assert!(report.valid);
    assert_eq!(report.warnings, vec!["slow".to_string()]);
    assert_eq!(report.info, vec!["checked 3 commands".to_string()]);
    report.add_error("too hot");
    report.add_error("too fast");
    assert!(!report.valid);
    assert_eq!(report.errors, vec!["too hot".to_string(), "too fast".to_string()]);
    report.add_warning("again");
    assert!(!report.valid);
}

#[test]
fn phases_and_settings() {
    assert_eq!(SlicePhase::LoadingModel.description(), "Loading 3D model");
    assert_eq!(SlicePhase::ValidatingGeometry.description(), "Validating geometry");
    assert_eq!(SlicePhase::GeneratingLayers.description(), "Generating layers");
    assert_eq!(SlicePhase::MappingValves.description(), "Mapping to valve grid");
    assert_eq!(SlicePhase::OptimizingRouting.description(), "Optimizing material routing");
    assert_eq!(SlicePhase::CalculatingPressure.description(), "Simulating pressure distribution");
    assert_eq!(SlicePhase::GeneratingGCode.description(), "Generating G-code");
    assert_eq!(SlicePhase::WritingOutput.description(), "Writing output file");
    let config = SlicerConfig::with_threads(8);
    assert_eq!(config.worker_threads, 8);
    assert!(config.enable_pressure_simulation && config.enable_routing_optimization);
    assert_eq!(config.optimization_iterations, 100);
    assert_eq!(config.compression_level, 6);
    assert_eq!(HG4D_MAGIC.to_be_bytes(), *b"HG4D");
    assert_eq!(HG4D_FORMAT_VERSION, 1);
}

#[test]
fn builders_build_what_they_were_given() {
    let d = G4DBuilder::new(Coordinate::new(1, 2, 3)).valve(0, true).valve(4, false).extrusion(9);
    assert_eq!(
        d.build(),
        Command::G4D(G4DCommand {
            position: Coordinate::new(1, 2, 3),
            valves: vec![ValveState::open(0), ValveState::closed(4)],
            extrusion: Some(9),
        })
    );
    assert_eq!(
        MaterialCommandBuilder::set_color(1, 2, 3),
        Command::G4C(G4CCommand {
            color: Some(Color::new(1, 2, 3)),
            material_channel: None,
            mixing_ratios: None
        })
    );
    assert_eq!(
        MaterialCommandBuilder::set_material_channel(5),
        Command::G4C(G4CCommand { color: None, material_channel: Some(5), mixing_ratios: None })
    );
    assert_eq!(
        MaterialCommandBuilder::mix_materials(vec![(0, 300), (1, 700)]),
        Command::G4C(G4CCommand {
            color: None,
            material_channel: None,
            mixing_ratios: Some(vec![(0, 300), (1, 700)])
        })
    );
    assert_eq!(
        CommandBuilder::layer_advance(400),
        Command::G4L(G4LCommand { z_height: 400, feed_rate: None })
    );
    assert_eq!(
        CommandBuilder::wait_valves(),
        Command::G4W(G4WCommand { wait_type: WaitType::Valves, timeout_ms: Some(1000) })
    );
    assert_eq!(
        CommandBuilder::wait_pressure(),
        Command::G4W(G4WCommand { wait_type: WaitType::Pressure, timeout_ms: Some(5000) })
    );
    assert_eq!(
        CommandBuilder::set_temperature(1, 235_000, true),
        Command::G4H(G4HCommand { temperature: 235_000, zone: Some(1), wait: true })
    );
    assert_eq!(
        CommandBuilder::set_pressure(2, 45_000),
        Command::G4P(G4PCommand { pressure: 45_000, material_channel: Some(2) })
    );
}

#[test]
fn sha256_of_a_known_text() {
    let hash = hypergcode::slicer::slicing::hash_printer_config(b"abc");
    let expected: [u8; 32] = [
        0xba, 0x78, 0x16, 0xbf, 0x8f, 0x01, 0xcf, 0xea, 0x41, 0x41, 0x40, 0xde, 0x5d, 0xae, 0x22,
        0x23, 0xb0, 0x03, 0x61, 0xa3, 0x96, 0x17, 0x7a, 0x9c, 0xb4, 0x10, 0xff, 0x61, 0xf2, 0x00,
        0x15, 0xad,
    ];
    assert_eq!(hash, expected);
    assert_ne!(hypergcode::slicer::slicing::hash_printer_config(b"abd"), expected);
}

#[test]
fn default_settings_use_the_machine() {
    let config = SlicerConfig::default();
    assert_eq!(config, SlicerConfig::with_threads(config.worker_threads));
}

#[test]
fn positions_are_snapped_to_the_grid() {
    let nearest = hypergcode::slicer::slicing::GridAlignedMapper::new(
        hypergcode::slicer::slicing::RoundingMode::Nearest,
    );
    let inside = hypergcode::slicer::slicing::GridAlignedMapper::new(
        hypergcode::slicer::slicing::RoundingMode::Inside,
    );
    let outside = hypergcode::slicer::slicing::GridAlignedMapper::new(
        hypergcode::slicer::slicing::RoundingMode::Outside,
    );
    let at = |g: hypergcode::gcode_types::GridCoordinate| (g.x, g.y);
    assert_eq!(at(nearest.to_grid_coord(1_249, 1_250, 500)), (2, 3));
    assert_eq!(at(inside.to_grid_coord(1_249, 1_500, 500)), (2, 3));
    assert_eq!(at(outside.to_grid_coord(1_001, 1_000, 500)), (3, 2));
    assert_eq!(at(nearest.to_grid_coord(-5, 0, 500)), (0, 0));
    assert_eq!(at(outside.to_grid_coord(5, 5, 0)), (0, 0));
    assert_eq!(at(nearest.to_grid_coord(i64::MAX, 1, 1)), (u32::MAX, 1));
}

use hypergcode::gcode_types::{
    validate_coordinate, Color, Command, CommandError, Coordinate, G4CCommand, G4DCommand,
    G4HCommand, G4LCommand, G4PCommand, G4SCommand, G4WCommand, GridCoordinate, Layer,
    NodeValveState, ValveState, WaitType,
};
use hypergcode::wire::round_trip;

#[test]
fn test_valve_state_display() {
    let open = ValveState::open(0);
    let closed = ValveState::closed(1);
    assert_eq!(open.to_text(), "V0:O");
    assert_eq!(closed.to_text(), "V1:C");
}

#[test]
fn test_color_blend() {
    let red = Color::red();
    let blue = Color::blue();
    let purple = red.blend(&blue, 500);
    assert_eq!(purple.r, 127);
    assert_eq!(purple.g, 0);
    assert_eq!(purple.b, 127);
}

#[test]
fn test_command_serialization() {
    let cmd = Command::G4L(G4LCommand { z_height: 1_500, feed_rate: Some(10_000) });
    let bytes = cmd.to_bytes().unwrap();
    let deserialized = Command::from_bytes(&bytes).unwrap();
    assert_eq!(cmd, deserialized);
}

#[test]
fn test_grid_coordinate_conversion() {
    let grid = GridCoordinate::new(10, 20);
    let physical = grid.to_physical(500);
    assert_eq!(physical.x, 5_000);
    assert_eq!(physical.y, 10_000);
}

#[test]
fn test_manhattan_distance() {
    let from = GridCoordinate::new(0, 0);
    let to = GridCoordinate::new(3, 4);
    assert_eq!(from.manhattan_distance(&to), 7);
    assert_eq!(to.manhattan_distance(&from), 7);
}

#[test]
fn blend_limits_its_factor() {
    let a = Color::new(10, 200, 0);
    let b = Color::new(110, 100, 255);
    assert_eq!(a.blend(&b, 0), a);
    assert_eq!(a.blend(&b, 1000), b);
    assert_eq!(a.blend(&b, -7), a);
    assert_eq!(a.blend(&b, 50_000), b);
    assert_eq!(a.blend(&b, 250), Color::new(35, 175, 63));
    assert_eq!(Color::black(), Color::new(0, 0, 0));
    assert_eq!(Color::white(), Color::new(255, 255, 255));
    assert_eq!(Color::green(), Color::new(0, 255, 0));
    assert_eq!(Color::new(1, 22, 133).to_text(), "R1 G22 B133");
}

#[test]
fn to_physical_holds_at_the_bounds() {
    let g = GridCoordinate::new(u32::MAX, 2);
    let c = g.to_physical(i64::MAX);
    assert_eq!(c.x, i64::MAX);
    assert_eq!(c.y, i64::MAX);
    assert_eq!(c.z, 0);
    let c = g.to_physical(-3);
    assert_eq!(c.x, -3 * (u32::MAX as i64));
    assert_eq!(c.y, -6);
}

#[test]
fn coordinate_text_has_three_decimals() {
    assert_eq!(Coordinate::new(10_000, 20_000, 500).to_text(), "X10.000 Y20.000 Z0.500");
    assert_eq!(Coordinate::new(-40, 1, -1_234_567).to_text(), "X-0.040 Y0.001 Z-1234.567");
    assert_eq!(Coordinate::default(), Coordinate::new(0, 0, 0));
    assert_eq!(
        Coordinate::new(i64::MIN, i64::MAX, 0).to_text(),
        "X-9223372036854775.808 Y9223372036854775.807 Z0.000"
    );
}

#[test]
fn node_counts_open_valves() {
    let node = NodeValveState::new(
        GridCoordinate::new(1, 2),
        vec![ValveState::open(0), ValveState::closed(1), ValveState::open(2)],
    );
    assert_eq!(node.material_channel, None);
    assert!(node.has_open_valve());
    assert_eq!(node.open_count(), 2);
    let closed = NodeValveState::new(GridCoordinate::new(0, 0), vec![ValveState::closed(0)]);
    assert!(!closed.has_open_valve());
    assert_eq!(closed.open_count(), 0);
    let empty = NodeValveState::new(GridCoordinate::new(0, 0), vec![]).with_material(3);
    assert!(!empty.has_open_valve());
    assert_eq!(empty.material_channel, Some(3));
    assert_eq!(node.duplicate(), node);
}

#[test]
fn layer_counts_and_materials() {
    let mut layer = Layer::new(200, 0);
    assert_eq!(layer.node_count(), 0);
    assert_eq!(layer.open_valve_count(), 0);
    assert!(!layer.is_multi_material());
    layer.add_node(
        NodeValveState::new(GridCoordinate::new(0, 0), vec![ValveState::open(0)]).with_material(1),
    );
    layer.add_node(
        NodeValveState::new(
            GridCoordinate::new(1, 0),
            vec![ValveState::open(0), ValveState::open(3), ValveState::closed(1)],
        )
        .with_material(1),
    );
    assert_eq!(layer.node_count(), 2);
    assert_eq!(layer.open_valve_count(), 3);
    assert!(!layer.is_multi_material());
    layer.add_node(NodeValveState::new(GridCoordinate::new(2, 0), vec![]));
    assert!(layer.is_multi_material());
    assert_eq!(layer.nodes[2].position, GridCoordinate::new(2, 0));
}

#[test]
fn command_kinds() {
    let d = Command::G4D(G4DCommand {
        position: Coordinate::new(1, 2, 3),
        valves: vec![],
        extrusion: None,
    });
    let l = Command::G4L(G4LCommand { z_height: 1, feed_rate: None });
    let h = Command::G4H(G4HCommand { temperature: 1, zone: None, wait: false });
    assert!(d.is_valve_command() && !d.is_motion_command() && !d.is_thermal_command());
    assert!(!l.is_valve_command() && l.is_motion_command() && !l.is_thermal_command());
    assert!(!h.is_valve_command() && !h.is_motion_command() && h.is_thermal_command());
    assert!(!Command::Comment("x".to_string()).is_valve_command());
}

#[test]
fn coordinate_validation_names_the_first_axis() {
    let ok = Coordinate::new(0, 200_000, 75_000);
    assert_eq!(validate_coordinate(&ok, 200_000, 200_000, 150_000), Ok(()));
    let x = Coordinate::new(250_000, -1, 900_000);
    assert_eq!(
        validate_coordinate(&x, 200_000, 200_000, 150_000),
        Err(CommandError::InvalidCoordinate(
            "X coordinate 250.000 out of bounds [0, 200.000]".to_string()
        ))
    );
    let y = Coordinate::new(1, -1, 900_000);
    assert_eq!(
        validate_coordinate(&y, 200_000, 200_000, 150_000),
        Err(CommandError::InvalidCoordinate(
            "Y coordinate -0.001 out of bounds [0, 200.000]".to_string()
        ))
    );
    let z = Coordinate::new(1, 1, 150_001);
    let e = validate_coordinate(&z, 200_000, 200_000, 150_000).unwrap_err();
    assert_eq!(e.message(), "Invalid coordinate: Z coordinate 150.001 out of bounds [0, 150.000]");
}

#[test]
fn command_error_texts() {
    assert_eq!(CommandError::InvalidValveState("a".to_string()).message(), "Invalid valve state: a");
    assert_eq!(CommandError::SerializationError("b".to_string()).message(), "Serialization error: b");
    assert_eq!(
        CommandError::DeserializationError("c".to_string()).message(),
        "Deserialization error: c"
    );
    assert_eq!(CommandError::InvalidParameter("d".to_string()).message(), "Invalid parameter: d");
}

#[test]
fn gcode_text_of_every_variant() {
    let d = Command::G4D(G4DCommand {
        position: Coordinate::new(10_000, 20_000, 500),
        valves: vec![ValveState::open(0), ValveState::closed(1), ValveState::open(12)],
        extrusion: Some(1_000),
    });
    assert_eq!(d.to_gcode_text(), "G4D X10.000 Y20.000 Z0.500 V0:O V1:C V12:O");
    let none = Command::G4D(G4DCommand {
        position: Coordinate::new(0, 0, 0),
        valves: vec![],
        extrusion: None,
    });
    assert_eq!(none.to_gcode_text(), "G4D X0.000 Y0.000 Z0.000 ");
    assert_eq!(
        Command::G4L(G4LCommand { z_height: 1_500, feed_rate: Some(10_000) }).to_gcode_text(),
        "G4L Z1.500 F10.0"
    );
    assert_eq!(
        Command::G4L(G4LCommand { z_height: 200, feed_rate: None }).to_gcode_text(),
        "G4L Z0.200"
    );
    assert_eq!(
        Command::G4C(G4CCommand {
            color: Some(Color::new(255, 0, 127)),
            material_channel: Some(2),
            mixing_ratios: Some(vec![(0, 500)]),
        })
        .to_gcode_text(),
        "G4C COLOR R255 G0 B127 M2"
    );
    assert_eq!(
        Command::G4C(G4CCommand { color: None, material_channel: None, mixing_ratios: None })
            .to_gcode_text(),
        "G4C"
    );
    assert_eq!(
        Command::G4S(G4SCommand { speed_percentage: 150_000, material_channel: None })
            .to_gcode_text(),
        "G4S SPEED 150.0"
    );
    assert_eq!(
        Command::G4H(G4HCommand { temperature: 235_450, zone: Some(1), wait: true })
            .to_gcode_text(),
        "G4H TEMP 235.5"
    );
    assert_eq!(
        Command::G4H(G4HCommand { temperature: -49, zone: None, wait: true }).to_gcode_text(),
        "G4H TEMP -0.0"
    );
    assert_eq!(
        Command::G4W(G4WCommand { wait_type: WaitType::Valves, timeout_ms: None }).to_gcode_text(),
        "G4W VALVES"
    );
    assert_eq!(
        Command::G4W(G4WCommand { wait_type: WaitType::Pressure, timeout_ms: Some(1) })
            .to_gcode_text(),
        "G4W PRESSURE"
    );
    assert_eq!(
        Command::G4W(G4WCommand { wait_type: WaitType::Temperature, timeout_ms: None })
            .to_gcode_text(),
        "G4W TEMPERATURE"
    );
    assert_eq!(
        Command::G4W(G4WCommand { wait_type: WaitType::Duration(250), timeout_ms: None })
            .to_gcode_text(),
        "G4W P250"
    );
    assert_eq!(
        Command::G4P(G4PCommand { pressure: 45_050, material_channel: Some(0) }).to_gcode_text(),
        "G4P PRESSURE 45.1"
    );
    assert_eq!(Command::Comment("layer 3 – höhe".to_string()).to_gcode_text(), "; layer 3 – höhe");
}

fn samples() -> Vec<Command> {
    vec![
        Command::G4D(G4DCommand {
            position: Coordinate::new(i64::MIN, -1, i64::MAX),
            valves: vec![ValveState::open(0), ValveState::closed(255), ValveState::open(7)],
            extrusion: Some(-5),
        }),
        Command::G4D(G4DCommand {
            position: Coordinate::new(0, 0, 0),
            valves: vec![],
            extrusion: None,
        }),
        Command::G4L(G4LCommand { z_height: 1_500, feed_rate: Some(10_000) }),
        Command::G4L(G4LCommand { z_height: -1, feed_rate: None }),
        Command::G4C(G4CCommand {
            color: Some(Color::new(1, 2, 3)),
            material_channel: Some(9),
            mixing_ratios: Some(vec![(0, 250), (1, 750), (200, i64::MIN)]),
        }),
        Command::G4C(G4CCommand { color: None, material_channel: None, mixing_ratios: Some(vec![]) }),
        Command::G4C(G4CCommand { color: None, material_channel: None, mixing_ratios: None }),
        Command::G4S(G4SCommand { speed_percentage: 100_000, material_channel: Some(1) }),
        Command::G4H(G4HCommand { temperature: 235_000, zone: None, wait: true }),
        Command::G4H(G4HCommand { temperature: 0, zone: Some(3), wait: false }),
        Command::G4W(G4WCommand { wait_type: WaitType::Valves, timeout_ms: Some(1000) }),
        Command::G4W(G4WCommand { wait_type: WaitType::Pressure, timeout_ms: None }),
        Command::G4W(G4WCommand { wait_type: WaitType::Temperature, timeout_ms: Some(u32::MAX) }),
        Command::G4W(G4WCommand { wait_type: WaitType::Duration(0x0102_0304), timeout_ms: Some(5) }),
        Command::G4P(G4PCommand { pressure: 45_000, material_channel: None }),
        Command::Comment(String::new()),
        Command::Comment("Schicht 3 – 0.2 mm ✓".to_string()),
    ]
}

#[test]
fn every_variant_round_trips() {
    for c in samples() {
        let bytes = c.to_bytes().unwrap();
        assert_eq!(Command::from_bytes(&bytes), Ok(c.clone()));
        assert_eq!(round_trip(&c), Some(c));
    }
}

#[test]
fn encoding_is_little_endian_and_tagged() {
    let w = Command::G4W(G4WCommand {
        wait_type: WaitType::Duration(0x0102_0304),
        timeout_ms: Some(5),
    });
    assert_eq!(w.to_bytes().unwrap(), vec![5, 3, 4, 3, 2, 1, 1, 5, 0, 0, 0]);
    let l = Command::G4L(G4LCommand { z_height: -2, feed_rate: None });
    assert_eq!(
        l.to_bytes().unwrap(),
        vec![1, 0xfe, 0xff, 0xff, 0xff, 0xff, 0xff, 0xff, 0xff, 0]
    );
    let c = Command::Comment("é".to_string());
    assert_eq!(c.to_bytes().unwrap(), vec![7, 2, 0, 0, 0, 0xc3, 0xa9]);
}

#[test]
fn malformed_bytes_are_refused() {
    let malformed = Err(CommandError::DeserializationError("malformed command".to_string()));
    assert_eq!(Command::from_bytes(&[]), malformed);
    assert_eq!(Command::from_bytes(&[8]), malformed);
    assert_eq!(Command::from_bytes(&[1, 0, 0]), malformed);
    // A truth value other than 0 or 1.
    assert_eq!(Command::from_bytes(&[4, 0, 0, 0, 0, 0, 0, 0, 0, 0, 2]), malformed);
    // Text that is not UTF-8.
    assert_eq!(Command::from_bytes(&[7, 1, 0, 0, 0, 0xff]), malformed);
    // A list that is longer than the bytes that follow.
    assert_eq!(Command::from_bytes(&[7, 9, 0, 0, 0, b'a']), malformed);
    // Bytes after the command.
    let mut bytes = Command::G4P(G4PCommand { pressure: 1, material_channel: None })
        .to_bytes()
        .unwrap();
    bytes.push(0);
    assert_eq!(Command::from_bytes(&bytes), malformed);
    // A truncated encoding of every sample.
    for c in samples() {
        let bytes = c.to_bytes().unwrap();
        assert_eq!(Command::from_bytes(&bytes[..bytes.len() - 1]), malformed);
    }
}

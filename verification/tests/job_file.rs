use hypergcode::firmware::scheduler::StreamLayer;
use hypergcode::gcode_types::{
    G4WCommand, GridCoordinate, Layer, NodeValveState, ValveState, WaitType,
};
use hypergcode::layer_codec::{
    decode_layer, decode_stream_layer, encode_layer, encode_record, encode_stream_layer,
};
use hypergcode::slicer::job_file::{
    read_layer_from, HG4DReader, HG4DWriter, JobFileError, LayerIndexEntry,
};

fn layer(number: u32, z: i64, nodes: u32) -> Layer {
    let mut l = Layer::new(z, number);
    l.primary_material = if number % 2 == 0 { Some(number as u8) } else { None };
    l.estimated_time = Some(1_000 * number as i64 - 3);
    for i in 0..nodes {
        let mut node = NodeValveState::new(
            GridCoordinate::new(i, u32::MAX - i),
            vec![ValveState::open(0), ValveState::closed(255), ValveState::open(i as u8)],
        );
        if i % 2 == 1 {
            node = node.with_material(i as u8);
        }
        l.add_node(node);
    }
    l
}

fn plain(layer: Layer) -> StreamLayer {
    StreamLayer { layer, barriers: vec![] }
}

fn three_layers() -> (Vec<Layer>, Vec<u8>) {
    let layers = vec![layer(0, 200, 5), layer(1, 400, 0), layer(7, 600, 5)];
    let mut writer = HG4DWriter::create(b"cube.stl").unwrap();
    for l in &layers {
        writer.write_layer(l).unwrap();
    }
    (layers, writer.finalize())
}

#[test]
fn crc32_of_the_check_string() {
    assert_eq!(HG4DWriter::calculate_checksum(b"123456789"), 0xCBF4_3926);
    assert_eq!(HG4DWriter::calculate_checksum(b""), 0);
    assert_ne!(
        HG4DWriter::calculate_checksum(b"123456789"),
        HG4DWriter::calculate_checksum(b"123456780")
    );
}

#[test]
fn layers_round_trip_through_their_encoding() {
    for l in [layer(0, 0, 0), layer(3, -7, 1), layer(u32::MAX, i64::MAX, 4)] {
        let bytes = encode_layer(&l).unwrap();
        assert_eq!(decode_layer(&bytes), Some(l));
        assert_eq!(decode_layer(&bytes[..bytes.len() - 1]), None);
        let mut longer = bytes.clone();
        longer.push(0);
        assert_eq!(decode_layer(&longer), None);
    }
    let bytes = encode_layer(&Layer::new(0x0102_0304_0506_0708, 0x0a0b_0c0d)).unwrap();
    assert_eq!(
        bytes,
        vec![8, 7, 6, 5, 4, 3, 2, 1, 0x0d, 0x0c, 0x0b, 0x0a, 0, 0, 0, 0, 0, 0]
    );
}

#[test]
fn a_written_file_reads_back() {
    let (layers, file) = three_layers();
    // Magic number and version, least significant byte first.
    assert_eq!(&file[..8], &[0x44, 0x34, 0x47, 0x48, 1, 0, 0, 0]);
    assert_eq!(&file[8..12], &[8, 0, 0, 0]);
    assert_eq!(&file[12..20], b"cube.stl");
    let reader = HG4DReader::open(&file).unwrap();
    assert_eq!(reader.layer_count(), 3);
    let first = reader.entry(0).unwrap();
    assert_eq!(first.layer_number, 0);
    assert_eq!(first.z_height, 200);
    assert_eq!(first.file_offset, 20);
    assert_eq!(
        first.checksum,
        HG4DWriter::calculate_checksum(&encode_record(&layers[0], &vec![]).unwrap())
    );
    assert_eq!(reader.entry(3), None);
    assert_eq!(reader.locate(7), Some(2));
    assert_eq!(reader.locate(2), None);
    // Any layer is read without the layers before it.
    assert_eq!(reader.read_layer(7), Ok(plain(layers[2].clone())));
    assert_eq!(reader.read_layer(0), Ok(plain(layers[0].clone())));
    assert_eq!(reader.read_layer(1), Ok(plain(layers[1].clone())));
    assert_eq!(reader.read_layer(2), Err(JobFileError::UnknownLayer));
}

#[test]
fn an_empty_job_file() {
    let file = HG4DWriter::create(b"").unwrap().finalize();
    assert_eq!(file.len(), 28);
    let reader = HG4DReader::open(&file).unwrap();
    assert_eq!(reader.layer_count(), 0);
    assert_eq!(reader.read_layer(0), Err(JobFileError::UnknownLayer));
}

#[test]
fn layers_are_written_in_order() {
    let mut writer = HG4DWriter::create(b"m").unwrap();
    writer.write_layer(&layer(3, 200, 1)).unwrap();
    assert_eq!(writer.write_layer(&layer(3, 400, 1)), Err(JobFileError::OutOfOrder));
    assert_eq!(writer.write_layer(&layer(2, 400, 1)), Err(JobFileError::OutOfOrder));
    writer.write_layer(&layer(4, 400, 1)).unwrap();
    let file = writer.finalize();
    let reader = HG4DReader::open(&file).unwrap();
    assert_eq!(reader.layer_count(), 2);
    assert_eq!(reader.read_layer(4), Ok(plain(layer(4, 400, 1))));
}

#[test]
fn damaged_files_are_refused() {
    let (_, file) = three_layers();
    assert!(matches!(HG4DReader::open(&file[..27]), Err(JobFileError::TooShort)));
    let mut bad = file.clone();
    bad[0] ^= 1;
    assert!(matches!(HG4DReader::open(&bad), Err(JobFileError::BadMagic)));
    let mut bad = file.clone();
    bad[4] = 2;
    assert!(matches!(HG4DReader::open(&bad), Err(JobFileError::UnsupportedVersion)));
    // The footer: offset of the index, number of entries, checksum.
    let n = file.len();
    let mut bad = file.clone();
    bad[n - 16] ^= 1;
    assert!(matches!(HG4DReader::open(&bad), Err(JobFileError::BadIndex)));
    let mut bad = file.clone();
    bad[n - 8] += 1;
    assert!(matches!(HG4DReader::open(&bad), Err(JobFileError::BadIndex)));
    let mut bad = file.clone();
    bad[n - 1] ^= 0x80;
    assert!(matches!(HG4DReader::open(&bad), Err(JobFileError::IndexChecksum)));
    // A byte of the index.
    let mut bad = file.clone();
    bad[n - 16 - 28] ^= 1;
    assert!(matches!(HG4DReader::open(&bad), Err(JobFileError::IndexChecksum)));
    // A byte of a record: the file opens, the layer is refused.
    let mut bad = file.clone();
    bad[25] ^= 0x10;
    let reader = HG4DReader::open(&bad).unwrap();
    assert_eq!(reader.read_layer(0), Err(JobFileError::LayerChecksum));
    assert!(reader.read_layer(7).is_ok());
    assert!(matches!(HG4DReader::open(&file[1..]), Err(JobFileError::BadMagic)));
    let truncated = &file[..n - 1];
    assert!(HG4DReader::open(truncated).is_err());
}

fn file_with_index(records: &[u8], entries: &[LayerIndexEntry]) -> Vec<u8> {
    let mut file = vec![0x44, 0x34, 0x47, 0x48, 1, 0, 0, 0, 0, 0, 0, 0];
    file.extend_from_slice(records);
    let offset = file.len() as u64;
    let mut index = Vec::new();
    for e in entries {
        index.extend_from_slice(&e.layer_number.to_le_bytes());
        index.extend_from_slice(&e.z_height.to_le_bytes());
        index.extend_from_slice(&e.file_offset.to_le_bytes());
        index.extend_from_slice(&e.data_size.to_le_bytes());
        index.extend_from_slice(&e.checksum.to_le_bytes());
    }
    let checksum = HG4DWriter::calculate_checksum(&index);
    file.extend_from_slice(&index);
    file.extend_from_slice(&offset.to_le_bytes());
    file.extend_from_slice(&(entries.len() as u32).to_le_bytes());
    file.extend_from_slice(&checksum.to_le_bytes());
    file
}

#[test]
fn an_index_must_fit_its_file() {
    let record = encode_stream_layer(&plain(layer(2, 5, 1))).unwrap();
    let entry = |layer_number, file_offset, data_size| LayerIndexEntry {
        layer_number,
        z_height: 5,
        file_offset,
        data_size,
        checksum: HG4DWriter::calculate_checksum(&record),
    };
    let size = record.len() as u32;
    let good = file_with_index(&record, &[entry(2, 12, size)]);
    let reader = HG4DReader::open(&good).unwrap();
    assert_eq!(reader.read_layer(2), Ok(plain(layer(2, 5, 1))));
    // A record that runs into the index.
    let bad = file_with_index(&record, &[entry(2, 12, size + 1)]);
    assert!(matches!(HG4DReader::open(&bad), Err(JobFileError::BadIndex)));
    let bad = file_with_index(&record, &[entry(2, u64::MAX, 1)]);
    assert!(matches!(HG4DReader::open(&bad), Err(JobFileError::BadIndex)));
    // Layer numbers that do not increase.
    let bad = file_with_index(&record, &[entry(2, 12, size), entry(2, 12, size)]);
    assert!(matches!(HG4DReader::open(&bad), Err(JobFileError::BadIndex)));
    // A record that is no layer.
    let junk = [1u8, 2, 3];
    let e = LayerIndexEntry {
        layer_number: 0,
        z_height: 0,
        file_offset: 12,
        data_size: 3,
        checksum: HG4DWriter::calculate_checksum(&junk),
    };
    let bad = file_with_index(&junk, &[e]);
    let reader = HG4DReader::open(&bad).unwrap();
    assert_eq!(reader.read_layer(0), Err(JobFileError::BadLayer));
}

#[test]
fn barriers_travel_with_their_layer() {
    let with_barriers = StreamLayer {
        layer: layer(3, 800, 2),
        barriers: vec![
            G4WCommand { wait_type: WaitType::Valves, timeout_ms: Some(1_000) },
            G4WCommand { wait_type: WaitType::Duration(250), timeout_ms: None },
            G4WCommand { wait_type: WaitType::Temperature, timeout_ms: Some(u32::MAX) },
            G4WCommand { wait_type: WaitType::Pressure, timeout_ms: Some(0) },
        ],
    };
    let bytes = encode_stream_layer(&with_barriers).unwrap();
    assert_eq!(decode_stream_layer(&bytes), Some(with_barriers.clone()));
    assert_eq!(decode_stream_layer(&bytes[..bytes.len() - 1]), None);
    // The record of a layer alone is no record of the stream.
    assert_eq!(decode_stream_layer(&encode_layer(&with_barriers.layer).unwrap()), None);
    let mut writer = HG4DWriter::create(b"").unwrap();
    writer.write_layer(&layer(1, 400, 1)).unwrap();
    writer.write_stream_layer(&with_barriers).unwrap();
    let file = writer.finalize();
    let reader = HG4DReader::open(&file).unwrap();
    assert_eq!(reader.read_layer(3), Ok(with_barriers));
    assert_eq!(reader.read_layer(1), Ok(plain(layer(1, 400, 1))));
}

#[test]
fn a_layer_is_read_straight_from_the_bytes() {
    let (layers, file) = three_layers();
    assert_eq!(read_layer_from(&file, 7), Ok(plain(layers[2].clone())));
    assert_eq!(read_layer_from(&file, 0), Ok(plain(layers[0].clone())));
    assert_eq!(read_layer_from(&file, 2), Err(JobFileError::UnknownLayer));
    // A file that does not open gives the error of the opening.
    assert_eq!(read_layer_from(&file[..27], 0), Err(JobFileError::TooShort));
    let mut bad = file.clone();
    bad[0] ^= 1;
    assert_eq!(read_layer_from(&bad, 0), Err(JobFileError::BadMagic));
    let n = file.len();
    let mut bad = file.clone();
    bad[n - 1] ^= 0x80;
    assert_eq!(read_layer_from(&bad, 0), Err(JobFileError::IndexChecksum));
    // A damaged record is refused, the others are read.
    let mut bad = file.clone();
    bad[25] ^= 0x10;
    assert_eq!(read_layer_from(&bad, 0), Err(JobFileError::LayerChecksum));
    assert_eq!(read_layer_from(&bad, 1), Ok(plain(layers[1].clone())));
}

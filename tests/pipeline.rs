use murkmap_chunker::export::{
    binary_round_trip, csv_lines, decode_binary, encode_binary, export_column, export_records, keep_written_file,
    output_directory, output_file_path, record_line, OutputBody, OutputFormat,
};
use murkmap_chunker::extract::{air, extract_blocks, BlockRecord, SubChunkVolume, VOLUME_SIZE};
use murkmap_chunker::scan::{plan_column, probe_slot, ScanConfig, SLOT_COUNT};

fn local(lx: usize, ly: usize, lz: usize) -> usize {
    ly * 256 + lx * 16 + lz
}

fn volume_with(slot: (i32, i32, i32), blocks: &[((usize, usize, usize), &str)]) -> SubChunkVolume {
    let mut v = SubChunkVolume::empty(slot.0, slot.1, slot.2);
    for ((lx, ly, lz), name) in blocks {
        v.names[local(*lx, *ly, *lz)] = name.to_string();
    }
    v
}

fn columns(cfg: &ScanConfig) -> Vec<(i32, i32)> {
    (0..cfg.column_count()).map(|k| cfg.column_at(k)).collect()
}

fn record(x: i32, y: i32, z: i32, name: &str) -> BlockRecord {
    BlockRecord { x, y, z, name: name.to_string() }
}

fn tuples(rs: &[BlockRecord]) -> Vec<(i32, i32, i32, String)> {
    rs.iter().map(|r| (r.x, r.y, r.z, r.name.clone())).collect()
}

#[test]
fn columns_cover_the_rectangle_in_order() {
    let cfg = ScanConfig::new(2, 1);
    assert_eq!(cfg.column_count(), 8);
    assert_eq!(
        columns(&cfg),
        vec![(-2, -1), (-2, 0), (-1, -1), (-1, 0), (0, -1), (0, 0), (1, -1), (1, 0)]
    );
}

#[test]
fn columns_for_unit_limits() {
    let cfg = ScanConfig::new(1, 1);
    assert_eq!(columns(&cfg), vec![(-1, -1), (-1, 0), (0, -1), (0, 0)]);
}

#[test]
fn zero_or_negative_limits_scan_nothing() {
    assert_eq!(ScanConfig::new(0, 5).column_count(), 0);
    assert_eq!(ScanConfig::new(5, 0).column_count(), 0);
    assert_eq!(ScanConfig::new(-3, 4).column_count(), 0);
    assert_eq!(ScanConfig::new(-1, -1).column_count(), 0);
}

#[test]
fn largest_limits_count_fits() {
    let cfg = ScanConfig::new(i32::MAX, i32::MAX);
    assert_eq!(cfg.column_count(), 4 * (i32::MAX as u64) * (i32::MAX as u64));
    assert_eq!(cfg.column_at(0), (-i32::MAX, -i32::MAX));
    assert_eq!(cfg.column_at(cfg.column_count() - 1), (i32::MAX - 1, i32::MAX - 1));
}

#[test]
fn probe_order_is_top_down() {
    let heights: Vec<i32> = (0..SLOT_COUNT).map(|i| probe_slot(3, -2, i).1).collect();
    assert_eq!(heights, (-4..20).rev().collect::<Vec<i32>>());
    assert_eq!(probe_slot(3, -2, 0), (3, 19, -2));
}

#[test]
fn all_absent_column_plans_no_fetch() {
    let present = vec![false; SLOT_COUNT];
    assert!(plan_column(0, 0, &present).is_empty());
    let out = export_column(&Vec::new(), OutputFormat::Text);
    assert!(out.is_none());
}

#[test]
fn plan_keeps_present_slots_top_down() {
    let mut present = vec![false; SLOT_COUNT];
    present[0] = true;
    present[14] = true;
    present[23] = true;
    assert_eq!(plan_column(4, -7, &present), vec![(4, 19, -7), (4, 5, -7), (4, -4, -7)]);
}

#[test]
fn world_coordinates_follow_slot_position() {
    for lx in 0..16 {
        for ly in 0..16 {
            for lz in 0..16 {
                let v = volume_with((2, -3, -1), &[((lx, ly, lz), "minecraft:dirt")]);
                let rs = extract_blocks(&vec![v]);
                assert_eq!(rs.len(), 1);
                assert_eq!(
                    (rs[0].x, rs[0].y, rs[0].z),
                    (lx as i32 + 32, ly as i32 - 48, lz as i32 - 16)
                );
            }
        }
    }
}

#[test]
fn all_air_volume_yields_no_records_and_no_file() {
    let v = SubChunkVolume::empty(0, 0, 0);
    assert_eq!(v.names.len(), VOLUME_SIZE);
    assert!(v.names.iter().all(|n| *n == air()));
    assert!(extract_blocks(&vec![v.clone()]).is_empty());
    assert!(export_column(&vec![v.clone()], OutputFormat::Text).is_none());
    assert!(export_column(&vec![v], OutputFormat::Binary).is_none());
    assert!(!keep_written_file(0));
    assert!(keep_written_file(1));
}

#[test]
fn extraction_order_is_height_then_x_then_z() {
    let v = volume_with(
        (0, 0, 0),
        &[((1, 0, 0), "b"), ((0, 0, 1), "a"), ((0, 1, 0), "c"), ((15, 15, 15), "d")],
    );
    let w = volume_with((0, -1, 0), &[((0, 0, 0), "e")]);
    let rs = extract_blocks(&vec![v, w]);
    assert_eq!(
        tuples(&rs),
        vec![
            (0, 0, 1, "a".to_string()),
            (1, 0, 0, "b".to_string()),
            (0, 1, 0, "c".to_string()),
            (15, 15, 15, "d".to_string()),
            (0, -16, 0, "e".to_string()),
        ]
    );
}

#[test]
fn file_named_by_first_record_not_column() {
    let v = volume_with((1, 2, 3), &[((5, 0, 7), "minecraft:stone"), ((6, 0, 7), "minecraft:dirt")]);
    let f = export_column(&vec![v], OutputFormat::Binary).unwrap();
    assert_eq!(f.path, "./chunk_binary_data/21_55.mmbf");
    let g = export_column(&vec![volume_with((-1, 0, -2), &[((0, 0, 0), "x")])], OutputFormat::Text).unwrap();
    assert_eq!(g.path, "./csvs/-16_-32.csv");
}

#[test]
fn text_lines_quote_the_name() {
    let r = record(-5, 80, 12, "minecraft:stone");
    assert_eq!(record_line(&r), "-5,80,12,\"minecraft:stone\"\n");
    let lines = csv_lines(&vec![r.clone(), record(0, -64, 0, "minecraft:bedrock")]);
    assert_eq!(lines, vec!["-5,80,12,\"minecraft:stone\"\n", "0,-64,0,\"minecraft:bedrock\"\n"]);
}

#[test]
fn binary_round_trip_keeps_order() {
    let rs = vec![
        record(3, 1, 2, "minecraft:stone"),
        record(-2147483648, 2147483647, 0, "minecraft:oak_log"),
        record(0, 0, 0, ""),
    ];
    let bytes = encode_binary(&rs);
    assert_eq!(&bytes[0..2], &[0x1f, 0x8b]);
    let back = decode_binary(&bytes).unwrap();
    assert_eq!(tuples(&back), tuples(&rs));
    let raw = bincode::serialize(&tuples(&rs)).unwrap();
    assert_ne!(bytes, raw);
}

#[test]
fn binary_of_empty_list_round_trips() {
    let bytes = encode_binary(&Vec::new());
    assert!(!bytes.is_empty());
    assert!(decode_binary(&bytes).unwrap().is_empty());
}

#[test]
fn decode_rejects_garbage() {
    assert!(decode_binary(&vec![1, 2, 3]).is_none());
}

#[test]
fn export_records_empty_gives_no_file() {
    assert!(export_records(&Vec::new(), OutputFormat::Binary).is_none());
    assert!(export_records(&Vec::new(), OutputFormat::Text).is_none());
    let rs = vec![record(2, 3, 4, "minecraft:stone")];
    let f = export_records(&rs, OutputFormat::Binary).unwrap();
    assert_eq!(f.path, "./chunk_binary_data/2_4.mmbf");
    match f.body {
        OutputBody::Bytes(b) => assert_eq!(b, encode_binary(&rs)),
        OutputBody::Lines(_) => panic!("binary body expected"),
    }
}

#[test]
fn directories_per_format() {
    assert_eq!(output_directory(OutputFormat::Text), "./csvs");
    assert_eq!(output_directory(OutputFormat::Binary), "./chunk_binary_data");
    let r = record(7, 1, -9, "a");
    assert_eq!(output_file_path(OutputFormat::Text, &r), "./csvs/7_-9.csv");
}

#[test]
fn single_stone_world_exports_one_record() {
    let cfg = ScanConfig::new(1, 1);
    let mut files = Vec::new();
    for (x, z) in columns(&cfg) {
        let mut present = vec![false; SLOT_COUNT];
        if (x, z) == (0, 0) {
            present[14] = true;
        }
        let slots = plan_column(x, z, &present);
        let volumes: Vec<SubChunkVolume> = slots
            .iter()
            .map(|s| volume_with(*s, &[((0, 0, 0), "minecraft:stone")]))
            .collect();
        if let Some(f) = export_column(&volumes, OutputFormat::Text) {
            files.push(f);
        }
    }
    assert_eq!(files.len(), 1);
    assert_eq!(files[0].path, "./csvs/0_0.csv");
    match &files[0].body {
        OutputBody::Lines(ls) => assert_eq!(ls, &vec!["0,80,0,\"minecraft:stone\"\n".to_string()]),
        OutputBody::Bytes(_) => panic!("text body expected"),
    }
    let volumes = vec![volume_with((0, 5, 0), &[((0, 0, 0), "minecraft:stone")])];
    let f = export_column(&volumes, OutputFormat::Binary).unwrap();
    match &f.body {
        OutputBody::Bytes(b) => {
            assert_eq!(tuples(&decode_binary(b).unwrap()), vec![(0, 80, 0, "minecraft:stone".to_string())])
        }
        OutputBody::Lines(_) => panic!("binary body expected"),
    }
}

#[test]
fn round_trip_function_returns_body_and_records() {
    let rs = vec![record(1, 2, 3, "minecraft:stone"), record(-4, -5, -6, "minecraft:glass")];
    let (bytes, back) = binary_round_trip(&rs);
    assert_eq!(bytes, encode_binary(&rs));
    assert_eq!(tuples(&back), tuples(&rs));
}

fn binary_records(f: &murkmap_chunker::export::OutputFile) -> Vec<(i32, i32, i32, String)> {
    match &f.body {
        OutputBody::Bytes(b) => {
            assert!(!b.is_empty());
            tuples(&decode_binary(b).unwrap())
        }
        OutputBody::Lines(_) => panic!("binary body expected"),
    }
}

#[test]
fn one_stone_binary_file_named_by_world_coordinates() {
    let v = volume_with((1, 0, 2), &[((3, 0, 5), "minecraft:stone")]);
    let f = export_column(&vec![v], OutputFormat::Binary).unwrap();
    assert_eq!(f.path, "./chunk_binary_data/19_37.mmbf");
    assert_eq!(binary_records(&f), vec![(19, 0, 37, "minecraft:stone".to_string())]);
}

#[test]
fn far_corner_block_in_negative_slot() {
    let v = volume_with((-1, -4, -1), &[((15, 15, 15), "minecraft:stone")]);
    let f = export_column(&vec![v], OutputFormat::Binary).unwrap();
    assert_eq!(f.path, "./chunk_binary_data/-1_-1.mmbf");
    assert_eq!(binary_records(&f), vec![(-1, -49, -1, "minecraft:stone".to_string())]);
}

#[test]
fn single_stone_world_binary_run() {
    let cfg = ScanConfig::new(1, 1);
    let mut files = Vec::new();
    for (x, z) in columns(&cfg) {
        let mut present = vec![false; SLOT_COUNT];
        if (x, z) == (0, 0) {
            present[14] = true;
        }
        let volumes: Vec<SubChunkVolume> = plan_column(x, z, &present)
            .iter()
            .map(|s| volume_with(*s, &[((0, 0, 0), "minecraft:stone")]))
            .collect();
        if let Some(f) = export_column(&volumes, OutputFormat::Binary) {
            files.push(f);
        }
    }
    assert_eq!(files.len(), 1);
    assert_eq!(files[0].path, "./chunk_binary_data/0_0.mmbf");
    assert_eq!(binary_records(&files[0]), vec![(0, 80, 0, "minecraft:stone".to_string())]);
}

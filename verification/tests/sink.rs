use veloconv::csvwriter::{csv_header, CsvWriter};
use veloconv::framewriter::{FrameWriter, Output};
use veloconv::hdfwriter::{add_str_attribute, add_u32_attribute, AttributeValue, HdfWriter};
use veloconv::velopoint::{Position, VeloPoint};

const HEADER: &str = "\"intensity\",\"laser_id\",\"azimuth\",\"distance_m\",\"adjustedtime\",\"timestamp\",\"vertical_angle\",\"Points_m_XYZ:0\",\"Points_m_XYZ:1\",\"Points_m_XYZ:2\"";

fn point(azimuth: u16) -> VeloPoint {
    VeloPoint {
        reflectivity: 9,
        channel: 4,
        azimuth,
        distance_mm: 1500,
        timestamp: 77,
        vertical_angle: 12,
    }
}

fn position(x: f32, y: f32, z: f32) -> Position {
    Position { x: format!("{}", x), y: format!("{}", y), z: format!("{}", z) }
}

#[test]
fn header_row() {
    assert_eq!(csv_header(), HEADER);
}

#[test]
fn row_of_a_point() {
    let point = VeloPoint {
        reflectivity: 200,
        channel: 31,
        azimuth: 35999,
        distance_mm: 10_000,
        timestamp: 3_599_999_999,
        vertical_angle: -15,
    };
    let row = point.to_string(&position(0.0, 10.0, -2.5));
    assert_eq!(row, "200,31,35999,10,3599999999,3599999999,-15,0,10,-2.5\n");
}

#[test]
fn row_writes_the_distance_in_metres() {
    let place = position(1.0, 2.0, 3.0);
    let row = |distance_mm: u32| {
        let point = VeloPoint { distance_mm, ..point(0) };
        point.to_string(&place)
    };
    assert_eq!(row(0), "9,4,0,0,77,77,12,1,2,3\n");
    assert_eq!(row(4), "9,4,0,0.004,77,77,12,1,2,3\n");
    assert_eq!(row(40), "9,4,0,0.04,77,77,12,1,2,3\n");
    assert_eq!(row(400), "9,4,0,0.4,77,77,12,1,2,3\n");
    assert_eq!(row(1236), "9,4,0,1.236,77,77,12,1,2,3\n");
    assert_eq!(row(20_050), "9,4,0,20.05,77,77,12,1,2,3\n");
    assert_eq!(row(262_140), "9,4,0,262.14,77,77,12,1,2,3\n");
}

#[test]
fn distance_text_is_that_of_the_single_precision_value() {
    let place = position(0.0, 0.0, 0.0);
    for raw in (0u32..=65_535).step_by(7).chain([65_535]) {
        let point = VeloPoint { distance_mm: 4 * raw, ..point(0) };
        let metres = raw as f32 * 4.0 / 1000.0;
        let expected = format!("9,4,0,{},77,77,12,0,0,0\n", metres);
        assert_eq!(point.to_string(&place), expected);
    }
}

#[test]
fn text_sink_round_trip() {
    let mut writer = CsvWriter::create("out".to_string(), "scan".to_string());
    let first = VeloPoint {
        reflectivity: 10,
        channel: 0,
        azimuth: 100,
        distance_mm: 10_000,
        timestamp: 1000,
        vertical_angle: 16,
    };
    let second = VeloPoint {
        reflectivity: 20,
        channel: 1,
        azimuth: 200,
        distance_mm: 5_004,
        timestamp: 1001,
        vertical_angle: 15,
    };
    assert!(writer.write_row(first).is_none());
    assert!(writer.write_row(second).is_none());
    assert_eq!(writer.buffered(), 2);
    let file = writer.finalize().unwrap();
    assert_eq!(file.path, "out/scan_0000.csv");
    assert_eq!(file.points, vec![first, second]);
    let text = file.text(&vec![position(0.0, 10.0, 0.0), position(5.0, 0.0, 0.5)]).unwrap();
    let expected = format!(
        "{}\n10,0,100,10,1000,1000,16,0,10,0\n20,1,200,5.004,1001,1001,15,5,0,0.5\n",
        HEADER
    );
    assert_eq!(text, expected);
    assert_eq!(text.matches('\n').count(), 3);
    assert_eq!(text.lines().count(), 3);
    assert_eq!(text.lines().next(), Some(HEADER));
}

#[test]
fn text_needs_a_position_for_every_point() {
    let mut writer = CsvWriter::create("d".to_string(), "p".to_string());
    writer.write_row(point(1));
    let file = writer.finalize().unwrap();
    assert!(file.text(&vec![]).is_none());
    assert!(file.text(&vec![position(0.0, 0.0, 0.0), position(0.0, 0.0, 0.0)]).is_none());
    assert_eq!(
        file.text(&vec![position(0.0, 0.0, 0.0)]).unwrap(),
        format!("{}\n9,4,1,1.5,77,77,12,0,0,0\n", HEADER)
    );
}

#[test]
fn file_names_count_up() {
    let mut writer = CsvWriter::create("run7".to_string(), "run7".to_string());
    let mut paths = Vec::new();
    for azimuth in [300, 200, 100] {
        if let Some(file) = writer.write_row(point(azimuth)) {
            assert_eq!(file.points.len(), 1);
            paths.push(file.path);
        }
    }
    paths.push(writer.finalize().unwrap().path);
    assert_eq!(paths, vec!["run7/run7_0000.csv", "run7/run7_0001.csv", "run7/run7_0002.csv"]);
    assert_eq!(writer.file_index(), 3);
    assert!(writer.finalize().is_none());
}

#[test]
fn file_index_grows_beyond_four_digits() {
    let mut writer = CsvWriter::create("d".to_string(), "p".to_string());
    let mut last = String::new();
    for i in 0..10_002u16 {
        if let Some(file) = writer.write_row(point(20_000 - i)) {
            last = file.path;
        }
    }
    assert_eq!(last, "d/p_10000.csv");
}

#[test]
fn datasets_are_named_by_index() {
    let mut writer = HdfWriter::create("scan".to_string(), false);
    assert_eq!(writer.file_name(), "scan.h5");
    writer.write_row(point(300));
    writer.write_row(point(301));
    let first = writer.write_row(point(2)).unwrap();
    assert_eq!(first.name, "frame00000");
    assert_eq!(first.deflate, 0);
    assert_eq!(first.points, vec![point(300), point(301)]);
    let second = writer.finalize().unwrap();
    assert_eq!(second.name, "frame00001");
    assert_eq!(second.points, vec![point(2)]);
    assert_eq!(writer.dataset_index(), 2);
    assert_eq!(writer.buffered(), 0);
}

#[test]
fn compressed_datasets_deflate_at_level_one() {
    let mut writer = HdfWriter::create("scan".to_string(), true);
    writer.write_row(point(1));
    assert_eq!(writer.finalize().unwrap().deflate, 1);
}

#[test]
fn metadata_is_written_once() {
    let mut writer = HdfWriter::create("scan".to_string(), false);
    let attributes = writer.write_attribute(32, 600, 0x37, "maker", "model-x").unwrap();
    let names: Vec<&str> = attributes.iter().map(|a| a.name.as_str()).collect();
    assert_eq!(names, vec!["laser number", "motor speed", "return mode", "manufacturer", "model"]);
    assert!(matches!(attributes[0].value, AttributeValue::Unsigned(32)));
    assert!(matches!(attributes[1].value, AttributeValue::Unsigned(600)));
    assert!(matches!(attributes[2].value, AttributeValue::Unsigned(0x37)));
    assert!(matches!(&attributes[3].value, AttributeValue::Text(t) if t == "maker"));
    assert!(matches!(&attributes[4].value, AttributeValue::Text(t) if t == "model-x"));
    assert!(writer.write_attribute(32, 600, 0x37, "maker", "model-x").is_none());
}

#[test]
fn single_attributes() {
    let text = add_str_attribute("model", "x");
    assert_eq!(text.name, "model");
    assert!(matches!(&text.value, AttributeValue::Text(t) if t == "x"));
    let number = add_u32_attribute("motor speed", 1200);
    assert_eq!(number.name, "motor speed");
    assert!(matches!(number.value, AttributeValue::Unsigned(1200)));
}

#[test]
fn text_sink_has_no_attributes() {
    let mut writer = FrameWriter::Csv(CsvWriter::create("d".to_string(), "p".to_string()));
    assert!(writer.write_attribute(32, 600, 0x37, "maker", "model").is_none());
    assert!(writer.write_attribute(32, 600, 0x37, "maker", "model").is_none());
    let mut writer = FrameWriter::Hdf(HdfWriter::create("f".to_string(), false));
    assert!(writer.write_attribute(32, 600, 0x37, "maker", "model").is_some());
    assert!(writer.write_attribute(32, 600, 0x37, "maker", "model").is_none());
}

#[test]
fn either_sink_flushes_whole_frames() {
    let rows: Vec<VeloPoint> = [100u16, 200, 300, 50, 150].iter().map(|a| point(*a)).collect();
    let mut text = FrameWriter::Csv(CsvWriter::create("d".to_string(), "p".to_string()));
    let mut outputs = text.write_rows(&rows);
    assert_eq!(text.index(), 1);
    outputs.extend(text.finalize());
    assert_eq!(outputs.len(), 2);
    match &outputs[0] {
        Output::File(file) => {
            assert_eq!(file.path, "d/p_0000.csv");
            assert_eq!(file.points, rows[..3].to_vec());
        }
        Output::Dataset(_) => panic!("a text sink hands out files"),
    }
    match &outputs[1] {
        Output::File(file) => {
            assert_eq!(file.path, "d/p_0001.csv");
            assert_eq!(file.points, rows[3..].to_vec());
        }
        Output::Dataset(_) => panic!("a text sink hands out files"),
    }

    let mut binary = FrameWriter::Hdf(HdfWriter::create("f".to_string(), true));
    let mut outputs = Vec::new();
    for row in &rows {
        outputs.extend(binary.write_row(*row));
    }
    outputs.extend(binary.finalize());
    assert_eq!(outputs.len(), 2);
    match &outputs[1] {
        Output::Dataset(dataset) => {
            assert_eq!(dataset.name, "frame00001");
            assert_eq!(dataset.deflate, 1);
            assert_eq!(dataset.points, rows[3..].to_vec());
        }
        Output::File(_) => panic!("a typed-binary sink hands out datasets"),
    }
    assert_eq!(binary.index(), 2);
}

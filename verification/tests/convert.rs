use veloconv::convert::{count_off_nominal, decode_frame, Converter};
use veloconv::framewriter::Output;
use veloconv::packet::DecodeError;
use veloconv::velopoint::VeloPoint;
use veloconv::OutType;

/// A link-layer frame that carries a regular payload of eight blocks, the
/// blocks at the given azimuths.
fn frame(azimuths: [u16; 8]) -> Vec<u8> {
    let mut payload = vec![0u8; 1080];
    payload[7] = 8;
    payload[1062] = 0x39;
    for (b, azimuth) in azimuths.iter().enumerate() {
        payload[12 + 130 * b..14 + 130 * b].copy_from_slice(&azimuth.to_le_bytes());
    }
    let total = (20 + 8 + payload.len()) as u16;
    let mut bytes = vec![0u8; 14];
    let mut ip = vec![0u8; 20];
    ip[0] = 0x45;
    ip[2..4].copy_from_slice(&total.to_be_bytes());
    bytes.extend_from_slice(&ip);
    bytes.extend_from_slice(&[0u8; 8]);
    bytes.extend_from_slice(&payload);
    bytes
}

fn points_of(output: &Output) -> &Vec<VeloPoint> {
    match output {
        Output::File(file) => &file.points,
        Output::Dataset(dataset) => &dataset.points,
    }
}

#[test]
fn frame_decodes_to_the_points_of_its_payload() {
    let points = decode_frame(&frame([10, 20, 30, 40, 50, 60, 70, 80])).unwrap();
    assert_eq!(points.len(), 256);
    assert_eq!(points[0].azimuth, 10);
    assert_eq!(points[255].azimuth, 80);
    assert_eq!(points[33].channel, 1);
}

#[test]
fn undecodable_frames_are_reported() {
    assert_eq!(decode_frame(&[1, 2, 3]), Err(DecodeError::TruncatedFrame));
    let whole = frame([0; 8]);
    assert_eq!(decode_frame(&whole[..1000]), Err(DecodeError::TruncatedFrame));
    // A complete frame around a payload that is too short.
    let mut short = whole[..42 + 100].to_vec();
    short[16..18].copy_from_slice(&128u16.to_be_bytes());
    assert_eq!(decode_frame(&short), Err(DecodeError::TooShort));
    // A payload that announces more blocks than it holds.
    let mut many = whole.clone();
    many[42 + 7] = 9;
    assert_eq!(decode_frame(&many), Err(DecodeError::BlockCountMismatch));
}

#[test]
fn conversion_cuts_revolutions_across_packets() {
    let mut converter = Converter::new(OutType::Csv, "drive", false);
    let first = converter.feed(&frame([35000, 35200, 35400, 35600, 35800, 100, 300, 500])).unwrap();
    assert_eq!(first.len(), 1);
    assert_eq!(points_of(&first[0]).len(), 5 * 32);
    match &first[0] {
        Output::File(file) => assert_eq!(file.path, "drive/drive_0000.csv"),
        Output::Dataset(_) => panic!("a text sink hands out files"),
    }
    let second = converter.feed(&frame([700, 900, 1100, 1300, 1500, 1700, 1900, 2100])).unwrap();
    assert!(second.is_empty());
    assert_eq!(converter.output_index(), 1);
    let last = converter.finish().unwrap();
    assert_eq!(points_of(&last).len(), 11 * 32);
    assert_eq!(points_of(&last)[0].azimuth, 100);
    assert_eq!(points_of(&last)[11 * 32 - 1].azimuth, 2100);
    assert!(converter.finish().is_none());
    assert_eq!(converter.packets(), 2);
    assert_eq!(converter.dropped(), 0);
    assert_eq!(converter.off_nominal(), 0);
    assert_eq!(converter.output_index(), 2);
}

#[test]
fn dropped_frames_are_counted_and_skipped() {
    let mut converter = Converter::new(OutType::Hdf, "drive", true);
    converter.feed(&frame([1, 2, 3, 4, 5, 6, 7, 8])).unwrap();
    assert_eq!(converter.feed(&[0u8; 10]).err(), Some(DecodeError::TruncatedFrame));
    let mut many = frame([0; 8]);
    many[42 + 7] = 200;
    assert_eq!(converter.feed(&many).err(), Some(DecodeError::BlockCountMismatch));
    converter.feed(&frame([9, 10, 11, 12, 13, 14, 15, 16])).unwrap();
    assert_eq!(converter.packets(), 4);
    assert_eq!(converter.dropped(), 2);
    let all = converter.finish().unwrap();
    assert_eq!(points_of(&all).len(), 512);
    match &all {
        Output::Dataset(dataset) => {
            assert_eq!(dataset.name, "frame00000");
            assert_eq!(dataset.deflate, 1);
        }
        Output::File(_) => panic!("a typed-binary sink hands out datasets"),
    }
}

#[test]
fn azimuths_beyond_a_full_turn_are_counted() {
    let mut converter = Converter::new(OutType::Csv, "drive", false);
    converter.feed(&frame([35999, 36000, 36095, 65535, 0, 1, 2, 3])).unwrap();
    assert_eq!(converter.off_nominal(), 3 * 32);
    let points = decode_frame(&frame([36000, 0, 0, 0, 0, 0, 0, 36001])).unwrap();
    assert_eq!(count_off_nominal(&points), 64);
    assert_eq!(count_off_nominal(&vec![]), 0);
}

#[test]
fn metadata_goes_to_the_typed_binary_sink_only() {
    let mut text = Converter::new(OutType::Csv, "drive", false);
    assert!(text.write_attribute(32, 600, 0x37, "maker", "model").is_none());
    let mut binary = Converter::new(OutType::Hdf, "drive", false);
    assert_eq!(binary.write_attribute(32, 600, 0x37, "maker", "model").unwrap().len(), 5);
    assert!(binary.write_attribute(32, 600, 0x37, "maker", "model").is_none());
}

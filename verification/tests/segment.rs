use veloconv::segment::FrameBuffer;
use veloconv::velopoint::VeloPoint;

fn point(azimuth: u16, channel: u8) -> VeloPoint {
    VeloPoint {
        reflectivity: 1,
        channel,
        azimuth,
        distance_mm: 2000,
        timestamp: 7,
        vertical_angle: 16 - channel as i32,
    }
}

fn azimuths(points: &[VeloPoint]) -> Vec<u16> {
    points.iter().map(|p| p.azimuth).collect()
}

#[test]
fn frames_end_where_the_azimuth_decreases() {
    let mut buffer = FrameBuffer::new();
    let mut frames = Vec::new();
    for azimuth in [100, 200, 300, 50, 150] {
        if let Some(frame) = buffer.submit(point(azimuth, 0)) {
            frames.push(frame);
        }
    }
    assert_eq!(frames.len(), 1);
    assert_eq!(frames[0].index, 0);
    assert_eq!(azimuths(&frames[0].points), vec![100, 200, 300]);
    let last = buffer.finalize().unwrap();
    assert_eq!(last.index, 1);
    assert_eq!(azimuths(&last.points), vec![50, 150]);
    assert_eq!(buffer.len(), 0);
    assert_eq!(buffer.index(), 2);
}

#[test]
fn finalize_hands_out_the_remainder_once() {
    let mut buffer = FrameBuffer::new();
    assert!(buffer.finalize().is_none());
    assert_eq!(buffer.index(), 0);
    let points = vec![point(10, 0), point(10, 1), point(20, 2)];
    assert!(buffer.submit_all(&points).is_empty());
    assert_eq!(buffer.len(), 3);
    let last = buffer.finalize().unwrap();
    assert_eq!(last.points, points);
    assert_eq!(last.index, 0);
    assert!(buffer.finalize().is_none());
    assert_eq!(buffer.index(), 1);
}

#[test]
fn equal_azimuths_stay_in_one_frame() {
    let mut buffer = FrameBuffer::new();
    let points: Vec<VeloPoint> = (0..32).map(|c| point(500, c)).collect();
    assert!(buffer.submit_all(&points).is_empty());
    assert_eq!(buffer.len(), 32);
    assert_eq!(buffer.previous_azimuth(), 500);
}

#[test]
fn first_point_never_ends_a_frame() {
    let mut buffer = FrameBuffer::new();
    assert_eq!(buffer.previous_azimuth(), 0);
    assert!(buffer.submit(point(0, 0)).is_none());
    assert!(buffer.submit(point(0, 1)).is_none());
    assert_eq!(buffer.len(), 2);
}

#[test]
fn the_point_that_ends_a_frame_starts_the_next() {
    let mut buffer = FrameBuffer::new();
    buffer.submit(point(300, 0));
    let frame = buffer.submit(point(299, 1)).unwrap();
    assert_eq!(frame.points, vec![point(300, 0)]);
    assert_eq!(buffer.len(), 1);
    assert_eq!(buffer.previous_azimuth(), 299);
    let frame = buffer.submit(point(298, 2)).unwrap();
    assert_eq!(frame.points, vec![point(299, 1)]);
    assert_eq!(frame.index, 1);
}

#[test]
fn no_point_is_lost_in_batches() {
    let stream: Vec<VeloPoint> =
        [5u16, 9, 9, 3, 4, 1, 1, 1, 0, 7, 8, 2].iter().map(|a| point(*a, 3)).collect();
    let mut whole = FrameBuffer::new();
    let mut frames = whole.submit_all(&stream);
    frames.extend(whole.finalize());
    let flat: Vec<VeloPoint> = frames.iter().flat_map(|f| f.points.clone()).collect();
    assert_eq!(flat, stream);
    let lengths: Vec<usize> = frames.iter().map(|f| f.points.len()).collect();
    assert_eq!(lengths, vec![3, 2, 3, 3, 1]);
    let indexes: Vec<u32> = frames.iter().map(|f| f.index).collect();
    assert_eq!(indexes, vec![0, 1, 2, 3, 4]);

    // The same stream in two batches gives the same frames.
    let mut parts = FrameBuffer::new();
    let mut again = parts.submit_all(&stream[..4].to_vec());
    again.extend(parts.submit_all(&stream[4..].to_vec()));
    again.extend(parts.finalize());
    assert_eq!(again.len(), frames.len());
    for (a, b) in again.iter().zip(frames.iter()) {
        assert_eq!(a.points, b.points);
        assert_eq!(a.index, b.index);
    }
}

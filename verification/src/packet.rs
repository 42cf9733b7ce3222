//! Decoder for the sensor's payload layout.
//!
//! A payload carries a six-byte header at offset 6 whose second byte is the
//! number of blocks, the blocks themselves from offset 12 on (130 bytes
//! each: one azimuth and 32 four-byte channel returns), and a tail at offset
//! 1052 holding the return mode, the date and time, and a microsecond
//! counter.

use vstd::prelude::*;
use vstd::slice::slice_subrange;
use crate::velopoint::VeloPoint;

verus! {

/// Offset of the block count within the payload.
pub const BLOCK_COUNT_AT: usize = 7;

/// Offset of the first block within the payload.
pub const BODY_START: usize = 12;

/// Length of one block in bytes.
pub const BLOCK_LEN: usize = 130;

/// Number of channels in one block.
pub const CHANNELS: usize = 32;

/// Offset of the return mode within the payload.
pub const RETURN_MODE_AT: usize = 1062;

/// Offset of the six-byte date and time field within the payload.
pub const DATE_TIME_AT: usize = 1065;

/// Offset of the little-endian microsecond counter within the payload.
pub const MICROS_AT: usize = 1071;

/// Smallest length of a payload: everything up to the end of the tail.
pub const MIN_PAYLOAD_LEN: usize = 1076;

/// Why a payload could not be decoded.
#[derive(Clone, Copy, Debug, PartialEq, Eq, Structural)]
pub enum DecodeError {
    /// The payload ends before the end of the tail.
    TooShort,
    /// The header announces more blocks than the payload holds.
    BlockCountMismatch,
    /// A block is shorter than 130 bytes.
    TruncatedBlock,
    /// A link-layer frame ends before a field that its headers announce.
    TruncatedFrame,
}

/// The value of two bytes read as a little-endian number.
pub open spec fn le16(lo: u8, hi: u8) -> int {
    lo as int + 256 * (hi as int)
}

/// The value of four bytes read as a little-endian number.
pub open spec fn le32(b0: u8, b1: u8, b2: u8, b3: u8) -> int {
    b0 as int + 256 * (b1 as int) + 65536 * (b2 as int) + 16777216 * (b3 as int)
}

/// Whether a return mode selects dual-return firing.
pub open spec fn is_dual_return(return_mode: u8) -> bool {
    return_mode == 0x37 || return_mode == 0x38
}

/// The packet's base time in microseconds.
pub open spec fn base_time(minute: u8, second: u8, micros: u32) -> int {
    minute as int * 60_000_000 + second as int * 1_000_000 + micros as int
}

/// How many firing periods a block precedes the eighth block by; every
/// block of its own in dual-return mode, in pairs otherwise.
pub open spec fn block_lag(block_id: int, return_mode: u8) -> int {
    if is_dual_return(return_mode) {
        8 - block_id
    } else {
        (8 - block_id) / 2
    }
}

/// The firing time of a block in nanoseconds: the base time plus 3.28 µs
/// less 50 µs for every period of lag.
pub open spec fn block_time_ns(base_us: int, block_id: int, return_mode: u8) -> int {
    1000 * base_us + 3280 - 50_000 * block_lag(block_id, return_mode)
}

/// A time in nanoseconds cut down to whole microseconds, kept within `u32`.
pub open spec fn whole_micros(ns: int) -> u32 {
    if ns < 0 {
        0
    } else if ns / 1000 > u32::MAX as int {
        u32::MAX
    } else {
        (ns / 1000) as u32
    }
}

/// The timestamp of a block in microseconds.
pub open spec fn block_timestamp(
    minute: u8,
    second: u8,
    micros: u32,
    block_id: u32,
    return_mode: u8,
) -> u32 {
    whole_micros(block_time_ns(base_time(minute, second, micros), block_id as int, return_mode))
}

/// The timestamp of a channel in microseconds: 1.512 µs per channel and
/// 0.28 µs after the block's timestamp.
pub open spec fn channel_timestamp(block_timestamp: u32, channel: int) -> u32 {
    whole_micros(1000 * block_timestamp as int + 1512 * channel + 280)
}

/// The elevation of a channel in degrees.
pub open spec fn vertical_angle(channel: int) -> int {
    16 - channel
}

/// Computes the timestamp of a block from the date and time field, the
/// microsecond counter, the block's one-based number and the return mode.
pub fn calc_block_timestamp(date_time: &[u8], timestamp: u32, block_id: u32, return_mode: u8) -> (t: u32)
    requires
        date_time@.len() >= 6,
    ensures
        t == block_timestamp(date_time@[4], date_time@[5], timestamp, block_id, return_mode),
{
    let base: i64 = (date_time[4] as i64) * 60_000_000 + (date_time[5] as i64) * 1_000_000 + (
    timestamp as i64);
    let ahead: i64 = 8 - (block_id as i64);
    let lag: i64 = if return_mode == 0x37 || return_mode == 0x38 {
        ahead
    } else if ahead >= 0 {
        ahead / 2
    } else {
        -((1 - ahead) / 2)
    };
    to_whole_micros(1000 * base + 3280 - 50_000 * lag)
}

/// Cuts a time in nanoseconds down to whole microseconds within `u32`.
pub fn to_whole_micros(ns: i64) -> (t: u32)
    ensures
        t == whole_micros(ns as int),
{
    if ns < 0 {
        0
    } else {
        let q: i64 = ns / 1000;
        if q > 0xffff_ffff {
            u32::MAX
        } else {
            q as u32
        }
    }
}

/// Computes the elevation of a channel in degrees.
pub fn channel_to_v_angle(channel: u8) -> (angle: i32)
    ensures
        angle == vertical_angle(channel as int),
{
    16 - (channel as i32)
}

/// The point that channel `channel` of a block yields.
pub open spec fn point_at(block: Seq<u8>, block_timestamp: u32, channel: int) -> VeloPoint {
    VeloPoint {
        reflectivity: block[4 + 4 * channel],
        channel: channel as u8,
        azimuth: le16(block[0], block[1]) as u16,
        distance_mm: (4 * le16(block[2 + 4 * channel], block[3 + 4 * channel])) as u32,
        timestamp: channel_timestamp(block_timestamp, channel),
        vertical_angle: vertical_angle(channel) as i32,
    }
}

/// The points of one block, in channel order.
pub open spec fn block_points(block: Seq<u8>, block_timestamp: u32) -> Seq<VeloPoint> {
    Seq::new(CHANNELS as nat, |channel: int| point_at(block, block_timestamp, channel))
}

/// Computes the timestamp of a channel from that of its block.
pub fn calc_channel_timestamp(block_timestamp: u32, channel: u8) -> (t: u32)
    ensures
        t == channel_timestamp(block_timestamp, channel as int),
{
    to_whole_micros(1000 * (block_timestamp as i64) + 1512 * (channel as i64) + 280)
}

/// Decodes one block into its 32 points.
pub fn parse_block(packet_block: &[u8], block_timestamp: u32) -> (decoded: Result<
    Vec<VeloPoint>,
    DecodeError,
>)
    ensures
        packet_block@.len() < BLOCK_LEN ==> decoded == Err::<Vec<VeloPoint>, _>(
            DecodeError::TruncatedBlock,
        ),
        packet_block@.len() >= BLOCK_LEN ==> decoded is Ok && decoded->Ok_0@ == block_points(
            packet_block@,
            block_timestamp,
        ),
{
    if packet_block.len() < BLOCK_LEN {
        return Err(DecodeError::TruncatedBlock);
    }
    let azimuth: u16 = (packet_block[1] as u16) * 256 + (packet_block[0] as u16);
    let mut points: Vec<VeloPoint> = Vec::new();
    let mut channel: u8 = 0;
    while channel < 32
        invariant
            channel <= 32,
            packet_block@.len() >= BLOCK_LEN,
            azimuth == le16(packet_block@[0], packet_block@[1]),
            points@ == Seq::new(
                channel as nat,
                |c: int| point_at(packet_block@, block_timestamp, c),
            ),
        decreases 32 - channel,
    {
        let start: usize = 2 + 4 * (channel as usize);
        let distance: u32 = (packet_block[start + 1] as u32) * 256 + (packet_block[start] as u32);
        let point = VeloPoint {
            reflectivity: packet_block[start + 2],
            channel,
            azimuth,
            distance_mm: 4 * distance,
            timestamp: calc_channel_timestamp(block_timestamp, channel),
            vertical_angle: channel_to_v_angle(channel),
        };
        assert(point == point_at(packet_block@, block_timestamp, channel as int));
        points.push(point);
        channel = channel + 1;
        assert(points@ =~= Seq::new(
            channel as nat,
            |c: int| point_at(packet_block@, block_timestamp, c),
        ));
    }
    Ok(points)
}

/// The number of blocks that the header of a payload announces.
pub open spec fn block_count(payload: Seq<u8>) -> int {
    payload[BLOCK_COUNT_AT as int] as int
}

/// The bytes of block `b` of a payload, counted from zero.
pub open spec fn payload_block(payload: Seq<u8>, b: int) -> Seq<u8> {
    payload.subrange(BODY_START + BLOCK_LEN * b, BODY_START + BLOCK_LEN * (b + 1))
}

/// The microsecond counter in the tail of a payload.
pub open spec fn payload_micros(payload: Seq<u8>) -> u32 {
    le32(
        payload[MICROS_AT as int],
        payload[MICROS_AT + 1],
        payload[MICROS_AT + 2],
        payload[MICROS_AT + 3],
    ) as u32
}

/// The timestamp of block `b` of a payload, counted from zero.
pub open spec fn payload_block_timestamp(payload: Seq<u8>, b: int) -> u32 {
    block_timestamp(
        payload[DATE_TIME_AT + 4],
        payload[DATE_TIME_AT + 5],
        payload_micros(payload),
        (b + 1) as u32,
        payload[RETURN_MODE_AT as int],
    )
}

/// The `i`-th point of a payload: channel `i % 32` of block `i / 32`.
pub open spec fn payload_point(payload: Seq<u8>, i: int) -> VeloPoint {
    point_at(
        payload_block(payload, i / 32),
        payload_block_timestamp(payload, i / 32),
        i % 32,
    )
}

/// All points of a payload, block by block and channel by channel.
pub open spec fn payload_points(payload: Seq<u8>) -> Seq<VeloPoint> {
    Seq::new((CHANNELS * block_count(payload)) as nat, |i: int| payload_point(payload, i))
}

/// What decoding a payload gives: its points, or the reason why it has
/// none. A payload is too short when it ends before the tail does, and its
/// block count is wrong when the announced blocks reach past its end. The
/// blocks are read where the count puts them: a payload long enough for
/// more than eight blocks yields them all.
pub open spec fn decode_outcome(payload: Seq<u8>) -> Result<Seq<VeloPoint>, DecodeError> {
    if payload.len() < MIN_PAYLOAD_LEN {
        Err(DecodeError::TooShort)
    } else if BODY_START + BLOCK_LEN * block_count(payload) > payload.len() {
        Err(DecodeError::BlockCountMismatch)
    } else {
        Ok(payload_points(payload))
    }
}

/// Relates a decoding result to the outcome that the layout prescribes.
pub open spec fn decoded_as(
    decoded: Result<Vec<VeloPoint>, DecodeError>,
    outcome: Result<Seq<VeloPoint>, DecodeError>,
) -> bool {
    match (decoded, outcome) {
        (Ok(points), Ok(expected)) => points@ == expected,
        (Err(e), Err(expected)) => e == expected,
        _ => false,
    }
}

/// Decodes a sensor payload into its points.
pub fn parse_packet_body(packet_body: &[u8]) -> (decoded: Result<Vec<VeloPoint>, DecodeError>)
    ensures
        decoded_as(decoded, decode_outcome(packet_body@)),
{
    if packet_body.len() < MIN_PAYLOAD_LEN {
        return Err(DecodeError::TooShort);
    }
    let block_num: usize = packet_body[BLOCK_COUNT_AT] as usize;
    if BODY_START + BLOCK_LEN * block_num > packet_body.len() {
        return Err(DecodeError::BlockCountMismatch);
    }
    let return_mode: u8 = packet_body[RETURN_MODE_AT];
    let date_time = slice_subrange(packet_body, DATE_TIME_AT, MICROS_AT);
    let timestamp: u32 = (packet_body[MICROS_AT + 3] as u32) * 16777216 + (packet_body[MICROS_AT
        + 2] as u32) * 65536 + (packet_body[MICROS_AT + 1] as u32) * 256 + (
    packet_body[MICROS_AT] as u32);
    let mut points: Vec<VeloPoint> = Vec::new();
    let mut block_index: usize = 0;
    while block_index < block_num
        invariant
            block_index <= block_num,
            block_num == block_count(packet_body@),
            block_num <= 255,
            packet_body@.len() >= MIN_PAYLOAD_LEN,
            BODY_START + BLOCK_LEN * block_num <= packet_body@.len(),
            return_mode == packet_body@[RETURN_MODE_AT as int],
            date_time@ == packet_body@.subrange(DATE_TIME_AT as int, MICROS_AT as int),
            timestamp == payload_micros(packet_body@),
            points@ == Seq::new(
                (CHANNELS * block_index) as nat,
                |i: int| payload_point(packet_body@, i),
            ),
        decreases block_num - block_index,
    {
        let block_timestamp = calc_block_timestamp(
            date_time,
            timestamp,
            (block_index + 1) as u32,
            return_mode,
        );
        let block_start: usize = BODY_START + BLOCK_LEN * block_index;
        let block = slice_subrange(packet_body, block_start, block_start + BLOCK_LEN);
        let mut block_points = match parse_block(block, block_timestamp) {
            Ok(block_points) => block_points,
            Err(e) => { return Err(e); },
        };
        proof {
            assert(block@ == payload_block(packet_body@, block_index as int));
            assert(block_timestamp == payload_block_timestamp(packet_body@, block_index as int));
            assert forall|i: int|
                CHANNELS * block_index <= i < CHANNELS * (block_index + 1) implies (points@
                + block_points@)[i] == payload_point(packet_body@, i) by {
                assert(i / 32 == block_index as int);
                assert(i % 32 == i - CHANNELS * block_index);
            }
            assert(points@ + block_points@ =~= Seq::new(
                (CHANNELS * (block_index + 1)) as nat,
                |i: int| payload_point(packet_body@, i),
            ));
        }
        points.append(&mut block_points);
        block_index = block_index + 1;
    }
    Ok(points)
}

/// A decodable payload yields 32 points for each of its blocks; the point
/// at position `i` belongs to channel `i % 32`, which is below 32, and its
/// vertical angle is 16 less the channel.
pub proof fn lemma_points_per_payload(payload: Seq<u8>)
    requires
        decode_outcome(payload) is Ok,
    ensures
        decode_outcome(payload)->Ok_0.len() == 32 * block_count(payload),
        forall|i: int|
            0 <= i < 32 * block_count(payload) ==> {
                let point = #[trigger] decode_outcome(payload)->Ok_0[i];
                &&& point.channel == i % 32
                &&& point.channel < 32
                &&& point.vertical_angle == 16 - point.channel
            },
{
}

/// Outside dual-return mode the eighth block fires 3.28 µs after the base
/// time and the first block 150 µs before that, whatever the base time.
pub proof fn lemma_single_return_block_times(base_us: int, return_mode: u8)
    requires
        !is_dual_return(return_mode),
    ensures
        block_time_ns(base_us, 8, return_mode) == 1000 * base_us + 3280,
        block_time_ns(base_us, 1, return_mode) == 1000 * base_us + 3280 - 150_000,
{
}

/// In dual-return mode every block before the eighth fires 50 µs earlier
/// than the one after it.
pub proof fn lemma_dual_return_block_times(base_us: int, block_id: int, return_mode: u8)
    requires
        is_dual_return(return_mode),
    ensures
        block_time_ns(base_us, block_id, return_mode) == 1000 * base_us + 3280 - 50_000 * (8
            - block_id),
        block_time_ns(base_us, block_id + 1, return_mode) == block_time_ns(
            base_us,
            block_id,
            return_mode,
        ) + 50_000,
{
}

} // verus!

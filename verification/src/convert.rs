//! The conversion of a capture, frame by frame.
//!
//! Reading the capture and writing the outputs is the caller's part. The
//! converter takes each raw link-layer frame, decodes it, submits its
//! points to the sink and returns what is to be written; a frame that
//! cannot be decoded is counted and skipped.

use vstd::prelude::*;
use vstd::string::StringExecFns;
use crate::csvwriter::{CsvWriter, CsvWriterView};
use crate::extract::{extract_payload, frame_complete, frame_payload};
use crate::framewriter::{FrameWriter, FrameWriterView, Output};
use crate::hdfwriter::{hdf_file_name, HdfWriter, HdfWriterView};
use crate::packet::{decode_outcome, decoded_as, parse_packet_body, DecodeError};
use crate::segment::SegmentState;
use crate::velopoint::VeloPoint;
use crate::OutType;

verus! {

/// The largest number of points that one payload can hold: 32 for each of
/// at most 255 blocks.
pub const MAX_POINTS_PER_PAYLOAD: u32 = 8160;

/// What decoding a raw frame gives: the points of its payload, or the
/// reason why it has none.
pub open spec fn frame_outcome(frame: Seq<u8>) -> Result<Seq<VeloPoint>, DecodeError> {
    if frame_complete(frame) {
        decode_outcome(frame_payload(frame))
    } else {
        Err(DecodeError::TruncatedFrame)
    }
}

/// The number of points whose azimuth lies outside the nominal range.
pub open spec fn off_nominal_count(points: Seq<VeloPoint>) -> nat
    decreases points.len(),
{
    if points.len() == 0 {
        0
    } else {
        off_nominal_count(points.drop_last()) + if points.last().nominal() {
            0nat
        } else {
            1nat
        }
    }
}

/// A counter raised by `more`, which stops at the largest value.
pub open spec fn raised(counter: u64, more: nat) -> u64 {
    if counter + more > u64::MAX {
        u64::MAX
    } else {
        (counter + more) as u64
    }
}

/// Decodes a raw link-layer frame into the points of its payload.
pub fn decode_frame(frame: &[u8]) -> (decoded: Result<Vec<VeloPoint>, DecodeError>)
    ensures
        decoded_as(decoded, frame_outcome(frame@)),
{
    match extract_payload(frame) {
        Ok(payload) => parse_packet_body(payload),
        Err(e) => Err(e),
    }
}

/// Counts the points whose azimuth lies outside the nominal range.
pub fn count_off_nominal(points: &Vec<VeloPoint>) -> (count: usize)
    ensures
        count == off_nominal_count(points@),
{
    let mut count: usize = 0;
    let mut i: usize = 0;
    assert(points@.take(0) =~= Seq::<VeloPoint>::empty());
    while i < points.len()
        invariant
            i <= points@.len(),
            count <= i,
            count == off_nominal_count(points@.take(i as int)),
        decreases points@.len() - i,
    {
        assert(points@.take(i + 1).drop_last() =~= points@.take(i as int));
        if !points[i].has_nominal_azimuth() {
            count = count + 1;
        }
        i = i + 1;
    }
    assert(points@.take(points@.len() as int) =~= points@);
    count
}

/// What a converter is: its sink and its three counters.
pub struct ConverterView {
    pub writer: FrameWriterView,
    pub packets: u64,
    pub dropped: u64,
    pub off_nominal: u64,
}

impl ConverterView {
    /// The converter after a raw frame was fed to it. Every frame counts
    /// as a packet. The points of a frame that decodes are submitted to
    /// the sink and those outside the nominal azimuth range are counted;
    /// a frame that does not decode is counted as dropped and leaves the
    /// sink as it was.
    pub open spec fn fed(self, frame: Seq<u8>) -> ConverterView {
        match frame_outcome(frame) {
            Ok(points) => ConverterView {
                writer: self.writer.with_segment(self.writer.segment().submit_all(points)),
                packets: raised(self.packets, 1),
                dropped: self.dropped,
                off_nominal: raised(self.off_nominal, off_nominal_count(points)),
            },
            Err(_) => ConverterView {
                packets: raised(self.packets, 1),
                dropped: raised(self.dropped, 1),
                ..self
            },
        }
    }
}

/// The sink that a kind of output takes: text files in the directory
/// `stem` under the prefix `stem`, or datasets in the file `stem.h5`.
pub open spec fn sink_for(out_type: OutType, stem: Seq<char>, compression: bool) -> FrameWriterView {
    match out_type {
        OutType::Csv => FrameWriterView::Csv(
            CsvWriterView { dir: stem, file_prefix: stem, segment: SegmentState::fresh() },
        ),
        OutType::Hdf => FrameWriterView::Hdf(
            HdfWriterView {
                file_name: hdf_file_name(stem),
                enable_compression: compression,
                attributes_written: false,
                segment: SegmentState::fresh(),
            },
        ),
    }
}

/// The state of a conversion: the sink, and how many packets were seen,
/// how many of them were dropped, and how many points lay outside the
/// nominal azimuth range.
#[derive(Debug)]
pub struct Converter {
    writer: FrameWriter,
    packets: u64,
    dropped: u64,
    off_nominal: u64,
}

impl View for Converter {
    type V = ConverterView;

    closed spec fn view(&self) -> ConverterView {
        ConverterView {
            writer: self.writer@,
            packets: self.packets,
            dropped: self.dropped,
            off_nominal: self.off_nominal,
        }
    }
}

/// Raises a counter, which stops at the largest value.
fn raise(counter: u64, more: usize) -> (r: u64)
    ensures
        r == raised(counter, more as nat),
{
    if more as u64 > u64::MAX - counter {
        u64::MAX
    } else {
        counter + more as u64
    }
}

impl Converter {
    /// A conversion into the given kind of output, named after `stem`.
    pub fn new(out_type: OutType, stem: &str, compression: bool) -> (converter: Converter)
        ensures
            converter@ == (ConverterView {
                writer: sink_for(out_type, stem@, compression),
                packets: 0,
                dropped: 0,
                off_nominal: 0,
            }),
    {
        let writer = match out_type {
            OutType::Csv => FrameWriter::Csv(
                CsvWriter::create(String::from_str(stem), String::from_str(stem)),
            ),
            OutType::Hdf => FrameWriter::Hdf(
                HdfWriter::create(String::from_str(stem), compression),
            ),
        };
        Converter { writer, packets: 0, dropped: 0, off_nominal: 0 }
    }

    /// The sink of the conversion.
    pub fn writer(&self) -> (writer: &FrameWriter)
        ensures
            writer@ == self@.writer,
    {
        &self.writer
    }

    /// The number of frames fed so far.
    pub fn packets(&self) -> (n: u64)
        ensures
            n == self@.packets,
    {
        self.packets
    }

    /// The number of frames that could not be decoded.
    pub fn dropped(&self) -> (n: u64)
        ensures
            n == self@.dropped,
    {
        self.dropped
    }

    /// The number of points whose azimuth lay outside the nominal range.
    pub fn off_nominal(&self) -> (n: u64)
        ensures
            n == self@.off_nominal,
    {
        self.off_nominal
    }

    /// The index that the next unit of output will have.
    pub fn output_index(&self) -> (index: u32)
        ensures
            index == self@.writer.segment().index,
    {
        self.writer.index()
    }

    /// Feeds one raw link-layer frame. Returns the outputs of the
    /// revolutions that its points completed, or the reason why the frame
    /// was dropped.
    pub fn feed(&mut self, frame: &[u8]) -> (result: Result<Vec<Output>, DecodeError>)
        requires
            old(self)@.writer.segment().index + MAX_POINTS_PER_PAYLOAD <= u32::MAX,
        ensures
            final(self)@ == old(self)@.fed(frame@),
            match frame_outcome(frame@) {
                Ok(points) => result is Ok && old(self)@.writer.outputs_for(
                    result->Ok_0@,
                    old(self)@.writer.segment().frames(points),
                    old(self)@.writer.segment().index,
                ),
                Err(e) => result == Err::<Vec<Output>, _>(e),
            },
            final(self)@.writer.segment().index <= old(self)@.writer.segment().index
                + MAX_POINTS_PER_PAYLOAD,
    {
        self.packets = raise(self.packets, 1);
        match decode_frame(frame) {
            Ok(points) => {
                self.off_nominal = raise(self.off_nominal, count_off_nominal(&points));
                Ok(self.writer.write_rows(&points))
            },
            Err(e) => {
                self.dropped = raise(self.dropped, 1);
                Err(e)
            },
        }
    }

    /// Hands the sensor's metadata to the sink; see
    /// `FrameWriter::write_attribute`.
    pub fn write_attribute(
        &mut self,
        laser_num: u32,
        motor_speed: u32,
        return_mode: u32,
        manufacturer: &str,
        model: &str,
    ) -> (attributes: Option<Vec<crate::hdfwriter::Attribute>>)
        ensures
            final(self)@ == (ConverterView {
                writer: old(self)@.writer.with_attributes(),
                ..old(self)@
            }),
            attributes is Some <==> old(self)@.writer.takes_attributes(),
            attributes is Some ==> crate::hdfwriter::metadata_attributes(
                attributes->Some_0@,
                laser_num,
                motor_speed,
                return_mode,
                manufacturer@,
                model@,
            ),
    {
        self.writer.write_attribute(laser_num, motor_speed, return_mode, manufacturer, model)
    }

    /// Ends the conversion: the output of a buffered remainder is
    /// returned.
    pub fn finish(&mut self) -> (output: Option<Output>)
        requires
            old(self)@.writer.segment().points.len() > 0 ==> old(self)@.writer.segment().index
                < u32::MAX,
        ensures
            final(self)@ == (ConverterView {
                writer: old(self)@.writer.with_segment(old(self)@.writer.segment().finalize()),
                ..old(self)@
            }),
            output is Some <==> old(self)@.writer.segment().points.len() > 0,
            output is Some ==> old(self)@.writer.output_for(
                output->Some_0,
                old(self)@.writer.segment().index,
                old(self)@.writer.segment().points,
            ),
    {
        self.writer.finalize()
    }
}

} // verus!

//! The output target of a conversion: one of the two sinks.

use vstd::prelude::*;
use crate::csvwriter::{CsvFile, CsvWriter, CsvWriterView};
use crate::hdfwriter::{Attribute, Dataset, HdfWriter, HdfWriterView};
use crate::segment::{lemma_index_counts_frames, SegmentState};
use crate::velopoint::VeloPoint;

verus! {

/// One unit of output: what a sink hands out for a completed revolution.
#[derive(Debug)]
pub enum Output {
    File(CsvFile),
    Dataset(Dataset),
}

/// What an output target is: the view of its sink.
pub enum FrameWriterView {
    Csv(CsvWriterView),
    Hdf(HdfWriterView),
}

impl FrameWriterView {
    /// The segmentation state of the sink.
    pub open spec fn segment(self) -> SegmentState {
        match self {
            FrameWriterView::Csv(writer) => writer.segment,
            FrameWriterView::Hdf(writer) => writer.segment,
        }
    }

    /// The same sink in another segmentation state.
    pub open spec fn with_segment(self, segment: SegmentState) -> FrameWriterView {
        match self {
            FrameWriterView::Csv(writer) => FrameWriterView::Csv(
                CsvWriterView { segment, ..writer },
            ),
            FrameWriterView::Hdf(writer) => FrameWriterView::Hdf(
                HdfWriterView { segment, ..writer },
            ),
        }
    }

    /// Whether `output` is what this sink hands out for `points` under
    /// `index`: a file from the text sink, a dataset from the other.
    pub open spec fn output_for(self, output: Output, index: nat, points: Seq<VeloPoint>) -> bool {
        match (self, output) {
            (FrameWriterView::Csv(writer), Output::File(file)) => writer.file_for(
                file,
                index,
                points,
            ),
            (FrameWriterView::Hdf(writer), Output::Dataset(dataset)) => writer.dataset_for(
                dataset,
                index,
                points,
            ),
            _ => false,
        }
    }

    /// Whether `outputs` are what this sink hands out for `frames`,
    /// numbered from `first` on.
    pub open spec fn outputs_for(
        self,
        outputs: Seq<Output>,
        frames: Seq<Seq<VeloPoint>>,
        first: nat,
    ) -> bool {
        &&& outputs.len() == frames.len()
        &&& forall|k: int|
            0 <= k < outputs.len() ==> self.output_for(
                #[trigger] outputs[k],
                (first + k) as nat,
                frames[k],
            )
    }

    /// The sink after the sensor's metadata was handed to it: only the
    /// typed-binary sink keeps note of it.
    pub open spec fn with_attributes(self) -> FrameWriterView {
        match self {
            FrameWriterView::Csv(writer) => self,
            FrameWriterView::Hdf(writer) => FrameWriterView::Hdf(
                HdfWriterView { attributes_written: true, ..writer },
            ),
        }
    }

    /// Whether a call hands the sensor's metadata out: only the first one
    /// on a typed-binary sink does.
    pub open spec fn takes_attributes(self) -> bool {
        match self {
            FrameWriterView::Csv(writer) => false,
            FrameWriterView::Hdf(writer) => !writer.attributes_written,
        }
    }
}

/// The output target: the text sink or the typed-binary sink.
#[derive(Debug)]
pub enum FrameWriter {
    Csv(CsvWriter),
    Hdf(HdfWriter),
}

impl View for FrameWriter {
    type V = FrameWriterView;

    open spec fn view(&self) -> FrameWriterView {
        match self {
            FrameWriter::Csv(writer) => FrameWriterView::Csv(writer@),
            FrameWriter::Hdf(writer) => FrameWriterView::Hdf(writer@),
        }
    }
}

impl FrameWriter {
    /// The index that the next unit of output will have.
    pub fn index(&self) -> (index: u32)
        ensures
            index == self@.segment().index,
    {
        match self {
            FrameWriter::Csv(writer) => writer.file_index(),
            FrameWriter::Hdf(writer) => writer.dataset_index(),
        }
    }

    /// Accepts one point. Where it completes a revolution, the output of
    /// that revolution is returned.
    pub fn write_row(&mut self, row: VeloPoint) -> (output: Option<Output>)
        requires
            old(self)@.segment().closes(row) ==> old(self)@.segment().index < u32::MAX,
        ensures
            final(self)@ == old(self)@.with_segment(old(self)@.segment().submit(row)),
            output is Some <==> old(self)@.segment().closes(row),
            output is Some ==> old(self)@.output_for(
                output->Some_0,
                old(self)@.segment().index,
                old(self)@.segment().points,
            ),
    {
        match self {
            FrameWriter::Csv(writer) => match writer.write_row(row) {
                Some(file) => Some(Output::File(file)),
                None => None,
            },
            FrameWriter::Hdf(writer) => match writer.write_row(row) {
                Some(dataset) => Some(Output::Dataset(dataset)),
                None => None,
            },
        }
    }

    /// Accepts a sequence of points in order and returns the outputs of
    /// the revolutions that were completed on the way.
    pub fn write_rows(&mut self, rows: &Vec<VeloPoint>) -> (outputs: Vec<Output>)
        requires
            old(self)@.segment().index + rows@.len() <= u32::MAX,
        ensures
            final(self)@ == old(self)@.with_segment(old(self)@.segment().submit_all(rows@)),
            old(self)@.outputs_for(
                outputs@,
                old(self)@.segment().frames(rows@),
                old(self)@.segment().index,
            ),
            final(self)@.segment().index == old(self)@.segment().index + outputs@.len(),
            outputs@.len() <= rows@.len(),
    {
        let ghost target = self@;
        let ghost start = self@.segment();
        let mut outputs: Vec<Output> = Vec::new();
        let mut i: usize = 0;
        assert(rows@.take(0) =~= Seq::<VeloPoint>::empty());
        assert(target.with_segment(start) == target);
        while i < rows.len()
            invariant
                i <= rows@.len(),
                start == target.segment(),
                start.index + rows@.len() <= u32::MAX,
                self@ == target.with_segment(start.submit_all(rows@.take(i as int))),
                target.outputs_for(outputs@, start.frames(rows@.take(i as int)), start.index),
            decreases rows@.len() - i,
        {
            let ghost before = rows@.take(i as int);
            let ghost upto = rows@.take(i + 1);
            proof {
                assert(upto.drop_last() =~= before);
                assert(upto.last() == rows@[i as int]);
                lemma_index_counts_frames(start, before);
            }
            match self.write_row(rows[i]) {
                Some(output) => {
                    outputs.push(output);
                },
                None => {},
            }
            i = i + 1;
        }
        assert(rows@.take(rows@.len() as int) =~= rows@);
        proof {
            lemma_index_counts_frames(start, rows@);
        }
        outputs
    }

    /// Ends the stream: the output of a buffered remainder is returned.
    pub fn finalize(&mut self) -> (output: Option<Output>)
        requires
            old(self)@.segment().points.len() > 0 ==> old(self)@.segment().index < u32::MAX,
        ensures
            final(self)@ == old(self)@.with_segment(old(self)@.segment().finalize()),
            output is Some <==> old(self)@.segment().points.len() > 0,
            output is Some ==> old(self)@.output_for(
                output->Some_0,
                old(self)@.segment().index,
                old(self)@.segment().points,
            ),
    {
        match self {
            FrameWriter::Csv(writer) => match writer.finalize() {
                Some(file) => Some(Output::File(file)),
                None => None,
            },
            FrameWriter::Hdf(writer) => match writer.finalize() {
                Some(dataset) => Some(Output::Dataset(dataset)),
                None => None,
            },
        }
    }

    /// Hands the sensor's metadata to the sink. The typed-binary sink
    /// returns it as attributes, once; the text sink has no attributes and
    /// returns nothing.
    pub fn write_attribute(
        &mut self,
        laser_num: u32,
        motor_speed: u32,
        return_mode: u32,
        manufacturer: &str,
        model: &str,
    ) -> (attributes: Option<Vec<Attribute>>)
        ensures
            final(self)@ == old(self)@.with_attributes(),
            attributes is Some <==> old(self)@.takes_attributes(),
            attributes is Some ==> crate::hdfwriter::metadata_attributes(
                attributes->Some_0@,
                laser_num,
                motor_speed,
                return_mode,
                manufacturer@,
                model@,
            ),
    {
        match self {
            FrameWriter::Csv(_) => None,
            FrameWriter::Hdf(writer) => writer.write_attribute(
                laser_num,
                motor_speed,
                return_mode,
                manufacturer,
                model,
            ),
        }
    }
}

} // verus!

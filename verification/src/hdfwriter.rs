//! The typed-binary sink: one dataset for every revolution, all in one
//! file, which may also carry the sensor's metadata as attributes.

use vstd::prelude::*;
use vstd::string::StringExecFns;
use crate::segment::{Frame, FrameBuffer, SegmentState};
use crate::text::{push_zero_padded, zero_padded};
use crate::velopoint::VeloPoint;

verus! {

/// Number of digits to which the index in a dataset's name is padded.
pub const DATASET_INDEX_WIDTH: usize = 5;

/// The name of the sink's file: the given name with `.h5` after it.
pub open spec fn hdf_file_name(filename: Seq<char>) -> Seq<char> {
    filename + ".h5"@
}

/// The name of the dataset with the given index: `frame` and the index
/// in at least five digits.
pub open spec fn dataset_name(index: nat) -> Seq<char> {
    "frame"@ + zero_padded(index, DATASET_INDEX_WIDTH as nat)
}

/// The deflate level of a dataset: 1 with compression, 0 without.
pub open spec fn deflate_level(enable_compression: bool) -> u8 {
    if enable_compression {
        1
    } else {
        0
    }
}

/// One dataset to write: its name, its deflate level and the points of
/// its revolution. The dataset has exactly as many records as points.
#[derive(Debug)]
pub struct Dataset {
    pub name: String,
    pub deflate: u8,
    pub points: Vec<VeloPoint>,
}

/// The value of an attribute.
#[derive(Debug)]
pub enum AttributeValue {
    Unsigned(u32),
    Text(String),
}

/// One attribute of the file.
#[derive(Debug)]
pub struct Attribute {
    pub name: String,
    pub value: AttributeValue,
}

impl Attribute {
    /// Whether the attribute has the given name and unsigned value.
    pub open spec fn is_unsigned(self, name: Seq<char>, value: u32) -> bool {
        self.name@ == name && self.value == AttributeValue::Unsigned(value)
    }

    /// Whether the attribute has the given name and text value.
    pub open spec fn is_text(self, name: Seq<char>, value: Seq<char>) -> bool {
        self.name@ == name && match self.value {
            AttributeValue::Text(text) => text@ == value,
            AttributeValue::Unsigned(_) => false,
        }
    }
}

/// Whether `attributes` is the sensor's metadata: laser number, motor
/// speed, return mode, manufacturer and model, in this order.
pub open spec fn metadata_attributes(
    attributes: Seq<Attribute>,
    laser_num: u32,
    motor_speed: u32,
    return_mode: u32,
    manufacturer: Seq<char>,
    model: Seq<char>,
) -> bool {
    &&& attributes.len() == 5
    &&& attributes[0].is_unsigned("laser number"@, laser_num)
    &&& attributes[1].is_unsigned("motor speed"@, motor_speed)
    &&& attributes[2].is_unsigned("return mode"@, return_mode)
    &&& attributes[3].is_text("manufacturer"@, manufacturer)
    &&& attributes[4].is_text("model"@, model)
}

/// What a typed-binary sink is: its file, whether datasets are compressed,
/// whether the metadata was written, and the segmentation state.
pub struct HdfWriterView {
    pub file_name: Seq<char>,
    pub enable_compression: bool,
    pub attributes_written: bool,
    pub segment: SegmentState,
}

impl HdfWriterView {
    /// Whether `dataset` is the dataset that holds `points` under `index`.
    pub open spec fn dataset_for(self, dataset: Dataset, index: nat, points: Seq<VeloPoint>) -> bool {
        &&& dataset.name@ == dataset_name(index)
        &&& dataset.deflate == deflate_level(self.enable_compression)
        &&& dataset.points@ == points
    }
}

/// The typed-binary sink. It buffers the revolution in progress and
/// describes a dataset for every completed one.
#[derive(Debug)]
pub struct HdfWriter {
    file_name: String,
    enable_compression: bool,
    attributes_written: bool,
    buffer: FrameBuffer,
}

impl View for HdfWriter {
    type V = HdfWriterView;

    closed spec fn view(&self) -> HdfWriterView {
        HdfWriterView {
            file_name: self.file_name@,
            enable_compression: self.enable_compression,
            attributes_written: self.attributes_written,
            segment: self.buffer@,
        }
    }
}

impl HdfWriter {
    /// A sink whose datasets go to the file `filename` with `.h5` after
    /// it. Nothing is buffered or written yet and the first dataset has
    /// index 0.
    pub fn create(filename: String, enable_compression: bool) -> (writer: HdfWriter)
        ensures
            writer@ == (HdfWriterView {
                file_name: hdf_file_name(filename@),
                enable_compression,
                attributes_written: false,
                segment: SegmentState::fresh(),
            }),
    {
        let file_name = filename.concat(".h5");
        HdfWriter {
            file_name,
            enable_compression,
            attributes_written: false,
            buffer: FrameBuffer::new(),
        }
    }

    /// The name of the sink's file.
    pub fn file_name(&self) -> (name: &str)
        ensures
            name@ == self@.file_name,
    {
        self.file_name.as_str()
    }

    /// The index that the next dataset will have.
    pub fn dataset_index(&self) -> (index: u32)
        ensures
            index == self@.segment.index,
    {
        self.buffer.index()
    }

    /// The number of points buffered.
    pub fn buffered(&self) -> (len: usize)
        ensures
            len == self@.segment.points.len(),
    {
        self.buffer.len()
    }

    /// Describes the dataset of a frame.
    fn write_to_file(&self, frame: Frame) -> (dataset: Dataset)
        ensures
            self@.dataset_for(dataset, frame.index as nat, frame.points@),
    {
        let compression_level: u8 = if self.enable_compression {
            1
        } else {
            0
        };
        let mut name = String::from_str("frame");
        push_zero_padded(&mut name, frame.index as u64, DATASET_INDEX_WIDTH);
        Dataset { name, deflate: compression_level, points: frame.points }
    }

    /// Accepts one point. Where it completes a revolution, the dataset of
    /// that revolution is returned.
    pub fn write_row(&mut self, row: VeloPoint) -> (dataset: Option<Dataset>)
        requires
            old(self)@.segment.closes(row) ==> old(self)@.segment.index < u32::MAX,
        ensures
            final(self)@ == (HdfWriterView { segment: old(self)@.segment.submit(row), ..old(self)@ }),
            dataset is Some <==> old(self)@.segment.closes(row),
            dataset is Some ==> old(self)@.dataset_for(
                dataset->Some_0,
                old(self)@.segment.index,
                old(self)@.segment.points,
            ),
    {
        match self.buffer.submit(row) {
            Some(frame) => Some(self.write_to_file(frame)),
            None => None,
        }
    }

    /// Ends the stream: the dataset of a buffered remainder is returned.
    pub fn finalize(&mut self) -> (dataset: Option<Dataset>)
        requires
            old(self)@.segment.points.len() > 0 ==> old(self)@.segment.index < u32::MAX,
        ensures
            final(self)@ == (HdfWriterView { segment: old(self)@.segment.finalize(), ..old(self)@ }),
            dataset is Some <==> old(self)@.segment.points.len() > 0,
            dataset is Some ==> old(self)@.dataset_for(
                dataset->Some_0,
                old(self)@.segment.index,
                old(self)@.segment.points,
            ),
    {
        match self.buffer.finalize() {
            Some(frame) => Some(self.write_to_file(frame)),
            None => None,
        }
    }

    /// Hands out the sensor's metadata as the attributes of the file. The
    /// metadata is written at most once: every call after the first
    /// returns nothing.
    pub fn write_attribute(
        &mut self,
        laser_num: u32,
        motor_speed: u32,
        return_mode: u32,
        manufacturer: &str,
        model: &str,
    ) -> (attributes: Option<Vec<Attribute>>)
        ensures
            final(self)@ == (HdfWriterView { attributes_written: true, ..old(self)@ }),
            attributes is Some <==> !old(self)@.attributes_written,
            attributes is Some ==> metadata_attributes(
                attributes->Some_0@,
                laser_num,
                motor_speed,
                return_mode,
                manufacturer@,
                model@,
            ),
    {
        if self.attributes_written {
            return None;
        }
        self.attributes_written = true;
        let mut attributes: Vec<Attribute> = Vec::new();
        attributes.push(add_u32_attribute("laser number", laser_num));
        attributes.push(add_u32_attribute("motor speed", motor_speed));
        attributes.push(add_u32_attribute("return mode", return_mode));
        attributes.push(add_str_attribute("manufacturer", manufacturer));
        attributes.push(add_str_attribute("model", model));
        Some(attributes)
    }
}

/// An attribute with a text value.
pub fn add_str_attribute(name: &str, value: &str) -> (attribute: Attribute)
    ensures
        attribute.is_text(name@, value@),
{
    Attribute { name: String::from_str(name), value: AttributeValue::Text(String::from_str(value)) }
}

/// An attribute with an unsigned value.
pub fn add_u32_attribute(name: &str, value: u32) -> (attribute: Attribute)
    ensures
        attribute.is_unsigned(name@, value),
{
    Attribute { name: String::from_str(name), value: AttributeValue::Unsigned(value) }
}

} // verus!

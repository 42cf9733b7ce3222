//! The text sink: one comma-separated file for every revolution.

use vstd::prelude::*;
use vstd::string::StringExecFns;
use crate::segment::{Frame, FrameBuffer, SegmentState};
use crate::text::{push_zero_padded, zero_padded};
use crate::velopoint::{Position, VeloPoint};

verus! {

/// Number of digits to which the index in a file name is padded.
pub const FILE_INDEX_WIDTH: usize = 4;

/// The header row of every file, without its newline.
pub open spec fn header_text() -> Seq<char> {
    "\"intensity\",\"laser_id\",\"azimuth\",\"distance_m\",\"adjustedtime\",\"timestamp\",\"vertical_angle\",\"Points_m_XYZ:0\",\"Points_m_XYZ:1\",\"Points_m_XYZ:2\""@
}

/// The rows of a sequence of points with their positions, one after the
/// other.
pub open spec fn rows_text(points: Seq<VeloPoint>, positions: Seq<Position>) -> Seq<char>
    decreases points.len(),
{
    if points.len() == 0 {
        Seq::empty()
    } else {
        rows_text(points.drop_last(), positions.drop_last()) + points.last().row(positions.last())
    }
}

/// The content of a file: the header row, then one row for every point.
pub open spec fn document_text(points: Seq<VeloPoint>, positions: Seq<Position>) -> Seq<char> {
    header_text() + seq!['\n'] + rows_text(points, positions)
}

/// The path of the file with the given index: directory, a slash, the
/// prefix, an underscore, the index in at least four digits, `.csv`.
pub open spec fn csv_path(dir: Seq<char>, prefix: Seq<char>, index: nat) -> Seq<char> {
    dir + seq!['/'] + prefix + seq!['_'] + zero_padded(index, FILE_INDEX_WIDTH as nat) + ".csv"@
}

/// The header row of every file, without its newline.
pub fn csv_header() -> (header: &'static str)
    ensures
        header@ == header_text(),
{
    "\"intensity\",\"laser_id\",\"azimuth\",\"distance_m\",\"adjustedtime\",\"timestamp\",\"vertical_angle\",\"Points_m_XYZ:0\",\"Points_m_XYZ:1\",\"Points_m_XYZ:2\""
}

/// One file to write: its path and the points of its revolution.
#[derive(Debug)]
pub struct CsvFile {
    pub path: String,
    pub points: Vec<VeloPoint>,
}

impl CsvFile {
    /// The content of the file, given the position of every point. There
    /// is none where the positions are not as many as the points.
    pub fn text(&self, positions: &Vec<Position>) -> (content: Option<String>)
        ensures
            content is Some <==> positions@.len() == self.points@.len(),
            content is Some ==> content->Some_0@ == document_text(self.points@, positions@),
    {
        if positions.len() != self.points.len() {
            return None;
        }
        proof {
            reveal_strlit("\n");
        }
        let mut content = String::new();
        content.append(csv_header());
        content.append("\n");
        let mut i: usize = 0;
        assert(self.points@.take(0) =~= Seq::<VeloPoint>::empty());
        assert(content@ =~= document_text(self.points@.take(0), positions@.take(0)));
        while i < self.points.len()
            invariant
                i <= self.points@.len(),
                positions@.len() == self.points@.len(),
                content@ == document_text(self.points@.take(i as int), positions@.take(i as int)),
            decreases self.points@.len() - i,
        {
            let row = self.points[i].to_string(&positions[i]);
            content.append(row.as_str());
            proof {
                let points = self.points@.take(i + 1);
                let places = positions@.take(i + 1);
                assert(points.drop_last() =~= self.points@.take(i as int));
                assert(places.drop_last() =~= positions@.take(i as int));
                assert(content@ =~= document_text(points, places));
            }
            i = i + 1;
        }
        assert(self.points@.take(self.points@.len() as int) =~= self.points@);
        assert(positions@.take(positions@.len() as int) =~= positions@);
        Some(content)
    }
}

/// What a text sink is: where its files go and the segmentation state.
pub struct CsvWriterView {
    pub dir: Seq<char>,
    pub file_prefix: Seq<char>,
    pub segment: SegmentState,
}

impl CsvWriterView {
    /// Whether `file` is the file that holds `points` under `index`.
    pub open spec fn file_for(self, file: CsvFile, index: nat, points: Seq<VeloPoint>) -> bool {
        file.path@ == csv_path(self.dir, self.file_prefix, index) && file.points@ == points
    }
}

/// The text sink. It buffers the revolution in progress and describes a
/// file for every completed one.
#[derive(Debug)]
pub struct CsvWriter {
    dir: String,
    file_prefix: String,
    buffer: FrameBuffer,
}

impl View for CsvWriter {
    type V = CsvWriterView;

    closed spec fn view(&self) -> CsvWriterView {
        CsvWriterView { dir: self.dir@, file_prefix: self.file_prefix@, segment: self.buffer@ }
    }
}

impl CsvWriter {
    /// A sink whose files go to `dir` under names that start with
    /// `file_prefix`. Nothing is buffered yet and the first file has
    /// index 0.
    pub fn create(dir: String, file_prefix: String) -> (writer: CsvWriter)
        ensures
            writer@ == (CsvWriterView {
                dir: dir@,
                file_prefix: file_prefix@,
                segment: SegmentState::fresh(),
            }),
    {
        CsvWriter { dir, file_prefix, buffer: FrameBuffer::new() }
    }

    /// The directory that the files go to.
    pub fn dir(&self) -> (dir: &str)
        ensures
            dir@ == self@.dir,
    {
        self.dir.as_str()
    }

    /// The index that the next file will have.
    pub fn file_index(&self) -> (index: u32)
        ensures
            index == self@.segment.index,
    {
        self.buffer.index()
    }

    /// The number of points buffered.
    pub fn buffered(&self) -> (len: usize)
        ensures
            len == self@.segment.points.len(),
    {
        self.buffer.len()
    }

    /// Describes the file of a frame.
    fn write_to_file(&self, frame: Frame) -> (file: CsvFile)
        ensures
            self@.file_for(file, frame.index as nat, frame.points@),
    {
        proof {
            reveal_strlit("/");
            reveal_strlit("_");
        }
        let mut path = String::new();
        path.append(self.dir.as_str());
        path.append("/");
        path.append(self.file_prefix.as_str());
        path.append("_");
        push_zero_padded(&mut path, frame.index as u64, FILE_INDEX_WIDTH);
        path.append(".csv");
        assert(path@ =~= csv_path(self@.dir, self@.file_prefix, frame.index as nat));
        CsvFile { path, points: frame.points }
    }

    /// Accepts one point. Where it completes a revolution, the file of
    /// that revolution is returned.
    pub fn write_row(&mut self, row: VeloPoint) -> (file: Option<CsvFile>)
        requires
            old(self)@.segment.closes(row) ==> old(self)@.segment.index < u32::MAX,
        ensures
            final(self)@ == (CsvWriterView { segment: old(self)@.segment.submit(row), ..old(self)@ }),
            file is Some <==> old(self)@.segment.closes(row),
            file is Some ==> old(self)@.file_for(
                file->Some_0,
                old(self)@.segment.index,
                old(self)@.segment.points,
            ),
    {
        match self.buffer.submit(row) {
            Some(frame) => Some(self.write_to_file(frame)),
            None => None,
        }
    }

    /// Ends the stream: the file of a buffered remainder is returned.
    pub fn finalize(&mut self) -> (file: Option<CsvFile>)
        requires
            old(self)@.segment.points.len() > 0 ==> old(self)@.segment.index < u32::MAX,
        ensures
            final(self)@ == (CsvWriterView { segment: old(self)@.segment.finalize(), ..old(self)@ }),
            file is Some <==> old(self)@.segment.points.len() > 0,
            file is Some ==> old(self)@.file_for(
                file->Some_0,
                old(self)@.segment.index,
                old(self)@.segment.points,
            ),
    {
        match self.buffer.finalize() {
            Some(frame) => Some(self.write_to_file(frame)),
            None => None,
        }
    }
}

} // verus!

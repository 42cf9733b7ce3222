//! Segmentation of the point stream into revolutions.
//!
//! The sensor marks no frame boundaries. A revolution ends where the azimuth
//! of a point is lower than that of the point before it: the points
//! buffered so far then leave as one frame, and the new point starts the
//! next.

use vstd::prelude::*;
use crate::velopoint::VeloPoint;

verus! {

/// The state of the segmentation: the points of the revolution in progress,
/// the azimuth of the last point submitted and the index of the next frame.
pub struct SegmentState {
    pub points: Seq<VeloPoint>,
    pub previous_azimuth: u16,
    pub index: nat,
}

/// Whether the azimuths of a sequence of points never decrease.
pub open spec fn azimuth_ordered(points: Seq<VeloPoint>) -> bool {
    forall|i: int, j: int| 0 <= i <= j < points.len() ==> points[i].azimuth <= points[j].azimuth
}

impl SegmentState {
    /// The state before any point was submitted.
    pub open spec fn fresh() -> SegmentState {
        SegmentState { points: Seq::empty(), previous_azimuth: 0, index: 0 }
    }

    /// The buffered points are one revolution so far, and the remembered
    /// azimuth is that of the last of them.
    pub open spec fn well_formed(self) -> bool {
        &&& azimuth_ordered(self.points)
        &&& self.points.len() > 0 ==> self.previous_azimuth == self.points.last().azimuth
    }

    /// Whether submitting `point` completes the revolution in progress.
    pub open spec fn closes(self, point: VeloPoint) -> bool {
        self.points.len() > 0 && point.azimuth < self.previous_azimuth
    }

    /// The state after `point` was submitted.
    pub open spec fn submit(self, point: VeloPoint) -> SegmentState {
        if self.closes(point) {
            SegmentState {
                points: seq![point],
                previous_azimuth: point.azimuth,
                index: self.index + 1,
            }
        } else {
            SegmentState {
                points: self.points.push(point),
                previous_azimuth: point.azimuth,
                index: self.index,
            }
        }
    }

    /// The state after the end of the stream: a buffered remainder leaves
    /// as one more frame.
    pub open spec fn finalize(self) -> SegmentState {
        if self.points.len() > 0 {
            SegmentState {
                points: Seq::empty(),
                previous_azimuth: self.previous_azimuth,
                index: self.index + 1,
            }
        } else {
            self
        }
    }

    /// The state after a sequence of points was submitted in order.
    pub open spec fn submit_all(self, points: Seq<VeloPoint>) -> SegmentState
        decreases points.len(),
    {
        if points.len() == 0 {
            self
        } else {
            self.submit_all(points.drop_last()).submit(points.last())
        }
    }

    /// The frames that leave while a sequence of points is submitted, in
    /// the order in which they leave.
    pub open spec fn frames(self, points: Seq<VeloPoint>) -> Seq<Seq<VeloPoint>>
        decreases points.len(),
    {
        if points.len() == 0 {
            Seq::empty()
        } else {
            let before = self.submit_all(points.drop_last());
            let earlier = self.frames(points.drop_last());
            if before.closes(points.last()) {
                earlier.push(before.points)
            } else {
                earlier
            }
        }
    }

    /// Every frame of a whole stream: those that leave while the points
    /// are submitted, and the remainder that leaves at the end.
    pub open spec fn all_frames(self, points: Seq<VeloPoint>) -> Seq<Seq<VeloPoint>> {
        let last = self.submit_all(points);
        if last.points.len() > 0 {
            self.frames(points).push(last.points)
        } else {
            self.frames(points)
        }
    }
}

/// Submitting a sequence and then one more point is submitting the
/// sequence extended by that point.
pub proof fn lemma_submit_all_push(state: SegmentState, points: Seq<VeloPoint>, point: VeloPoint)
    ensures
        state.submit_all(points.push(point)) == state.submit_all(points).submit(point),
        state.frames(points.push(point)) == if state.submit_all(points).closes(point) {
            state.frames(points).push(state.submit_all(points).points)
        } else {
            state.frames(points)
        },
{
    assert(points.push(point).drop_last() =~= points);
}

/// Frames do not depend on how the stream is cut into batches: submitting
/// two sequences one after the other gives the state and the frames of
/// submitting the two as one.
pub proof fn lemma_submit_all_concat(
    state: SegmentState,
    first: Seq<VeloPoint>,
    second: Seq<VeloPoint>,
)
    ensures
        state.submit_all(first + second) == state.submit_all(first).submit_all(second),
        state.frames(first + second) == state.frames(first) + state.submit_all(first).frames(
            second,
        ),
    decreases second.len(),
{
    if second.len() == 0 {
        assert(first + second =~= first);
        assert(state.frames(first) + Seq::<Seq<VeloPoint>>::empty() =~= state.frames(first));
    } else {
        lemma_submit_all_concat(state, first, second.drop_last());
        assert((first + second).drop_last() =~= first + second.drop_last());
        let middle = state.submit_all(first);
        let before = middle.submit_all(second.drop_last());
        if before.closes(second.last()) {
            assert(state.frames(first + second) =~= state.frames(first) + middle.frames(second));
        }
    }
}

/// The output index advances by one for every frame that leaves.
pub proof fn lemma_index_counts_frames(state: SegmentState, points: Seq<VeloPoint>)
    ensures
        state.submit_all(points).index == state.index + state.frames(points).len(),
        state.frames(points).len() <= points.len(),
    decreases points.len(),
{
    if points.len() > 0 {
        lemma_index_counts_frames(state, points.drop_last());
    }
}

/// No point is lost or reordered: the frames that left, followed by the
/// points still buffered, are the points buffered at the start followed by
/// the points submitted.
pub proof fn lemma_nothing_lost(state: SegmentState, points: Seq<VeloPoint>)
    ensures
        state.frames(points).flatten() + state.submit_all(points).points == state.points + points,
    decreases points.len(),
{
    broadcast use Seq::lemma_flatten_push;

    if points.len() == 0 {
        assert(state.frames(points).flatten() =~= Seq::<VeloPoint>::empty());
        assert(state.frames(points).flatten() + state.points =~= state.points + points);
    } else {
        let head = points.drop_last();
        let before = state.submit_all(head);
        lemma_nothing_lost(state, head);
        assert(points =~= head.push(points.last()));
        if before.closes(points.last()) {
            assert(state.frames(points).flatten() + seq![points.last()] =~= (state.frames(
                head,
            ).flatten() + before.points).push(points.last()));
        } else {
            assert(state.frames(points).flatten() + before.points.push(points.last()) =~= (
            state.frames(head).flatten() + before.points).push(points.last()));
        }
        assert((state.points + head).push(points.last()) =~= state.points + points);
    }
}

/// The frames of a whole stream, one after the other, are the stream.
pub proof fn lemma_stream_is_its_frames(points: Seq<VeloPoint>)
    ensures
        SegmentState::fresh().all_frames(points).flatten() == points,
{
    broadcast use Seq::lemma_flatten_push;

    let start = SegmentState::fresh();
    lemma_nothing_lost(start, points);
    assert(start.points + points =~= points);
    if start.submit_all(points).points.len() == 0 {
        assert(start.frames(points).flatten() + start.submit_all(points).points
            =~= start.frames(points).flatten());
    }
}

/// Within a frame the azimuth never decreases, and no frame is empty.
pub proof fn lemma_frames_ordered(state: SegmentState, points: Seq<VeloPoint>)
    requires
        state.well_formed(),
    ensures
        state.submit_all(points).well_formed(),
        forall|k: int|
            0 <= k < state.frames(points).len() ==> (#[trigger] state.frames(points)[k]).len() > 0
                && azimuth_ordered(state.frames(points)[k]),
    decreases points.len(),
{
    if points.len() > 0 {
        let head = points.drop_last();
        let before = state.submit_all(head);
        lemma_frames_ordered(state, head);
        assert forall|k: int| 0 <= k < state.frames(points).len() implies (#[trigger] state.frames(
            points,
        )[k]).len() > 0 && azimuth_ordered(state.frames(points)[k]) by {
            if k < state.frames(head).len() {
                assert(state.frames(points)[k] == state.frames(head)[k]);
            } else {
                assert(state.frames(points)[k] == before.points);
            }
        }
    }
}

/// A frame ends exactly where the azimuth decreases: the first point of
/// every frame has a lower azimuth than the last point of the frame before
/// it, and the points still buffered follow the last frame in the same way.
pub proof fn lemma_frames_end_at_decrease(state: SegmentState, points: Seq<VeloPoint>)
    requires
        state.well_formed(),
    ensures
        forall|k: int|
            0 < k < state.frames(points).len() ==> (#[trigger] state.frames(points)[k]).first().azimuth
                < state.frames(points)[k - 1].last().azimuth,
        state.frames(points).len() > 0 ==> state.submit_all(points).points.len() > 0
            && state.submit_all(points).points.first().azimuth < state.frames(
            points,
        ).last().last().azimuth,
    decreases points.len(),
{
    if points.len() > 0 {
        let head = points.drop_last();
        lemma_frames_end_at_decrease(state, head);
        lemma_frames_ordered(state, head);
    }
}

/// One completed revolution, with its place in the sequence of outputs.
#[derive(Debug)]
pub struct Frame {
    pub index: u32,
    pub points: Vec<VeloPoint>,
}

/// Whether a list of frames holds the given point sequences, numbered
/// from `first` on.
pub open spec fn frames_match(frames: Seq<Frame>, expected: Seq<Seq<VeloPoint>>, first: nat) -> bool {
    &&& frames.len() == expected.len()
    &&& forall|k: int|
        0 <= k < frames.len() ==> (#[trigger] frames[k]).points@ == expected[k] && frames[k].index
            == first + k
}

/// The segmentation engine: buffers the revolution in progress and hands
/// out each completed one.
#[derive(Debug)]
pub struct FrameBuffer {
    previous_azimuth: u16,
    index: u32,
    points: Vec<VeloPoint>,
}

impl View for FrameBuffer {
    type V = SegmentState;

    closed spec fn view(&self) -> SegmentState {
        SegmentState {
            points: self.points@,
            previous_azimuth: self.previous_azimuth,
            index: self.index as nat,
        }
    }
}

impl FrameBuffer {
    /// An empty buffer whose first frame will have index 0.
    pub fn new() -> (buffer: FrameBuffer)
        ensures
            buffer@ == SegmentState::fresh(),
            buffer@.well_formed(),
    {
        FrameBuffer { previous_azimuth: 0, index: 0, points: Vec::new() }
    }

    /// The index that the next frame will have.
    pub fn index(&self) -> (index: u32)
        ensures
            index == self@.index,
    {
        self.index
    }

    /// The number of points buffered.
    pub fn len(&self) -> (len: usize)
        ensures
            len == self@.points.len(),
    {
        self.points.len()
    }

    /// The azimuth of the last point submitted, 0 before the first.
    pub fn previous_azimuth(&self) -> (azimuth: u16)
        ensures
            azimuth == self@.previous_azimuth,
    {
        self.previous_azimuth
    }

    /// Takes the buffered points out as the next frame.
    fn flush(&mut self) -> (frame: Frame)
        requires
            old(self)@.index < u32::MAX,
        ensures
            frame.index == old(self)@.index,
            frame.points@ == old(self)@.points,
            final(self)@ == (SegmentState {
                points: Seq::empty(),
                previous_azimuth: old(self)@.previous_azimuth,
                index: old(self)@.index + 1,
            }),
    {
        let mut points: Vec<VeloPoint> = Vec::new();
        points.append(&mut self.points);
        let frame = Frame { index: self.index, points };
        self.index = self.index + 1;
        frame
    }

    /// Submits one point. Where its azimuth is lower than that of the point
    /// before it, the points buffered so far are returned as a frame and
    /// the point starts the next one; otherwise it joins the buffer.
    pub fn submit(&mut self, point: VeloPoint) -> (flushed: Option<Frame>)
        requires
            old(self)@.closes(point) ==> old(self)@.index < u32::MAX,
        ensures
            final(self)@ == old(self)@.submit(point),
            old(self)@.well_formed() ==> final(self)@.well_formed(),
            flushed is Some <==> old(self)@.closes(point),
            flushed is Some ==> flushed->Some_0.index == old(self)@.index
                && flushed->Some_0.points@ == old(self)@.points,
    {
        let flushed = if self.points.len() > 0 && point.azimuth < self.previous_azimuth {
            Some(self.flush())
        } else {
            None
        };
        self.points.push(point);
        self.previous_azimuth = point.azimuth;
        assert(final(self)@.points =~= old(self)@.submit(point).points);
        flushed
    }

    /// Submits a sequence of points in order and returns the frames that
    /// were completed on the way.
    pub fn submit_all(&mut self, points: &Vec<VeloPoint>) -> (flushed: Vec<Frame>)
        requires
            old(self)@.index + points@.len() <= u32::MAX,
        ensures
            final(self)@ == old(self)@.submit_all(points@),
            old(self)@.well_formed() ==> final(self)@.well_formed(),
            frames_match(flushed@, old(self)@.frames(points@), old(self)@.index),
    {
        let ghost start = self@;
        let mut flushed: Vec<Frame> = Vec::new();
        let mut i: usize = 0;
        assert(points@.take(0) =~= Seq::<VeloPoint>::empty());
        while i < points.len()
            invariant
                i <= points@.len(),
                start.index + points@.len() <= u32::MAX,
                self@ == start.submit_all(points@.take(i as int)),
                frames_match(flushed@, start.frames(points@.take(i as int)), start.index),
                flushed@.len() <= i,
            decreases points@.len() - i,
        {
            let ghost before = points@.take(i as int);
            let ghost upto = points@.take(i + 1);
            proof {
                assert(upto.drop_last() =~= before);
                assert(upto.last() == points@[i as int]);
                lemma_index_counts_frames(start, before);
            }
            match self.submit(points[i]) {
                Some(frame) => {
                    flushed.push(frame);
                },
                None => {},
            }
            i = i + 1;
        }
        assert(points@.take(points@.len() as int) =~= points@);
        proof {
            if start.well_formed() {
                lemma_frames_ordered(start, points@);
            }
        }
        flushed
    }

    /// Ends the stream: a buffered remainder is returned as the last frame.
    pub fn finalize(&mut self) -> (flushed: Option<Frame>)
        requires
            old(self)@.points.len() > 0 ==> old(self)@.index < u32::MAX,
        ensures
            final(self)@ == old(self)@.finalize(),
            old(self)@.well_formed() ==> final(self)@.well_formed(),
            flushed is Some <==> old(self)@.points.len() > 0,
            flushed is Some ==> flushed->Some_0.index == old(self)@.index
                && flushed->Some_0.points@ == old(self)@.points,
    {
        if self.points.len() > 0 {
            Some(self.flush())
        } else {
            None
        }
    }
}

} // verus!

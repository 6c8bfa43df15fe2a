//! The frame pipeline: which captured frames go to the encoder, which encoded
//! units go to the transport, and which frames are dropped on the way.
//!
//! The pipeline holds no frame. It keeps the place of the one frame that is
//! at the encoder, and the driver pulls, encodes and sends as the pipeline
//! says. Frames that the transport cannot take in time are dropped, never
//! queued.

use crate::screen_capture::Frame;
use crate::counter::{count_one_more, one_more};
use vstd::prelude::*;

verus! {

/// A compressed frame on its way to the transport.
#[derive(Debug, PartialEq, Eq)]
pub struct EncodedUnit {
    pub payload: Vec<u8>,
    pub timestamp_ms: u64,
    pub sequence: u64,
}

/// The encoder's report that it could not encode a frame.
#[derive(Debug, Clone, Copy, PartialEq, Eq, Structural)]
pub struct EncodeError {
    pub code: u32,
}

/// What went wrong in the pipeline.
#[derive(Debug, Clone, Copy, PartialEq, Eq, Structural)]
pub enum PipelineFault {
    /// The encoder failed on a frame. The frame is dropped and counted, and
    /// the pipeline goes on.
    EncodeFailed,
    /// The transport did not take a unit. This ends the streaming phase.
    SendFailed,
    /// An encoder result came in while no frame was at the encoder.
    NoFrameInFlight,
}

/// A fault of the frame pipeline.
#[derive(Debug, Clone, Copy, PartialEq, Eq, Structural)]
pub struct PipelineError {
    pub kind: PipelineFault,
}

/// The text that goes with each fault.
pub open spec fn pipeline_fault_text(kind: PipelineFault) -> Seq<char> {
    match kind {
        PipelineFault::EncodeFailed => "Frame could not be encoded"@,
        PipelineFault::SendFailed => "Frame could not be sent"@,
        PipelineFault::NoFrameInFlight => "No frame is being encoded"@,
    }
}

impl PipelineError {
    /// The fault in words, without the type's name in front.
    pub fn message(&self) -> (text: String)
        ensures
            text@ == pipeline_fault_text(self.kind),
    {
        match self.kind {
            PipelineFault::EncodeFailed => "Frame could not be encoded".to_owned(),
            PipelineFault::SendFailed => "Frame could not be sent".to_owned(),
            PipelineFault::NoFrameInFlight => "No frame is being encoded".to_owned(),
        }
    }

    /// The fault as it is shown to a user: the type's name, a colon, the message.
    pub fn describe(&self) -> (text: String)
        ensures
            text@ == "PipelineError: "@ + pipeline_fault_text(self.kind),
    {
        let head = "PipelineError: ".to_owned();
        let tail = self.message();
        head.concat(tail.as_str())
    }
}

/// Why a frame was dropped before it reached the encoder.
#[derive(Debug, Clone, Copy, PartialEq, Eq, Structural)]
pub enum DropReason {
    /// The frame before it is still at the encoder.
    Busy,
    /// The transport's outbound queue is at its bound.
    Backpressure,
    /// The frame's sequence number is not above the last one sent.
    Stale,
}

/// What is to be done with a frame that was pulled.
#[derive(Debug, Clone, Copy, PartialEq, Eq, Structural)]
pub enum FrameStep {
    /// Hand the frame to the encoder and report with `on_encoded`.
    Encode,
    /// The frame was dropped and counted.
    Dropped(DropReason),
    /// The pipeline is not running; the frame is not its business.
    Stopped,
}

/// The bound on the transport's outbound queue that a pipeline has unless
/// told otherwise.
pub const DEFAULT_QUEUE_DEPTH: usize = 8;

/// Whether each number of the sequence is above all that come before it.
pub open spec fn strictly_increasing(numbers: Seq<u64>) -> bool {
    forall|i: int, j: int| 0 <= i < j < numbers.len() ==> numbers[i] < numbers[j]
}

/// A number of frames as a counter shows it: the number itself, as far as
/// the counter can count.
pub open spec fn counted(frames: nat) -> u64 {
    if frames <= u64::MAX {
        frames as u64
    } else {
        u64::MAX
    }
}

/// A counter that takes in one more frame shows one more frame.
pub proof fn lemma_counted_one_more(frames: nat)
    ensures
        one_more(counted(frames)) == counted(frames + 1),
{
}

/// The pipeline of one streaming phase.
pub struct FramePipeline {
    running: bool,
    max_queue_depth: usize,
    in_flight: Option<(u64, u64)>,
    last_sent: Option<u64>,
    sent_frames: u64,
    dropped_frames: u64,
    sent_log: Ghost<Seq<u64>>,
    dropped_total: Ghost<nat>,
}

impl FramePipeline {
    /// Whether the pipeline's records agree with each other: the sequence
    /// numbers sent so far rise strictly, the last of them is the one
    /// remembered, the counters show what was sent and dropped, a frame at
    /// the encoder is newer than all that were sent, and only a running
    /// pipeline has a frame at the encoder.
    #[verifier::type_invariant]
    pub closed spec fn well_formed(&self) -> bool {
        &&& strictly_increasing(self.sent_log@)
        &&& self.last_sent == if self.sent_log@.len() == 0 {
            None
        } else {
            Some(self.sent_log@.last())
        }
        &&& self.sent_frames == counted(self.sent_log@.len())
        &&& self.dropped_frames == counted(self.dropped_total@)
        &&& self.in_flight matches Some((sequence, _)) ==> {
            &&& self.running
            &&& self.last_sent matches Some(last) ==> sequence > last
        }
    }

    /// Whether the pipeline is in a streaming phase.
    pub closed spec fn running(&self) -> bool {
        self.running
    }

    /// The bound on the transport's outbound queue.
    pub closed spec fn depth_limit(&self) -> usize {
        self.max_queue_depth
    }

    /// The sequence number and the timestamp of the frame at the encoder.
    pub closed spec fn in_flight(&self) -> Option<(u64, u64)> {
        self.in_flight
    }

    /// The sequence numbers handed to the transport in this phase, in the
    /// order they were handed over.
    pub closed spec fn sent_sequences(&self) -> Seq<u64> {
        self.sent_log@
    }

    /// The number of frames dropped in this phase.
    pub closed spec fn dropped(&self) -> nat {
        self.dropped_total@
    }

    /// What is to be done with a pulled frame of this sequence number while
    /// the transport's outbound queue holds `queue_depth` units.
    pub open spec fn decision(&self, sequence: u64, queue_depth: usize) -> FrameStep {
        if !self.running() {
            FrameStep::Stopped
        } else if self.in_flight() is Some {
            FrameStep::Dropped(DropReason::Busy)
        } else if queue_depth >= self.depth_limit() {
            FrameStep::Dropped(DropReason::Backpressure)
        } else if self.sent_sequences().len() > 0 && sequence <= self.sent_sequences().last() {
            FrameStep::Dropped(DropReason::Stale)
        } else {
            FrameStep::Encode
        }
    }

    /// Whether the pipeline agrees with `before` in what a phase keeps from
    /// frame to frame: that it runs, its bound, and what it has sent.
    pub open spec fn same_phase(&self, before: &FramePipeline) -> bool {
        &&& self.running() == before.running()
        &&& self.depth_limit() == before.depth_limit()
        &&& self.sent_sequences() == before.sent_sequences()
    }

    /// Whether the pipeline is at the start of a phase: nothing at the
    /// encoder, nothing sent, nothing dropped.
    pub open spec fn is_clear(&self) -> bool {
        &&& self.in_flight() is None
        &&& self.sent_sequences() == Seq::<u64>::empty()
        &&& self.dropped() == 0
    }

    /// A pipeline that is not running, for a transport whose outbound queue
    /// may hold `max_queue_depth` units.
    pub fn new(max_queue_depth: usize) -> (pipeline: Self)
        ensures
            !pipeline.running(),
            pipeline.depth_limit() == max_queue_depth,
            pipeline.is_clear(),
    {
        FramePipeline {
            running: false,
            max_queue_depth,
            in_flight: None,
            last_sent: None,
            sent_frames: 0,
            dropped_frames: 0,
            sent_log: Ghost(Seq::empty()),
            dropped_total: Ghost(0),
        }
    }

    /// Begins a streaming phase. A running pipeline is left as it is.
    pub fn start(&mut self)
        ensures
            final(self).running(),
            final(self).depth_limit() == old(self).depth_limit(),
            old(self).running() ==> *final(self) == *old(self),
            !old(self).running() ==> final(self).is_clear(),
    {
        if !self.running {
            *self = FramePipeline {
                running: true,
                max_queue_depth: self.max_queue_depth,
                in_flight: None,
                last_sent: None,
                sent_frames: 0,
                dropped_frames: 0,
                sent_log: Ghost(Seq::empty()),
                dropped_total: Ghost(0),
            };
        }
    }

    /// Ends the streaming phase. A frame at the encoder is abandoned. What
    /// was sent and dropped stays on record; a second call changes nothing.
    pub fn stop(&mut self)
        ensures
            !final(self).running(),
            final(self).in_flight() is None,
            final(self).depth_limit() == old(self).depth_limit(),
            final(self).sent_sequences() == old(self).sent_sequences(),
            final(self).dropped() == old(self).dropped(),
    {
        proof {
            use_type_invariant(&*self);
        }
        *self = FramePipeline {
            running: false,
            max_queue_depth: self.max_queue_depth,
            in_flight: None,
            last_sent: self.last_sent,
            sent_frames: self.sent_frames,
            dropped_frames: self.dropped_frames,
            sent_log: self.sent_log,
            dropped_total: self.dropped_total,
        };
    }

    /// Decides on a frame that was pulled from the capture source while the
    /// transport's outbound queue holds `queue_depth` units.
    ///
    /// A running pipeline with nothing at the encoder takes a frame that is
    /// newer than all it has sent, unless the queue is at its bound. Any other
    /// frame is dropped and counted.
    pub fn on_frame(&mut self, frame: &Frame, queue_depth: usize) -> (step: FrameStep)
        ensures
            is_frame_decided(old(self), final(self), frame, queue_depth, step),
    {
        proof {
            use_type_invariant(&*self);
        }
        if !self.running {
            return FrameStep::Stopped;
        }
        let reason: Option<DropReason> = if self.in_flight.is_some() {
            Some(DropReason::Busy)
        } else if queue_depth >= self.max_queue_depth {
            Some(DropReason::Backpressure)
        } else {
            match self.last_sent {
                Some(last) => if frame.sequence <= last {
                    Some(DropReason::Stale)
                } else {
                    None
                },
                None => None,
            }
        };
        match reason {
            Some(reason) => {
                self.count_drop();
                FrameStep::Dropped(reason)
            },
            None => {
                self.in_flight = Some((frame.sequence, frame.timestamp_ms));
                FrameStep::Encode
            },
        }
    }
    /// Takes in what the encoder made of the frame that was handed to it.
    ///
    /// An encoded frame becomes a unit with the frame's sequence number and
    /// timestamp; the unit is the caller's to send, and its number goes on
    /// record as sent. A frame that the encoder failed on is dropped and
    /// counted, and the pipeline goes on. With no frame at the encoder there
    /// is nothing to take in.
    pub fn on_encoded(&mut self, encoded: Result<Vec<u8>, EncodeError>) -> (unit: Result<
        EncodedUnit,
        PipelineError,
    >)
        ensures
            final(self).running() == old(self).running(),
            final(self).depth_limit() == old(self).depth_limit(),
            final(self).in_flight() is None,
            unit is Ok <==> old(self).in_flight() is Some && encoded is Ok,
            unit matches Ok(u) ==> {
                &&& u.payload == encoded->Ok_0
                &&& (u.sequence, u.timestamp_ms) == old(self).in_flight()->0
                &&& final(self).sent_sequences() == old(self).sent_sequences().push(u.sequence)
                &&& final(self).dropped() == old(self).dropped()
                &&& forall|i: int|
                    0 <= i < old(self).sent_sequences().len() ==> old(self).sent_sequences()[i]
                        < u.sequence
            },
            unit matches Err(e) ==> {
                &&& final(self).sent_sequences() == old(self).sent_sequences()
                &&& if old(self).in_flight() is Some {
                    &&& e.kind == PipelineFault::EncodeFailed
                    &&& final(self).dropped() == old(self).dropped() + 1
                } else {
                    &&& e.kind == PipelineFault::NoFrameInFlight
                    &&& *final(self) == *old(self)
                }
            },
    {
        proof {
            use_type_invariant(&*self);
        }
        let (sequence, timestamp_ms): (u64, u64) = match self.in_flight {
            Some(place) => place,
            None => {
                return Err(PipelineError { kind: PipelineFault::NoFrameInFlight });
            },
        };
        match encoded {
            Ok(payload) => {
                let sent_frames: u64 = count_one_more(self.sent_frames);
                let ghost log = self.sent_log@.push(sequence);
                proof {
                    assert forall|i: int, j: int| 0 <= i < j < log.len() implies log[i]
                        < log[j] by {
                        if j == log.len() - 1 && self.sent_log@.len() > 0 {
                            assert(self.sent_log@[i] <= self.sent_log@.last());
                        }
                    }
                }
                *self = FramePipeline {
                    running: self.running,
                    max_queue_depth: self.max_queue_depth,
                    in_flight: None,
                    last_sent: Some(sequence),
                    sent_frames,
                    dropped_frames: self.dropped_frames,
                    sent_log: Ghost(log),
                    dropped_total: self.dropped_total,
                };
                Ok(EncodedUnit { payload, timestamp_ms, sequence })
            },
            Err(_) => {
                self.in_flight = None;
                self.count_drop();
                Err(PipelineError { kind: PipelineFault::EncodeFailed })
            },
        }
    }

    /// Takes in whether the transport took the unit that was handed to it.
    ///
    /// A unit that was not taken ends the streaming phase: the pipeline stops
    /// and reports the failure. What was sent and dropped stays on record.
    pub fn on_send_result(&mut self, delivered: bool) -> (result: Result<(), PipelineError>)
        ensures
            result is Ok <==> delivered,
            result matches Err(e) ==> e.kind == PipelineFault::SendFailed,
            delivered ==> *final(self) == *old(self),
            !delivered ==> {
                &&& !final(self).running()
                &&& final(self).in_flight() is None
                &&& final(self).depth_limit() == old(self).depth_limit()
                &&& final(self).sent_sequences() == old(self).sent_sequences()
                &&& final(self).dropped() == old(self).dropped()
            },
    {
        if delivered {
            return Ok(());
        }
        self.stop();
        Err(PipelineError { kind: PipelineFault::SendFailed })
    }

    /// Whether the pipeline is in a streaming phase.
    pub fn is_running(&self) -> (running: bool)
        ensures
            running == self.running(),
    {
        self.running
    }

    /// The bound on the transport's outbound queue.
    pub fn max_queue_depth(&self) -> (limit: usize)
        ensures
            limit == self.depth_limit(),
    {
        self.max_queue_depth
    }

    /// The number of frames dropped in this phase, as far as the counter
    /// can count.
    pub fn dropped_frames(&self) -> (dropped: u64)
        ensures
            dropped == counted(self.dropped()),
    {
        proof {
            use_type_invariant(self);
        }
        self.dropped_frames
    }

    /// Counts one more dropped frame.
    fn count_drop(&mut self)
        ensures
            final(self).dropped() == old(self).dropped() + 1,
            final(self).running() == old(self).running(),
            final(self).depth_limit() == old(self).depth_limit(),
            final(self).in_flight() == old(self).in_flight(),
            final(self).sent_sequences() == old(self).sent_sequences(),
    {
        proof {
            use_type_invariant(&*self);
            lemma_counted_one_more(self.dropped_total@);
        }
        *self = FramePipeline {
            running: self.running,
            max_queue_depth: self.max_queue_depth,
            in_flight: self.in_flight,
            last_sent: self.last_sent,
            sent_frames: self.sent_frames,
            dropped_frames: count_one_more(self.dropped_frames),
            sent_log: self.sent_log,
            dropped_total: Ghost(self.dropped_total@ + 1),
        };
    }

    /// The number of units handed to the transport in this phase.
    pub fn sent_frames(&self) -> (sent: u64)
        ensures
            sent == counted(self.sent_sequences().len()),
    {
        proof {
            use_type_invariant(self);
        }
        self.sent_frames
    }

    /// The sequence number of the last unit handed to the transport in this
    /// phase.
    pub fn last_sequence(&self) -> (last: Option<u64>)
        ensures
            last is Some <==> self.sent_sequences().len() > 0,
            last matches Some(sequence) ==> sequence == self.sent_sequences().last(),
    {
        proof {
            use_type_invariant(self);
        }
        self.last_sent
    }

    /// Whether a frame is at the encoder.
    pub fn has_frame_in_flight(&self) -> (busy: bool)
        ensures
            busy == self.in_flight() is Some,
    {
        self.in_flight.is_some()
    }
}

/// What a pulled frame makes of a pipeline, and what is to be done with it.
///
/// The step is the pipeline's decision. A frame that is taken is at the
/// encoder then; one that is dropped is counted; and a pipeline that does not
/// run is left as it is. What was sent stays as it was in each case.
pub open spec fn is_frame_decided(
    before: &FramePipeline,
    after: &FramePipeline,
    frame: &Frame,
    queue_depth: usize,
    step: FrameStep,
) -> bool {
    &&& step == before.decision(frame.sequence, queue_depth)
    &&& after.same_phase(before)
    &&& match step {
        FrameStep::Encode => {
            &&& after.in_flight() == Some((frame.sequence, frame.timestamp_ms))
            &&& after.dropped() == before.dropped()
        },
        FrameStep::Dropped(_) => {
            &&& after.in_flight() == before.in_flight()
            &&& after.dropped() == before.dropped() + 1
        },
        FrameStep::Stopped => *after == *before,
    }
}

/// Within one streaming phase the sequence numbers handed to the transport
/// rise strictly: none is sent twice, and none after a higher one.
pub proof fn lemma_sent_sequences_rise(pipeline: FramePipeline, earlier: int, later: int)
    requires
        pipeline.well_formed(),
        0 <= earlier < later < pipeline.sent_sequences().len(),
    ensures
        pipeline.sent_sequences()[earlier] < pipeline.sent_sequences()[later],
{
}

/// A frame that is pulled while the transport's outbound queue is at its
/// bound never reaches the encoder: a running pipeline drops it, whatever
/// its sequence number, and the number of dropped frames goes up by one.
/// The pipeline holds nothing more than before.
pub proof fn lemma_full_queue_drops(
    before: FramePipeline,
    after: FramePipeline,
    frame: Frame,
    queue_depth: usize,
    step: FrameStep,
)
    requires
        before.running(),
        queue_depth >= before.depth_limit(),
        is_frame_decided(&before, &after, &frame, queue_depth, step),
    ensures
        step is Dropped,
        after.dropped() == before.dropped() + 1,
        after.in_flight() == before.in_flight(),
        after.sent_sequences() == before.sent_sequences(),
{
}

/// A frame is taken for encoding only while none is at the encoder, so the
/// pipeline never has more than one frame under way.
pub proof fn lemma_one_frame_under_way(pipeline: FramePipeline, sequence: u64, queue_depth: usize)
    requires
        pipeline.decision(sequence, queue_depth) is Encode,
    ensures
        pipeline.in_flight() is None,
        queue_depth < pipeline.depth_limit(),
{
}

/// The depth of the transport's outbound queue after a run of pulled frames
/// during which the transport takes nothing off the queue: every frame that
/// was taken for encoding has added its unit.
pub open spec fn depth_after(start: nat, steps: Seq<FrameStep>) -> nat
    decreases steps.len(),
{
    if steps.len() == 0 {
        start
    } else if steps.last() is Encode {
        depth_after(start, steps.drop_last()) + 1
    } else {
        depth_after(start, steps.drop_last())
    }
}

/// However many frames are pulled, and however long the transport's sends
/// are delayed, the outbound queue never holds more units than its bound.
///
/// The run starts with a queue within the bound. Each step of it is the
/// decision that the pipeline of that moment makes on the frame of that
/// moment at the depth that the queue has then; what the pipeline did in
/// between is open.
pub proof fn lemma_queue_never_passes_its_bound(
    pipelines: Seq<FramePipeline>,
    frames: Seq<Frame>,
    steps: Seq<FrameStep>,
    start: nat,
    limit: usize,
)
    requires
        start <= limit,
        pipelines.len() == steps.len(),
        frames.len() == steps.len(),
        forall|i: int| 0 <= i < steps.len() ==> (#[trigger] pipelines[i]).depth_limit() == limit,
        forall|i: int|
            0 <= i < steps.len() && depth_after(start, steps.take(i)) <= limit
                ==> #[trigger] steps[i] == pipelines[i].decision(
                frames[i].sequence,
                depth_after(start, steps.take(i)) as usize,
            ),
    ensures
        depth_after(start, steps) <= limit,
    decreases steps.len(),
{
    if steps.len() > 0 {
        let n = steps.len() - 1;
        let head = steps.drop_last();
        assert(steps.take(n) == head);
        assert forall|i: int| 0 <= i < n implies head.take(i) == steps.take(i) by {
            assert(head.take(i) =~= steps.take(i));
        }
        lemma_queue_never_passes_its_bound(
            pipelines.drop_last(),
            frames.drop_last(),
            head,
            start,
            limit,
        );
        assert(steps[n] == pipelines[n].decision(
            frames[n].sequence,
            depth_after(start, head) as usize,
        ));
    }
}

} // verus!

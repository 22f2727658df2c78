//! The audio pipeline task: which sample rate a session is opened with, how
//! one pipeline follows another, what happens to each captured chunk, and
//! when the task ends.

use vstd::prelude::*;

use crate::elevenlabs_streaming::StreamingError;
use crate::pcm::{sample_from_le_bytes, sample_of_le_bytes};
use crate::text::{contains, contains_text};

verus! {

/// Amplitude under which the noise gate, where it is switched on, silences
/// a chunk.
pub const NOISE_THRESHOLD: u16 = 100;

/// The sample rate a session is opened with: the device's own rate where
/// the device tells it, the requested one otherwise.
pub fn effective_sample_rate(requested: u32, device_rate: Option<u32>) -> (rate: u32)
    ensures
        rate == match device_rate {
            Some(actual) => actual,
            None => requested,
        },
{
    match device_rate {
        Some(actual) => actual,
        None => requested,
    }
}

/// One step of replacing or ending the pipeline task.
#[derive(Clone, Copy, PartialEq, Eq, Debug, Structural)]
pub enum PipelineStep {
    /// Cancel the running task through its token.
    CancelPrevious,
    /// Wait until the running task's thread has ended.
    JoinPrevious,
    /// Start a new task on a thread of its own and keep its handle.
    Spawn,
}

/// The steps that start a pipeline: a running one is cancelled and joined
/// before the new one is spawned.
pub open spec fn start_steps(running: bool) -> Seq<PipelineStep> {
    if running {
        seq![PipelineStep::CancelPrevious, PipelineStep::JoinPrevious, PipelineStep::Spawn]
    } else {
        seq![PipelineStep::Spawn]
    }
}

/// The steps that end a pipeline.
pub open spec fn stop_steps(running: bool) -> Seq<PipelineStep> {
    if running {
        seq![PipelineStep::CancelPrevious, PipelineStep::JoinPrevious]
    } else {
        Seq::empty()
    }
}

/// The one place for a pipeline task: it holds at most one.
pub struct PipelineSlot {
    occupied: bool,
}

impl PipelineSlot {
    /// Whether a task's handle is held.
    pub closed spec fn running(&self) -> bool {
        self.occupied
    }

    pub fn new() -> (slot: Self)
        ensures
            !slot.running(),
    {
        PipelineSlot { occupied: false }
    }

    pub fn is_running(&self) -> (running: bool)
        ensures
            running == self.running(),
    {
        self.occupied
    }

    /// Makes room for a new task and takes it in.
    pub fn start(&mut self) -> (steps: Vec<PipelineStep>)
        ensures
            steps@ == start_steps(old(self).running()),
            final(self).running(),
    {
        let mut steps: Vec<PipelineStep> = Vec::new();
        if self.occupied {
            steps.push(PipelineStep::CancelPrevious);
            steps.push(PipelineStep::JoinPrevious);
        }
        steps.push(PipelineStep::Spawn);
        self.occupied = true;
        assert(steps@ =~= start_steps(old(self).running()));
        steps
    }

    /// Ends the task, if there is one.
    pub fn stop(&mut self) -> (steps: Vec<PipelineStep>)
        ensures
            steps@ == stop_steps(old(self).running()),
            !final(self).running(),
    {
        let mut steps: Vec<PipelineStep> = Vec::new();
        if self.occupied {
            steps.push(PipelineStep::CancelPrevious);
            steps.push(PipelineStep::JoinPrevious);
        }
        self.occupied = false;
        assert(steps@ =~= stop_steps(old(self).running()));
        steps
    }
}

/// The number of pipeline tasks alive after the steps, where `alive` were
/// alive before: a spawn adds one and a join takes one away.
pub open spec fn alive_after(alive: int, steps: Seq<PipelineStep>) -> int
    decreases steps.len(),
{
    if steps.len() == 0 {
        alive
    } else {
        let before = alive_after(alive, steps.drop_last());
        match steps.last() {
            PipelineStep::Spawn => before + 1,
            PipelineStep::JoinPrevious => before - 1,
            PipelineStep::CancelPrevious => before,
        }
    }
}

/// The number of tasks that a slot stands for.
pub open spec fn tasks_of(running: bool) -> int {
    if running {
        1
    } else {
        0
    }
}

/// Never more than one pipeline task is alive: at every point of the steps
/// of a start and of a stop, whatever the slot held before, and afterwards
/// as many tasks are alive as the slot says. A task is joined only after
/// it was cancelled.
pub proof fn lemma_one_pipeline_at_a_time(running: bool, k: int)
    requires
        0 <= k,
    ensures
        k <= start_steps(running).len() ==> 0 <= alive_after(
            tasks_of(running),
            start_steps(running).take(k),
        ) <= 1,
        k <= stop_steps(running).len() ==> 0 <= alive_after(
            tasks_of(running),
            stop_steps(running).take(k),
        ) <= 1,
        alive_after(tasks_of(running), start_steps(running)) == 1,
        alive_after(tasks_of(running), stop_steps(running)) == 0,
        running ==> start_steps(running)[0] == PipelineStep::CancelPrevious && start_steps(
            running,
        )[1] == PipelineStep::JoinPrevious,
        running ==> stop_steps(running)[0] == PipelineStep::CancelPrevious && stop_steps(
            running,
        )[1] == PipelineStep::JoinPrevious,
{
    let alive = tasks_of(running);
    let start = start_steps(running);
    let stop = stop_steps(running);
    assert(start.take(0) =~= Seq::<PipelineStep>::empty());
    assert(stop.take(0) =~= Seq::<PipelineStep>::empty());
    assert(alive_after(alive, start.take(0)) == alive);
    assert(alive_after(alive, stop.take(0)) == alive);
    if running {
        assert(start.take(1).drop_last() =~= start.take(0));
        assert(start.take(2).drop_last() =~= start.take(1));
        assert(start.take(3).drop_last() =~= start.take(2));
        assert(start.take(3) =~= start);
        assert(stop.take(1).drop_last() =~= stop.take(0));
        assert(stop.take(2).drop_last() =~= stop.take(1));
        assert(stop.take(2) =~= stop);
        assert(start.take(1).last() == PipelineStep::CancelPrevious);
        assert(start.take(2).last() == PipelineStep::JoinPrevious);
        assert(start.take(3).last() == PipelineStep::Spawn);
        assert(stop.take(1).last() == PipelineStep::CancelPrevious);
        assert(stop.take(2).last() == PipelineStep::JoinPrevious);
        assert(alive_after(alive, start.take(1)) == 1);
        assert(alive_after(alive, start.take(2)) == 0);
        assert(alive_after(alive, start.take(3)) == 1);
        assert(alive_after(alive, stop.take(1)) == 1);
        assert(alive_after(alive, stop.take(2)) == 0);
    } else {
        assert(start.take(1).drop_last() =~= start.take(0));
        assert(start.take(1) =~= start);
        assert(stop =~= Seq::<PipelineStep>::empty());
        assert(start.take(1).last() == PipelineStep::Spawn);
        assert(alive_after(alive, start.take(1)) == 1);
    }
}

/// The sum of the squares of the samples of a PCM16LE buffer; a trailing
/// odd byte does not count.
pub open spec fn sum_of_squares(pcm: Seq<u8>) -> int
    decreases pcm.len(),
{
    if pcm.len() < 2 {
        0
    } else {
        let last = sample_of_le_bytes(pcm[pcm.len() - 2], pcm[pcm.len() - 1]);
        if pcm.len() % 2 == 0 {
            sum_of_squares(pcm.take(pcm.len() - 2)) + last * last
        } else {
            sum_of_squares(pcm.drop_last())
        }
    }
}

/// Whether the root mean square of the samples lies under the threshold.
/// A buffer without a sample has the amplitude zero.
pub open spec fn quieter_than(pcm: Seq<u8>, threshold: u16) -> bool {
    let count = pcm.len() as int / 2;
    if count == 0 {
        0 < threshold
    } else {
        sum_of_squares(pcm) < threshold as int * threshold as int * count
    }
}

/// The sum of squares is bounded by the number of samples.
pub proof fn lemma_sum_of_squares_bound(pcm: Seq<u8>)
    ensures
        0 <= sum_of_squares(pcm) <= (pcm.len() as int / 2) * 0x4000_0000,
    decreases pcm.len(),
{
    if pcm.len() >= 2 {
        if pcm.len() % 2 == 0 {
            let front = pcm.take(pcm.len() - 2);
            lemma_sum_of_squares_bound(front);
            let last = sample_of_le_bytes(pcm[pcm.len() - 2], pcm[pcm.len() - 1]);
            assert(0 <= last * last <= 0x4000_0000) by (nonlinear_arith)
                requires
                    -32768 <= last <= 32767,
            ;
            assert((front.len() as int / 2) * 0x4000_0000 + 0x4000_0000 == (pcm.len() as int / 2)
                * 0x4000_0000);
        } else {
            lemma_sum_of_squares_bound(pcm.drop_last());
        }
    }
}

/// Whether the chunk's amplitude lies under the threshold.
pub fn is_quiet(pcm: &Vec<u8>, threshold: u16) -> (quiet: bool)
    ensures
        quiet == quieter_than(pcm@, threshold),
{
    let len: usize = pcm.len();
    let count: usize = len / 2;
    let mut sum: u128 = 0;
    let mut i: usize = 0;
    assert(pcm@.take(0) =~= Seq::<u8>::empty());
    while i < count
        invariant
            i <= count,
            len == pcm@.len(),
            count == pcm@.len() as int / 2,
            sum == sum_of_squares(pcm@.take(2 * i)),
            sum <= i * 0x4000_0000,
        decreases count - i,
    {
        let sample: i16 = sample_from_le_bytes(pcm[2 * i], pcm[2 * i + 1]);
        let wide: i64 = sample as i64;
        assert(0 <= wide * wide <= 0x4000_0000) by (nonlinear_arith)
            requires
                -32768 <= wide <= 32767,
        ;
        let square: i64 = wide * wide;
        proof {
            let next = pcm@.take(2 * i + 2);
            assert(next.take(next.len() - 2) =~= pcm@.take(2 * i));
            assert(next[next.len() - 2] == pcm@[2 * i]);
            assert(next[next.len() - 1] == pcm@[2 * i + 1]);
            assert(i * 0x4000_0000 + 0x4000_0000 <= usize::MAX as int * 0x4000_0000);
        }
        sum = sum + square as u128;
        i += 1;
    }
    proof {
        if pcm@.len() % 2 == 0 {
            assert(pcm@.take(2 * count) =~= pcm@);
        } else {
            assert(pcm@.drop_last() =~= pcm@.take(2 * count));
            if pcm@.len() < 2 {
                assert(count == 0);
            }
        }
    }
    if count == 0 {
        return 0 < threshold;
    }
    let wide_threshold: u128 = threshold as u128;
    assert(wide_threshold * wide_threshold <= 0xffff_ffff) by (nonlinear_arith)
        requires
            wide_threshold <= 0xffff,
    ;
    let limit: u128 = wide_threshold * wide_threshold;
    assert(limit * count <= 0xffff_ffff * usize::MAX as int) by (nonlinear_arith)
        requires
            limit <= 0xffff_ffff,
            count <= usize::MAX,
            0 <= limit,
            0 <= count,
    ;
    sum < limit * count as u128
}

/// The optional amplitude gate in front of the transmit gate.
#[derive(Clone, Copy, PartialEq, Eq, Debug, Structural)]
pub struct NoiseGate {
    pub enabled: bool,
    pub threshold: u16,
}

impl NoiseGate {
    /// The noise gate as it is by default: switched off.
    pub fn off() -> (gate: NoiseGate)
        ensures
            gate == (NoiseGate { enabled: false, threshold: NOISE_THRESHOLD }),
    {
        NoiseGate { enabled: false, threshold: NOISE_THRESHOLD }
    }

    /// Whether the noise gate silences the chunk.
    pub open spec fn silences(self, pcm: Seq<u8>) -> bool {
        self.enabled && quieter_than(pcm, self.threshold)
    }

    /// The chunk as it leaves the noise gate: all zero where it is silenced,
    /// unchanged otherwise.
    pub open spec fn filtered(self, pcm: Seq<u8>) -> Seq<u8> {
        if self.silences(pcm) {
            Seq::new(pcm.len(), |i: int| 0u8)
        } else {
            pcm
        }
    }

    pub fn apply(&self, pcm: Vec<u8>) -> (out: Vec<u8>)
        ensures
            out@ == self.filtered(pcm@),
    {
        if !self.enabled || !is_quiet(&pcm, self.threshold) {
            return pcm;
        }
        let mut out = pcm;
        let mut i: usize = 0;
        while i < out.len()
            invariant
                i <= out@.len(),
                out@.len() == pcm@.len(),
                forall|j: int| 0 <= j < i ==> out@[j] == 0u8,
            decreases out@.len() - i,
        {
            out.set(i, 0u8);
            i += 1;
        }
        assert(out@ =~= Seq::new(pcm@.len(), |i: int| 0u8));
        out
    }
}

/// What woke the pipeline task.
pub enum PipelineEvent {
    /// The cancellation token fired.
    Cancelled,
    /// The capture delivered a chunk.
    Chunk(Vec<u8>),
    /// The capture's channel is closed.
    CaptureEnded,
}

/// What the pipeline task does next.
pub enum PipelineAction {
    /// Stop the capture and leave.
    StopCapture,
    /// Hand the chunk to the session.
    Forward(Vec<u8>),
    /// Leave.
    Exit,
}

/// A `PipelineAction` as plain values.
pub enum PipelineActionView {
    StopCapture,
    Forward(Seq<u8>),
    Exit,
}

impl View for PipelineAction {
    type V = PipelineActionView;

    open spec fn view(&self) -> PipelineActionView {
        match self {
            PipelineAction::StopCapture => PipelineActionView::StopCapture,
            PipelineAction::Forward(pcm) => PipelineActionView::Forward(pcm@),
            PipelineAction::Exit => PipelineActionView::Exit,
        }
    }
}

/// One turn of the pipeline task: cancellation stops the capture, a chunk
/// goes through the noise gate and on to the session, and the end of the
/// capture ends the task.
pub fn on_pipeline_event(gate: &NoiseGate, event: PipelineEvent) -> (action: PipelineAction)
    ensures
        action@ == match event {
            PipelineEvent::Cancelled => PipelineActionView::StopCapture,
            PipelineEvent::Chunk(pcm) => PipelineActionView::Forward(gate.filtered(pcm@)),
            PipelineEvent::CaptureEnded => PipelineActionView::Exit,
        },
{
    match event {
        PipelineEvent::Cancelled => PipelineAction::StopCapture,
        PipelineEvent::Chunk(pcm) => PipelineAction::Forward(gate.apply(pcm)),
        PipelineEvent::CaptureEnded => PipelineAction::Exit,
    }
}

/// Why a chunk did not reach the server.
pub enum SendFailure {
    /// The session turned the chunk down.
    Refused(StreamingError),
    /// The transport failed with this description.
    Transport(String),
}

impl SendFailure {
    /// Whether the failure means that the connection is gone for good: the
    /// session says so, or the transport's description does.
    pub open spec fn fatal(self) -> bool {
        match self {
            SendFailure::Refused(e) => e.ends_pipeline(),
            SendFailure::Transport(text) => contains_text(text@, "Connection is dead"@)
                || contains_text(text@, "closed"@) || contains_text(text@, "Not connected"@),
        }
    }

    pub fn is_fatal(&self) -> (fatal: bool)
        ensures
            fatal == self.fatal(),
    {
        match self {
            SendFailure::Refused(e) => e.is_fatal_for_pipeline(),
            SendFailure::Transport(text) => contains(text.as_str(), "Connection is dead")
                || contains(text.as_str(), "closed") || contains(text.as_str(), "Not connected"),
        }
    }
}

/// Whether the pipeline task goes on after a send: one chunk that fails
/// does not end it, a connection that is gone does.
pub fn continues_after_send(outcome: &Result<(), SendFailure>) -> (goes_on: bool)
    ensures
        goes_on == match outcome {
            Ok(()) => true,
            Err(failure) => !failure.fatal(),
        },
{
    match outcome {
        Ok(()) => true,
        Err(failure) => !failure.is_fatal(),
    }
}

} // verus!

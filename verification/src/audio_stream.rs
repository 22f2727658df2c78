//! Continuous capture: device samples are converted, downmixed and cut into
//! chunks of fixed duration, and every full chunk is offered to a bounded
//! channel without ever waiting for room.

use tokio::sync::mpsc::error::TrySendError;
use tokio::sync::mpsc::{Receiver, Sender};
use vstd::prelude::*;

use crate::pcm::{converted, downmix, downmix_frame, le_bytes, sample_to_le_bytes, PcmSample};

verus! {

/// Capacity of the chunk channel: about five seconds of audio.
pub const MAX_AUDIO_BUFFER_SIZE: usize = 50;

/// Duration of one chunk in milliseconds.
pub const CHUNK_MS: u32 = 100;

/// The number of mono samples in one chunk at a sample rate.
pub open spec fn chunk_samples(sample_rate: u32) -> int {
    sample_rate as int * 100 / 1000
}

pub fn samples_per_chunk(sample_rate: u32) -> (samples: u32)
    ensures
        samples == chunk_samples(sample_rate),
{
    sample_rate / 10
}

/// The mono samples of an interleaved buffer: one per frame of `channels`
/// samples, the last frame being whatever is left.
pub open spec fn mono_samples<T: PcmSample>(data: Seq<T>, channels: int) -> Seq<i16>
    decreases data.len(),
{
    if channels <= 0 || data.len() == 0 {
        Seq::empty()
    } else if data.len() <= channels {
        seq![downmix(converted(data), channels) as i16]
    } else {
        seq![downmix(converted(data.take(channels)), channels) as i16] + mono_samples(
            data.skip(channels),
            channels,
        )
    }
}

/// Samples as PCM16LE bytes.
pub open spec fn pcm_bytes(samples: Seq<i16>) -> Seq<u8>
    decreases samples.len(),
{
    if samples.len() == 0 {
        Seq::empty()
    } else {
        pcm_bytes(samples.drop_last()) + le_bytes(samples.last())
    }
}

/// The bytes of a run of chunks, one after the other.
pub open spec fn joined(chunks: Seq<Vec<u8>>) -> Seq<u8>
    decreases chunks.len(),
{
    if chunks.len() == 0 {
        Seq::empty()
    } else {
        joined(chunks.drop_last()) + chunks.last()@
    }
}

/// Every buffer holds two bytes for each sample.
pub proof fn lemma_pcm_bytes_len(samples: Seq<i16>)
    ensures
        pcm_bytes(samples).len() == 2 * samples.len(),
    decreases samples.len(),
{
    if samples.len() > 0 {
        lemma_pcm_bytes_len(samples.drop_last());
    }
}

/// Chunks of equal length lie in their concatenation one after the other.
pub proof fn lemma_joined_chunks(chunks: Seq<Vec<u8>>, chunk_bytes: int)
    requires
        chunk_bytes > 0,
        forall|i: int| 0 <= i < chunks.len() ==> (#[trigger] chunks[i])@.len() == chunk_bytes,
    ensures
        joined(chunks).len() == chunks.len() * chunk_bytes,
        forall|i: int|
            0 <= i < chunks.len() ==> (#[trigger] chunks[i])@ == joined(chunks).subrange(
                i * chunk_bytes,
                (i + 1) * chunk_bytes,
            ),
    decreases chunks.len(),
{
    if chunks.len() > 0 {
        let front = chunks.drop_last();
        let n = front.len() as int;
        lemma_joined_chunks(front, chunk_bytes);
        assert((n + 1) * chunk_bytes == n * chunk_bytes + chunk_bytes) by (nonlinear_arith);
        assert forall|i: int| 0 <= i < chunks.len() implies (#[trigger] chunks[i])@ == joined(
            chunks,
        ).subrange(i * chunk_bytes, (i + 1) * chunk_bytes) by {
            assert((i + 1) * chunk_bytes == i * chunk_bytes + chunk_bytes) by (nonlinear_arith);
            if i < n {
                assert(0 <= i * chunk_bytes && (i + 1) * chunk_bytes <= n * chunk_bytes)
                    by (nonlinear_arith)
                    requires
                        0 <= i < n,
                        chunk_bytes > 0,
                ;
                assert(front[i] == chunks[i]);
                assert(joined(chunks).subrange(i * chunk_bytes, (i + 1) * chunk_bytes) =~= joined(
                    front,
                ).subrange(i * chunk_bytes, (i + 1) * chunk_bytes));
            } else {
                assert(joined(chunks).subrange(n * chunk_bytes, (n + 1) * chunk_bytes)
                    =~= chunks.last()@);
            }
        }
    } else {
        assert(chunks.len() * chunk_bytes == 0) by (nonlinear_arith)
            requires
                chunks.len() == 0,
        ;
    }
}

/// Cutting `all` into chunks of `chunk_bytes` leaves no choice: the number
/// of chunks, each chunk and the remainder follow from `all` alone.
pub proof fn lemma_chunking_is_determined(
    all: Seq<u8>,
    chunks: Seq<Vec<u8>>,
    rest: Seq<u8>,
    chunk_bytes: int,
)
    requires
        chunk_bytes > 0,
        all == joined(chunks) + rest,
        rest.len() < chunk_bytes,
        forall|i: int| 0 <= i < chunks.len() ==> (#[trigger] chunks[i])@.len() == chunk_bytes,
    ensures
        chunks.len() == all.len() as int / chunk_bytes,
        rest.len() == all.len() as int % chunk_bytes,
        rest == all.skip(chunks.len() * chunk_bytes),
        forall|i: int|
            0 <= i < chunks.len() ==> (#[trigger] chunks[i])@ == all.subrange(
                i * chunk_bytes,
                (i + 1) * chunk_bytes,
            ),
{
    lemma_joined_chunks(chunks, chunk_bytes);
    let n = chunks.len() as int;
    let r = rest.len() as int;
    assert(all.len() == n * chunk_bytes + r);
    assert(n == (n * chunk_bytes + r) / chunk_bytes && r == (n * chunk_bytes + r) % chunk_bytes)
        by (nonlinear_arith)
        requires
            0 <= r < chunk_bytes,
            0 <= n,
    ;
    assert(rest =~= all.skip(n * chunk_bytes));
    assert forall|i: int| 0 <= i < chunks.len() implies (#[trigger] chunks[i])@ == all.subrange(
        i * chunk_bytes,
        (i + 1) * chunk_bytes,
    ) by {
        assert(0 <= i * chunk_bytes <= (i + 1) * chunk_bytes <= n * chunk_bytes)
            by (nonlinear_arith)
            requires
                0 <= i < n,
                chunk_bytes > 0,
        ;
        assert(all.subrange(i * chunk_bytes, (i + 1) * chunk_bytes) =~= joined(chunks).subrange(
            i * chunk_bytes,
            (i + 1) * chunk_bytes,
        ));
    }
}

/// The bytes that a buffer of device samples adds to what was waiting.
pub open spec fn stream_after<T: PcmSample>(waiting: Seq<u8>, data: Seq<T>, channels: int) -> Seq<
    u8,
> {
    waiting + pcm_bytes(mono_samples(data, channels))
}

/// Collects PCM16LE bytes until a chunk is full.
pub struct ChunkAccumulator {
    channels: u16,
    chunk_bytes: usize,
    buffer: Vec<u8>,
}

impl ChunkAccumulator {
    /// The number of interleaved input channels.
    pub closed spec fn channels(&self) -> u16 {
        self.channels
    }

    /// The length of one chunk in bytes.
    pub closed spec fn chunk_bytes(&self) -> usize {
        self.chunk_bytes
    }

    /// The bytes that wait for their chunk to fill.
    pub closed spec fn pending(&self) -> Seq<u8> {
        self.buffer@
    }

    /// At least one channel, chunks of whole samples, and never a full
    /// chunk left waiting.
    pub open spec fn wf(&self) -> bool {
        &&& self.channels() > 0
        &&& self.chunk_bytes() > 0
        &&& self.chunk_bytes() % 2 == 0
        &&& self.pending().len() % 2 == 0
        &&& self.pending().len() < self.chunk_bytes()
    }

    #[verifier::type_invariant]
    spec fn well_formed(self) -> bool {
        self.wf()
    }

    /// An empty accumulator, or nothing where a chunk would hold no sample
    /// or a frame no channel.
    pub fn new(channels: u16, samples_per_chunk: u32) -> (accumulator: Option<Self>)
        ensures
            accumulator is Some <==> channels > 0 && samples_per_chunk > 0 && samples_per_chunk
                * 2 <= usize::MAX,
            accumulator matches Some(a) ==> {
                &&& a.wf()
                &&& a.channels() == channels
                &&& a.chunk_bytes() == samples_per_chunk * 2
                &&& a.pending() == Seq::<u8>::empty()
            },
    {
        if channels == 0 || samples_per_chunk == 0 {
            return None;
        }
        let doubled: u64 = samples_per_chunk as u64 * 2;
        if doubled > usize::MAX as u64 {
            return None;
        }
        Some(ChunkAccumulator { channels, chunk_bytes: doubled as usize, buffer: Vec::new() })
    }

    pub fn channel_count(&self) -> (channels: u16)
        ensures
            channels == self.channels(),
    {
        self.channels
    }

    pub fn chunk_len(&self) -> (bytes: usize)
        ensures
            bytes == self.chunk_bytes(),
    {
        self.chunk_bytes
    }

    pub fn pending_len(&self) -> (bytes: usize)
        ensures
            bytes == self.pending().len(),
            bytes < self.chunk_bytes(),
    {
        proof {
            use_type_invariant(self);
        }
        self.buffer.len()
    }

    /// Takes one buffer of interleaved device samples: converts and
    /// downmixes frame by frame, appends the bytes to what was waiting, and
    /// hands back every chunk that became full, in order. What is left
    /// waiting is shorter than a chunk.
    pub fn push_samples<T: PcmSample>(&mut self, data: &[T]) -> (chunks: Vec<Vec<u8>>)
        ensures
            final(self).wf(),
            final(self).channels() == old(self).channels(),
            final(self).chunk_bytes() == old(self).chunk_bytes(),
            ({
                let all = stream_after(old(self).pending(), data@, old(self).channels() as int);
                let size = old(self).chunk_bytes() as int;
                &&& chunks@.len() == all.len() as int / size
                &&& forall|i: int|
                    0 <= i < chunks@.len() ==> (#[trigger] chunks@[i])@ == all.subrange(
                        i * size,
                        (i + 1) * size,
                    )
                &&& final(self).pending() == all.skip(chunks@.len() * size)
            }),
    {
        proof {
            use_type_invariant(&*self);
        }
        let mut taken = ChunkAccumulator { channels: 1, chunk_bytes: 2, buffer: Vec::new() };
        core::mem::swap(self, &mut taken);
        let ChunkAccumulator { channels: channel_count, chunk_bytes, buffer } = taken;
        let mut buffer = buffer;
        let channels: usize = channel_count as usize;
        let mut chunks: Vec<Vec<u8>> = Vec::new();
        let mut start: usize = 0;
        let ghost mut done: Seq<i16> = Seq::empty();
        assert(data@.skip(0) =~= data@);
        assert(old(self).pending() + pcm_bytes(done) =~= joined(chunks@) + buffer@);
        while start < data.len()
            invariant
                old(self).wf(),
                channel_count == old(self).channels,
                chunk_bytes == old(self).chunk_bytes,
                channels == channel_count,
                buffer@.len() % 2 == 0,
                buffer@.len() < chunk_bytes,
                start <= data@.len(),
                mono_samples(data@, channels as int) == done + mono_samples(
                    data@.skip(start as int),
                    channels as int,
                ),
                old(self).pending() + pcm_bytes(done) == joined(chunks@) + buffer@,
                forall|i: int|
                    0 <= i < chunks@.len() ==> (#[trigger] chunks@[i])@.len() == chunk_bytes,
            decreases data@.len() - start,
        {
            let end: usize = if data.len() - start >= channels {
                start + channels
            } else {
                data.len()
            };
            let mono = downmix_frame(data, start, end, channel_count);
            let bytes = sample_to_le_bytes(mono);
            let ghost earlier_samples = done;
            proof {
                let rest = data@.skip(start as int);
                let frame = data@.subrange(start as int, end as int);
                if rest.len() <= channels {
                    assert(frame =~= rest);
                    assert(data@.skip(end as int) =~= Seq::<T>::empty());
                    assert(mono_samples(data@.skip(end as int), channels as int) =~= Seq::<
                        i16,
                    >::empty());
                } else {
                    assert(frame =~= rest.take(channels as int));
                    assert(data@.skip(end as int) =~= rest.skip(channels as int));
                }
                assert(mono_samples(rest, channels as int) =~= seq![mono] + mono_samples(
                    data@.skip(end as int),
                    channels as int,
                ));
                assert(mono_samples(data@, channels as int) =~= done.push(mono) + mono_samples(
                    data@.skip(end as int),
                    channels as int,
                ));
                assert(done.push(mono).drop_last() =~= done);
                assert(pcm_bytes(done.push(mono)) =~= pcm_bytes(done) + seq![bytes.0, bytes.1]);
                done = done.push(mono);
            }
            let ghost before = buffer@;
            buffer.push(bytes.0);
            buffer.push(bytes.1);
            assert(buffer@ =~= before + seq![bytes.0, bytes.1]);
            assert(old(self).pending() + pcm_bytes(done) =~= (old(self).pending() + pcm_bytes(
                earlier_samples,
            )) + seq![bytes.0, bytes.1]);
            assert(joined(chunks@) + buffer@ =~= (joined(chunks@) + before) + seq![
                bytes.0,
                bytes.1,
            ]);
            if buffer.len() >= chunk_bytes {
                let mut full: Vec<u8> = Vec::new();
                core::mem::swap(&mut buffer, &mut full);
                let ghost earlier = chunks@;
                chunks.push(full);
                assert(chunks@.drop_last() =~= earlier);
                assert(joined(chunks@) + buffer@ =~= joined(earlier) + full@);
            }
            start = end;
        }
        assert(data@.skip(start as int) =~= Seq::<T>::empty());
        assert(mono_samples(data@, channels as int) =~= done);
        proof {
            lemma_chunking_is_determined(
                stream_after(old(self).pending(), data@, channels as int),
                chunks@,
                buffer@,
                chunk_bytes as int,
            );
        }
        *self = ChunkAccumulator { channels: channel_count, chunk_bytes, buffer };
        chunks
    }
}

/// `tokio::sync::mpsc::Sender`: the sending half of a bounded channel.
/// Nothing inside it is visible here.
#[verifier::external_type_specification]
#[verifier::external_body]
#[verifier::reject_recursive_types(T)]
pub struct ExSender<T>(Sender<T>);

/// `tokio::sync::mpsc::Receiver`: the receiving half of a bounded channel.
/// Nothing inside it is visible here.
#[verifier::external_type_specification]
#[verifier::external_body]
#[verifier::reject_recursive_types(T)]
pub struct ExReceiver<T>(Receiver<T>);

/// The number of chunks that the channel was made to hold at most: what
/// `Sender::max_capacity` reports.
pub uninterp spec fn channel_limit(sender: Sender<Vec<u8>>) -> usize;

/// What became of a chunk that was offered to the channel.
#[derive(Clone, Copy, PartialEq, Eq, Debug, Structural)]
pub enum ChunkOffer {
    /// The channel took the chunk.
    Accepted,
    /// The channel was full: the chunk is dropped.
    Full,
    /// The receiver is gone: the chunk is dropped and no more will be taken.
    Closed,
}

/// `tokio::sync::mpsc::channel`: a bounded channel for chunks, made to hold
/// at most `capacity` of them. It refuses a capacity of zero and one above
/// an eighth of the address space.
#[verifier::external_body]
fn bounded_channel(capacity: usize) -> (ends: (Sender<Vec<u8>>, Receiver<Vec<u8>>))
    requires
        0 < capacity <= usize::MAX / 8,
    ensures
        channel_limit(ends.0) == capacity,
{
    tokio::sync::mpsc::channel(capacity)
}

/// `tokio::sync::mpsc::Sender::try_send`: offers a chunk without waiting.
/// Which of the three answers comes back depends on the receiving side, so
/// nothing is promised of it.
#[verifier::external_body]
fn offer_chunk(tx: &Sender<Vec<u8>>, chunk: Vec<u8>) -> (offer: ChunkOffer) {
    match tx.try_send(chunk) {
        Ok(()) => ChunkOffer::Accepted,
        Err(TrySendError::Full(_)) => ChunkOffer::Full,
        Err(TrySendError::Closed(_)) => ChunkOffer::Closed,
    }
}

/// What one hardware callback did with the chunks it completed.
#[derive(Clone, Copy, PartialEq, Eq, Debug, Structural)]
pub struct CallbackReport {
    /// Chunks that the channel took.
    pub sent: usize,
    /// Chunks dropped because the channel was full.
    pub dropped: usize,
    /// Chunks thrown away because the receiver was gone.
    pub discarded: usize,
}

impl CallbackReport {
    /// The number of chunks the report accounts for.
    pub open spec fn total(self) -> int {
        self.sent + self.dropped + self.discarded
    }

    /// The report after the channel answered for one chunk while
    /// `remaining` more wait behind it: a chunk is taken or dropped alone,
    /// and a closed channel throws away the chunk and all that wait. A
    /// count that has reached the largest number stays there.
    pub open spec fn recorded(self, offer: ChunkOffer, remaining: usize) -> CallbackReport {
        match offer {
            ChunkOffer::Accepted => CallbackReport { sent: capped(self.sent + 1), ..self },
            ChunkOffer::Full => CallbackReport { dropped: capped(self.dropped + 1), ..self },
            ChunkOffer::Closed => CallbackReport {
                discarded: capped(self.discarded + 1 + remaining),
                ..self
            },
        }
    }

    pub fn none() -> (report: CallbackReport)
        ensures
            report == (CallbackReport { sent: 0, dropped: 0, discarded: 0 }),
    {
        CallbackReport { sent: 0, dropped: 0, discarded: 0 }
    }

    /// Takes note of the channel's answer for one chunk and says whether
    /// the next chunk is to be offered.
    pub fn record(&mut self, offer: ChunkOffer, remaining: usize) -> (goes_on: bool)
        ensures
            *final(self) == old(self).recorded(offer, remaining),
            goes_on == (offer != ChunkOffer::Closed),
    {
        match offer {
            ChunkOffer::Accepted => {
                self.sent = add_capped(self.sent, 1);
                true
            },
            ChunkOffer::Full => {
                self.dropped = add_capped(self.dropped, 1);
                true
            },
            ChunkOffer::Closed => {
                self.discarded = add_capped(add_capped(self.discarded, 1), remaining);
                false
            },
        }
    }
}

/// The count itself, or the largest number where it does not fit.
pub open spec fn capped(count: int) -> usize {
    if count > usize::MAX {
        usize::MAX
    } else {
        count as usize
    }
}

fn add_capped(a: usize, b: usize) -> (sum: usize)
    ensures
        sum == capped(a + b),
{
    if a > usize::MAX - b {
        usize::MAX
    } else {
        a + b
    }
}

/// The hardware callback's state: the accumulator, and whether the
/// receiver has gone away.
pub struct ChunkProducer {
    accumulator: ChunkAccumulator,
    receiver_gone: bool,
}

impl ChunkProducer {
    pub closed spec fn accumulator(&self) -> ChunkAccumulator {
        self.accumulator
    }

    /// Whether the receiver was found gone; from then on nothing is produced.
    pub closed spec fn stopped(&self) -> bool {
        self.receiver_gone
    }

    pub open spec fn wf(&self) -> bool {
        self.accumulator().wf()
    }

    pub fn new(accumulator: ChunkAccumulator) -> (producer: Self)
        ensures
            producer.wf(),
            producer.accumulator() == accumulator,
            !producer.stopped(),
    {
        proof {
            use_type_invariant(&accumulator);
        }
        ChunkProducer { accumulator, receiver_gone: false }
    }

    pub fn has_stopped(&self) -> (stopped: bool)
        ensures
            stopped == self.stopped(),
    {
        self.receiver_gone
    }

    pub fn pending_len(&self) -> (bytes: usize)
        ensures
            bytes == self.accumulator().pending().len(),
    {
        self.accumulator.pending_len()
    }

    /// The hardware callback. It never waits: every chunk that fills up is
    /// offered once and is either taken, dropped because the channel is
    /// full, or thrown away because the receiver is gone. Whatever the
    /// channel answers, less than one chunk stays in memory afterwards, and
    /// once the receiver is gone the callback does nothing at all.
    pub fn on_audio_data<T: PcmSample>(&mut self, data: &[T], tx: &Sender<Vec<u8>>) -> (report:
        CallbackReport)
        ensures
            final(self).wf(),
            final(self).accumulator().channels() == old(self).accumulator().channels(),
            final(self).accumulator().chunk_bytes() == old(self).accumulator().chunk_bytes(),
            old(self).stopped() ==> *final(self) == *old(self) && report.total() == 0,
            !old(self).stopped() ==> {
                let all = stream_after(
                    old(self).accumulator().pending(),
                    data@,
                    old(self).accumulator().channels() as int,
                );
                let size = old(self).accumulator().chunk_bytes() as int;
                &&& report.total() == all.len() as int / size
                &&& final(self).accumulator().pending() == all.skip(report.total() * size)
                &&& final(self).stopped() <==> report.discarded > 0
            },
    {
        proof {
            use_type_invariant(&self.accumulator);
        }
        if self.receiver_gone {
            return CallbackReport::none();
        }
        let mut chunks = self.accumulator.push_samples(data);
        let ghost completed = chunks@;
        let ghost filled = self.accumulator;
        let total: usize = chunks.len();
        let mut report = CallbackReport::none();
        while chunks.len() > 0
            invariant
                report.total() + chunks@.len() == completed.len(),
                completed.len() == total,
                self.receiver_gone <==> report.discarded > 0,
                self.receiver_gone ==> chunks@.len() == 0,
                self.accumulator == filled,
            decreases chunks@.len(),
        {
            let chunk = chunks.remove(0);
            let offer = offer_chunk(tx, chunk);
            if !report.record(offer, chunks.len()) {
                self.receiver_gone = true;
                chunks = Vec::new();
            }
        }
        report
    }
}

/// The encodings a device may deliver its samples in.
#[derive(Clone, Copy, PartialEq, Eq, Debug, Structural)]
pub enum SampleFormat {
    I8,
    I16,
    I32,
    I64,
    U8,
    U16,
    U32,
    U64,
    F32,
    F64,
    /// Any encoding the converter has no rule for.
    Other,
}

impl SampleFormat {
    pub open spec fn supported(self) -> bool {
        self != SampleFormat::Other
    }

    pub fn is_supported(self) -> (supported: bool)
        ensures
            supported == self.supported(),
    {
        match self {
            SampleFormat::Other => false,
            _ => true,
        }
    }
}

/// What the input device offers by default.
#[derive(Clone, Copy, PartialEq, Eq, Debug, Structural)]
pub struct DeviceConfig {
    pub sample_rate: u32,
    pub channels: u16,
    pub sample_format: SampleFormat,
}

impl DeviceConfig {
    /// Whether chunks can be cut from what the device delivers: a known
    /// encoding, at least one channel, and a rate at which a chunk holds
    /// at least one sample.
    pub open spec fn usable(self) -> bool {
        self.sample_format.supported() && self.channels > 0 && chunk_samples(self.sample_rate) > 0
    }
}

/// Why the capture did not start.
#[derive(Clone, Copy, PartialEq, Eq, Debug, Structural)]
pub enum CaptureError {
    /// The capture is running already.
    AlreadyRunning,
    /// The device delivers samples in an encoding without a conversion.
    UnsupportedSampleFormat,
    /// The device reports no channel, or a rate too low for a chunk.
    UnusableConfig,
}

impl CaptureError {
    pub open spec fn text(self) -> Seq<char> {
        match self {
            CaptureError::AlreadyRunning => "Audio capture already running"@,
            CaptureError::UnsupportedSampleFormat => "Unsupported sample format"@,
            CaptureError::UnusableConfig => "Unusable input configuration"@,
        }
    }

    pub fn message(self) -> (m: &'static str)
        ensures
            m@ == self.text(),
    {
        match self {
            CaptureError::AlreadyRunning => "Audio capture already running",
            CaptureError::UnsupportedSampleFormat => "Unsupported sample format",
            CaptureError::UnusableConfig => "Unusable input configuration",
        }
    }
}

/// What a started capture consists of: the callback's state and both ends
/// of the chunk channel.
pub struct CaptureSetup {
    pub producer: ChunkProducer,
    pub sender: Sender<Vec<u8>>,
    pub receiver: Receiver<Vec<u8>>,
}

/// The capture of the default input device.
pub struct ContinuousAudioCapture {
    is_running: bool,
    sample_rate: u32,
}

impl ContinuousAudioCapture {
    pub closed spec fn running(&self) -> bool {
        self.is_running
    }

    /// The rate negotiated with the device, zero before the first start.
    pub closed spec fn rate(&self) -> u32 {
        self.sample_rate
    }

    pub fn new() -> (capture: Result<Self, CaptureError>)
        ensures
            capture matches Ok(c) && !c.running() && c.rate() == 0,
    {
        Ok(ContinuousAudioCapture { is_running: false, sample_rate: 0 })
    }

    pub fn is_running(&self) -> (running: bool)
        ensures
            running == self.running(),
    {
        self.is_running
    }

    pub fn sample_rate(&self) -> (rate: u32)
        ensures
            rate == self.rate(),
    {
        self.sample_rate
    }

    /// Why a start with this device is turned down, if it is.
    pub open spec fn start_error(&self, device: DeviceConfig) -> Option<CaptureError> {
        if self.running() {
            Some(CaptureError::AlreadyRunning)
        } else if !device.sample_format.supported() {
            Some(CaptureError::UnsupportedSampleFormat)
        } else if !device.usable() {
            Some(CaptureError::UnusableConfig)
        } else {
            None
        }
    }

    /// Starts the capture with whatever the device offers. A running
    /// capture is not started twice. On success the capture runs at the
    /// device's rate, the callback starts empty with chunks of one tenth of
    /// a second, and the channel holds at most `MAX_AUDIO_BUFFER_SIZE` of
    /// them.
    pub fn start(&mut self, device: DeviceConfig) -> (result: Result<CaptureSetup, CaptureError>)
        ensures
            match result {
                Ok(setup) => {
                    &&& old(self).start_error(device) is None
                    &&& final(self).running()
                    &&& final(self).rate() == device.sample_rate
                    &&& setup.producer.wf()
                    &&& !setup.producer.stopped()
                    &&& setup.producer.accumulator().channels() == device.channels
                    &&& setup.producer.accumulator().chunk_bytes() == 2 * chunk_samples(
                        device.sample_rate,
                    )
                    &&& setup.producer.accumulator().pending() == Seq::<u8>::empty()
                    &&& channel_limit(setup.sender) == MAX_AUDIO_BUFFER_SIZE
                },
                Err(e) => {
                    &&& old(self).start_error(device) == Some(e)
                    &&& final(self).running() == old(self).running()
                    &&& final(self).rate() == if old(self).running() {
                        old(self).rate()
                    } else {
                        device.sample_rate
                    }
                },
            },
    {
        if self.is_running {
            return Err(CaptureError::AlreadyRunning);
        }
        self.sample_rate = device.sample_rate;
        if !device.sample_format.is_supported() {
            return Err(CaptureError::UnsupportedSampleFormat);
        }
        let accumulator = match ChunkAccumulator::new(
            device.channels,
            samples_per_chunk(device.sample_rate),
        ) {
            Some(a) => a,
            None => {
                return Err(CaptureError::UnusableConfig);
            },
        };
        let (sender, receiver) = bounded_channel(MAX_AUDIO_BUFFER_SIZE);
        self.is_running = true;
        Ok(CaptureSetup { producer: ChunkProducer::new(accumulator), sender, receiver })
    }

    /// Stops the capture and says whether a stream was running, which the
    /// caller then has to drop. Stopping a stopped capture does nothing.
    pub fn stop(&mut self) -> (was_running: bool)
        ensures
            was_running == old(self).running(),
            !final(self).running(),
            final(self).rate() == old(self).rate(),
    {
        let was_running = self.is_running;
        self.is_running = false;
        was_running
    }
}

} // verus!

//! Format converter: device samples of any integer encoding to mono 16-bit
//! signed PCM, and the downmix of one interleaved frame.

use vstd::prelude::*;

verus! {

/// A device sample that converts to 16-bit signed PCM.
pub trait PcmSample: Copy {
    /// The 16-bit value of the sample.
    spec fn pcm16(self) -> i16;

    fn to_pcm16(self) -> (s: i16)
        ensures
            s == self.pcm16(),
    ;
}

/// Signed 8-bit samples are scaled up by eight bits.
pub open spec fn pcm16_of_i8(s: i8) -> int {
    s as int * 256
}

/// Signed 32-bit samples keep their upper sixteen bits.
pub open spec fn pcm16_of_i32(s: i32) -> int {
    s as int / 65536
}

/// Signed 64-bit samples keep their upper sixteen bits.
pub open spec fn pcm16_of_i64(s: i64) -> int {
    s as int / 0x1_0000_0000_0000
}

/// Unsigned 8-bit samples are centred on zero, then scaled up.
pub open spec fn pcm16_of_u8(s: u8) -> int {
    (s as int - 128) * 256
}

/// Unsigned 16-bit samples are centred on zero.
pub open spec fn pcm16_of_u16(s: u16) -> int {
    s as int - 32768
}

/// Unsigned 32-bit samples are centred on zero, then keep their upper
/// sixteen bits.
pub open spec fn pcm16_of_u32(s: u32) -> int {
    (s as int - 0x8000_0000) / 65536
}

/// Unsigned 64-bit samples are centred on zero, then keep their upper
/// sixteen bits.
pub open spec fn pcm16_of_u64(s: u64) -> int {
    (s as int - 0x8000_0000_0000_0000) / 0x1_0000_0000_0000
}

impl PcmSample for i8 {
    open spec fn pcm16(self) -> i16 {
        pcm16_of_i8(self) as i16
    }

    fn to_pcm16(self) -> (s: i16) {
        let wide: i16 = self as i16;
        wide * 256
    }
}

impl PcmSample for i16 {
    open spec fn pcm16(self) -> i16 {
        self
    }

    fn to_pcm16(self) -> (s: i16) {
        self
    }
}

impl PcmSample for i32 {
    open spec fn pcm16(self) -> i16 {
        pcm16_of_i32(self) as i16
    }

    fn to_pcm16(self) -> (s: i16) {
        let shifted: i32 = self >> 16;
        assert(shifted as int == self as int / 65536 && -32768 <= shifted <= 32767) by (bit_vector)
            requires
                shifted == self >> 16,
        ;
        shifted as i16
    }
}

impl PcmSample for i64 {
    open spec fn pcm16(self) -> i16 {
        pcm16_of_i64(self) as i16
    }

    fn to_pcm16(self) -> (s: i16) {
        let shifted: i64 = self >> 48;
        assert(shifted as int == self as int / 0x1_0000_0000_0000 && -32768 <= shifted <= 32767)
            by (bit_vector)
            requires
                shifted == self >> 48,
        ;
        shifted as i16
    }
}

impl PcmSample for u8 {
    open spec fn pcm16(self) -> i16 {
        pcm16_of_u8(self) as i16
    }

    fn to_pcm16(self) -> (s: i16) {
        let centred: i16 = self as i16 - 128;
        centred * 256
    }
}

impl PcmSample for u16 {
    open spec fn pcm16(self) -> i16 {
        pcm16_of_u16(self) as i16
    }

    fn to_pcm16(self) -> (s: i16) {
        let centred: i32 = self as i32 - 32768;
        centred as i16
    }
}

impl PcmSample for u32 {
    open spec fn pcm16(self) -> i16 {
        pcm16_of_u32(self) as i16
    }

    fn to_pcm16(self) -> (s: i16) {
        let upper: u32 = self >> 16;
        assert(upper as int == self as int / 65536 && upper <= 65535) by (bit_vector)
            requires
                upper == self >> 16,
        ;
        let centred: i32 = upper as i32 - 32768;
        centred as i16
    }
}

impl PcmSample for u64 {
    open spec fn pcm16(self) -> i16 {
        pcm16_of_u64(self) as i16
    }

    fn to_pcm16(self) -> (s: i16) {
        let upper: u64 = self >> 48;
        assert(upper as int == self as int / 0x1_0000_0000_0000 && upper <= 65535) by (bit_vector)
            requires
                upper == self >> 48,
        ;
        let centred: i32 = upper as i32 - 32768;
        centred as i16
    }
}

/// Every supported encoding lands within the 16-bit signed range, so the
/// conversion loses nothing to wrapping.
pub proof fn lemma_conversions_stay_in_range(a: i8, b: i32, c: i64, d: u8, e: u16, f: u32, g: u64)
    ensures
        -32768 <= pcm16_of_i8(a) <= 32767,
        -32768 <= pcm16_of_i32(b) <= 32767,
        -32768 <= pcm16_of_i64(c) <= 32767,
        -32768 <= pcm16_of_u8(d) <= 32767,
        -32768 <= pcm16_of_u16(e) <= 32767,
        -32768 <= pcm16_of_u32(f) <= 32767,
        -32768 <= pcm16_of_u64(g) <= 32767,
        a.pcm16() == pcm16_of_i8(a),
        b.pcm16() == pcm16_of_i32(b),
        c.pcm16() == pcm16_of_i64(c),
        d.pcm16() == pcm16_of_u8(d),
        e.pcm16() == pcm16_of_u16(e),
        f.pcm16() == pcm16_of_u32(f),
        g.pcm16() == pcm16_of_u64(g),
{
}

/// The sum of the samples of a frame.
pub open spec fn frame_sum(frame: Seq<i16>) -> int
    decreases frame.len(),
{
    if frame.len() == 0 {
        0
    } else {
        frame_sum(frame.drop_last()) + frame.last() as int
    }
}

/// Division that truncates toward zero.
pub open spec fn div_toward_zero(a: int, b: int) -> int {
    if a >= 0 {
        a / b
    } else {
        -((-a) / b)
    }
}

/// The mono sample of a frame: the integer average over the channel count,
/// truncated toward zero.
pub open spec fn downmix(frame: Seq<i16>, channels: int) -> int {
    div_toward_zero(frame_sum(frame), channels)
}

/// The sum of a frame is bounded by its length times the sample range.
pub proof fn lemma_frame_sum_bounds(frame: Seq<i16>)
    ensures
        -32768 * frame.len() <= frame_sum(frame) <= 32767 * frame.len(),
    decreases frame.len(),
{
    if frame.len() > 0 {
        lemma_frame_sum_bounds(frame.drop_last());
    }
}

/// The downmix of a frame of at most `channels` samples is a 16-bit value:
/// no input, not even all channels at the minimum or the maximum, leaves
/// the range.
pub proof fn lemma_downmix_in_range(frame: Seq<i16>, channels: int)
    requires
        0 < channels,
        frame.len() <= channels,
    ensures
        -32768 <= downmix(frame, channels) <= 32767,
{
    lemma_frame_sum_bounds(frame);
    let sum = frame_sum(frame);
    assert(-32768 * channels <= sum <= 32767 * channels) by (nonlinear_arith)
        requires
            -32768 * frame.len() <= sum <= 32767 * frame.len(),
            0 <= frame.len() <= channels,
    ;
    if sum >= 0 {
        assert(sum / channels <= 32767) by (nonlinear_arith)
            requires
                0 <= sum <= 32767 * channels,
                0 < channels,
        ;
        assert(0 <= sum / channels) by (nonlinear_arith)
            requires
                0 <= sum,
                0 < channels,
        ;
    } else {
        assert((-sum) / channels <= 32768) by (nonlinear_arith)
            requires
                0 <= -sum <= 32768 * channels,
                0 < channels,
        ;
        assert(0 <= (-sum) / channels) by (nonlinear_arith)
            requires
                0 <= -sum,
                0 < channels,
        ;
    }
}

/// A frame whose channels all hold the same sample downmixes to that sample.
pub proof fn lemma_downmix_of_constant_frame(sample: i16, channels: nat)
    requires
        0 < channels,
    ensures
        downmix(Seq::new(channels, |i: int| sample), channels as int) == sample,
{
    lemma_constant_frame_sum(sample, channels);
    let sum = channels * sample;
    if sum >= 0 {
        assert(sum / (channels as int) == sample) by (nonlinear_arith)
            requires
                sum == channels * sample,
                channels > 0,
        ;
    } else {
        assert(-sum == channels * (-sample)) by (nonlinear_arith)
            requires
                sum == channels * sample,
        ;
        assert((-sum) / (channels as int) == -sample) by (nonlinear_arith)
            requires
                -sum == channels * (-sample),
                channels > 0,
        ;
    }
}

proof fn lemma_constant_frame_sum(sample: i16, channels: nat)
    ensures
        frame_sum(Seq::new(channels, |i: int| sample)) == channels * sample,
    decreases channels,
{
    let frame = Seq::new(channels, |i: int| sample);
    if channels > 0 {
        assert(frame.drop_last() =~= Seq::new((channels - 1) as nat, |i: int| sample));
        assert(frame.last() == sample);
        lemma_constant_frame_sum(sample, (channels - 1) as nat);
        assert(channels * sample == (channels - 1) * sample + sample) by (nonlinear_arith);
    } else {
        assert(frame.len() == 0);
        assert(channels * sample == 0) by (nonlinear_arith)
            requires
                channels == 0,
        ;
    }
}

/// Converts the samples of one frame and averages them over `channels`.
/// A frame is at most `channels` samples long; a shorter one, the tail of a
/// buffer that does not end on a frame boundary, is still divided by
/// `channels`.
pub fn downmix_frame<T: PcmSample>(data: &[T], start: usize, end: usize, channels: u16) -> (mono:
    i16)
    requires
        start <= end <= data@.len(),
        end - start <= channels,
        channels > 0,
    ensures
        mono == downmix(converted(data@.subrange(start as int, end as int)), channels as int),
{
    let mut sum: i32 = 0;
    let mut i: usize = start;
    while i < end
        invariant
            start <= i <= end <= data@.len(),
            end - start <= channels,
            sum == frame_sum(converted(data@.subrange(start as int, i as int))),
            -32768 * (i - start) <= sum <= 32767 * (i - start),
        decreases end - i,
    {
        let s: i16 = data[i].to_pcm16();
        proof {
            let before = converted(data@.subrange(start as int, i as int));
            let after = converted(data@.subrange(start as int, i + 1));
            assert(after.drop_last() =~= before);
            assert(after.last() == s);
        }
        sum = sum + s as i32;
        i += 1;
    }
    proof {
        lemma_downmix_in_range(
            converted(data@.subrange(start as int, end as int)),
            channels as int,
        );
    }
    let divisor: i32 = channels as i32;
    if sum >= 0 {
        (sum / divisor) as i16
    } else {
        let magnitude: i32 = -sum;
        let quotient: i32 = magnitude / divisor;
        (-quotient) as i16
    }
}

/// The 16-bit values of a run of device samples.
pub open spec fn converted<T: PcmSample>(samples: Seq<T>) -> Seq<i16> {
    samples.map_values(|s: T| s.pcm16())
}

/// The two bytes of a sample, low byte first.
pub open spec fn le_bytes(sample: i16) -> Seq<u8> {
    let unsigned: int = if sample >= 0 {
        sample as int
    } else {
        sample as int + 65536
    };
    seq![(unsigned % 256) as u8, (unsigned / 256) as u8]
}

/// The two bytes of a sample, low byte first.
pub fn sample_to_le_bytes(sample: i16) -> (bytes: (u8, u8))
    ensures
        seq![bytes.0, bytes.1] == le_bytes(sample),
{
    let unsigned: u16 = if sample >= 0 {
        sample as u16
    } else {
        (sample as i32 + 65536) as u16
    };
    let low: u8 = (unsigned % 256) as u8;
    let high: u8 = (unsigned / 256) as u8;
    assert(seq![low, high] =~= le_bytes(sample));
    (low, high)
}

/// The sample that two little-endian bytes encode.
pub open spec fn sample_of_le_bytes(low: u8, high: u8) -> int {
    let unsigned = high as int * 256 + low as int;
    if unsigned >= 32768 {
        unsigned - 65536
    } else {
        unsigned
    }
}

/// The sample that two little-endian bytes encode.
pub fn sample_from_le_bytes(low: u8, high: u8) -> (sample: i16)
    ensures
        sample == sample_of_le_bytes(low, high),
{
    let unsigned: i32 = high as i32 * 256 + low as i32;
    if unsigned >= 32768 {
        (unsigned - 65536) as i16
    } else {
        unsigned as i16
    }
}

/// Writing a sample as bytes and reading it back gives the sample.
pub proof fn lemma_le_bytes_round_trip(sample: i16)
    ensures
        sample_of_le_bytes(le_bytes(sample)[0], le_bytes(sample)[1]) == sample,
{
}

} // verus!

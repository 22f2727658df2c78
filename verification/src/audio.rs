//! The recorder's rules: how much a recording may hold, and when a
//! finished recording is worth sending.

use vstd::prelude::*;

verus! {

/// Milliseconds under which a recording counts as too short to send.
pub const MIN_RECORDING_MS: u64 = 120;

/// Seconds of audio that the recorder makes room for at the start.
pub const INITIAL_SECONDS: u64 = 10;

/// Seconds of audio after which the recorder takes no more.
pub const MAX_SECONDS: u64 = 120;

/// Why a finished recording is not sent.
#[derive(Clone, Copy, PartialEq, Eq, Debug, Structural)]
pub enum RecordingError {
    /// The hotkey was released too soon.
    TooShort,
    /// The device delivered nothing.
    NoData,
}

impl RecordingError {
    pub open spec fn text(self) -> Seq<char> {
        match self {
            RecordingError::TooShort => "Запись слишком короткая. Зажмите горячую клавишу и повторите."@,
            RecordingError::NoData => "Нет данных для отправки. Попробуйте снова."@,
        }
    }

    pub fn message(self) -> (m: &'static str)
        ensures
            m@ == self.text(),
    {
        match self {
            RecordingError::TooShort => "Запись слишком короткая. Зажмите горячую клавишу и повторите.",
            RecordingError::NoData => "Нет данных для отправки. Попробуйте снова.",
        }
    }
}

/// The value itself, or the largest number where it does not fit.
pub open spec fn capped(count: int) -> usize {
    if count > usize::MAX {
        usize::MAX
    } else {
        count as usize
    }
}

/// The number of samples, over all channels, in so many seconds of audio.
pub open spec fn samples_in(sample_rate: u32, channels: u16, seconds: u64) -> int {
    sample_rate as int * channels as int * seconds as int
}

/// The recorder of the record-and-upload path.
#[derive(Clone, Copy, Debug)]
pub struct Recorder;

impl Recorder {
    pub fn new() -> (recorder: Result<Self, RecordingError>)
        ensures
            recorder is Ok,
    {
        Ok(Recorder)
    }

    fn sample_budget(sample_rate: u32, channels: u16, seconds: u8) -> (samples: usize)
        ensures
            samples == capped(samples_in(sample_rate, channels, seconds as u64)),
    {
        let rate: u64 = sample_rate as u64;
        let width: u64 = channels as u64;
        assert(rate * width <= 0xffff_ffff * 0xffff) by (nonlinear_arith)
            requires
                0 <= rate <= 0xffff_ffff,
                0 <= width <= 0xffff,
        ;
        let per_second: u64 = rate * width;
        assert(per_second * seconds as int <= 0xffff_ffff * 0xffff * 255) by (nonlinear_arith)
            requires
                0 <= per_second <= 0xffff_ffff * 0xffff,
                seconds <= 255,
        ;
        let total: u64 = per_second * seconds as u64;
        assert(total == samples_in(sample_rate, channels, seconds as u64)) by (nonlinear_arith)
            requires
                total == per_second * seconds as int,
                per_second == sample_rate as int * channels as int,
        ;
        if total > usize::MAX as u64 {
            usize::MAX
        } else {
            total as usize
        }
    }

    /// The room that a recording starts with: ten seconds of samples.
    pub fn initial_capacity(&self, sample_rate: u32, channels: u16) -> (samples: usize)
        ensures
            samples == capped(samples_in(sample_rate, channels, INITIAL_SECONDS)),
    {
        Self::sample_budget(sample_rate, channels, 10)
    }

    /// The most that a recording holds: two minutes of samples.
    pub fn max_samples(&self, sample_rate: u32, channels: u16) -> (samples: usize)
        ensures
            samples == capped(samples_in(sample_rate, channels, MAX_SECONDS)),
    {
        Self::sample_budget(sample_rate, channels, 120)
    }

    /// Whether a recording that holds `recorded` samples takes more.
    pub fn accepts_more(&self, recorded: usize, max_samples: usize) -> (more: bool)
        ensures
            more == (recorded < max_samples),
    {
        recorded < max_samples
    }

    /// Whether the recording lasted long enough to be sent. This is asked
    /// before the recording is stopped.
    pub fn check_duration(&self, elapsed_ms: u128) -> (result: Result<(), RecordingError>)
        ensures
            result == if elapsed_ms < MIN_RECORDING_MS {
                Err::<(), RecordingError>(RecordingError::TooShort)
            } else {
                Ok::<(), RecordingError>(())
            },
    {
        if elapsed_ms < MIN_RECORDING_MS as u128 {
            Err(RecordingError::TooShort)
        } else {
            Ok(())
        }
    }

    /// Whether the stopped recording holds anything to send.
    pub fn check_samples(&self, recorded: usize) -> (result: Result<(), RecordingError>)
        ensures
            result == if recorded == 0 {
                Err::<(), RecordingError>(RecordingError::NoData)
            } else {
                Ok::<(), RecordingError>(())
            },
    {
        if recorded == 0 {
            Err(RecordingError::NoData)
        } else {
            Ok(())
        }
    }
}

} // verus!

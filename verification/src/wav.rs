//! Reading recordings: the samples of a WAV file as PCM16LE bytes.

use vstd::prelude::*;

use crate::audio_stream::pcm_bytes;
use crate::pcm::{converted, sample_to_le_bytes, PcmSample};

verus! {

/// What the header of a WAV file says: sample rate, channels, bits per
/// sample, and whether the samples are floating-point numbers. Nothing
/// where the bytes are no WAV file.
pub uninterp spec fn wav_header_of(data: Seq<u8>) -> Option<(u32, u16, u16, bool)>;

/// The samples of a WAV file read as 16-bit integers; nothing where the
/// file cannot be read so.
pub uninterp spec fn wav_i16_samples(data: Seq<u8>) -> Option<Seq<i16>>;

/// The samples of a WAV file read as 32-bit integers; nothing where the
/// file cannot be read so.
pub uninterp spec fn wav_i32_samples(data: Seq<u8>) -> Option<Seq<i32>>;

/// `hound::WavReader::new` and `WavReader::spec`: the header as the reader
/// understands it, a function of the bytes alone.
#[verifier::external_body]
fn read_wav_header(data: &Vec<u8>) -> (header: Option<(u32, u16, u16, bool)>)
    ensures
        header == wav_header_of(data@),
{
    let reader = hound::WavReader::new(std::io::Cursor::new(data.as_slice())).ok()?;
    let spec = reader.spec();
    let float = match spec.sample_format {
        hound::SampleFormat::Float => true,
        hound::SampleFormat::Int => false,
    };
    Some((spec.sample_rate, spec.channels, spec.bits_per_sample, float))
}

/// `hound::WavReader::into_samples::<i16>`: all samples, or nothing where
/// one of them cannot be read.
#[verifier::external_body]
fn read_wav_samples_i16(data: &Vec<u8>) -> (samples: Option<Vec<i16>>)
    ensures
        match samples {
            Some(s) => wav_i16_samples(data@) == Some(s@),
            None => wav_i16_samples(data@) is None,
        },
{
    let reader = hound::WavReader::new(std::io::Cursor::new(data.as_slice())).ok()?;
    reader.into_samples::<i16>().collect::<Result<Vec<i16>, hound::Error>>().ok()
}

/// `hound::WavReader::into_samples::<i32>`: all samples, or nothing where
/// one of them cannot be read.
#[verifier::external_body]
fn read_wav_samples_i32(data: &Vec<u8>) -> (samples: Option<Vec<i32>>)
    ensures
        match samples {
            Some(s) => wav_i32_samples(data@) == Some(s@),
            None => wav_i32_samples(data@) is None,
        },
{
    let reader = hound::WavReader::new(std::io::Cursor::new(data.as_slice())).ok()?;
    reader.into_samples::<i32>().collect::<Result<Vec<i32>, hound::Error>>().ok()
}

/// Why no PCM came out of a recording.
#[derive(Clone, Copy, PartialEq, Eq, Debug, Structural)]
pub enum WavError {
    /// The bytes are no WAV file.
    Unreadable,
    /// A sample could not be read.
    BadSample,
    /// The samples are floating-point numbers, which are converted
    /// elsewhere.
    FloatSamples,
    /// Integer samples of a width other than 16 or 32 bits.
    UnsupportedWidth,
}

impl WavError {
    pub open spec fn text(self) -> Seq<char> {
        match self {
            WavError::Unreadable => "Failed to read WAV file"@,
            WavError::BadSample => "Failed to read sample"@,
            WavError::FloatSamples => "Floating-point WAV samples need conversion"@,
            WavError::UnsupportedWidth => "Unsupported WAV format"@,
        }
    }

    pub fn message(self) -> (m: &'static str)
        ensures
            m@ == self.text(),
    {
        match self {
            WavError::Unreadable => "Failed to read WAV file",
            WavError::BadSample => "Failed to read sample",
            WavError::FloatSamples => "Floating-point WAV samples need conversion",
            WavError::UnsupportedWidth => "Unsupported WAV format",
        }
    }
}

/// The samples, converted to 16 bits, as PCM16LE bytes.
pub fn pcm_from_samples<T: PcmSample>(samples: &Vec<T>) -> (pcm: Vec<u8>)
    ensures
        pcm@ == pcm_bytes(converted(samples@)),
{
    let mut pcm: Vec<u8> = Vec::new();
    let mut i: usize = 0;
    assert(converted(samples@).take(0) =~= Seq::<i16>::empty());
    while i < samples.len()
        invariant
            i <= samples@.len(),
            pcm@ == pcm_bytes(converted(samples@).take(i as int)),
        decreases samples@.len() - i,
    {
        let bytes = sample_to_le_bytes(samples[i].to_pcm16());
        proof {
            let now = converted(samples@).take(i + 1);
            assert(now.drop_last() =~= converted(samples@).take(i as int));
            assert(now.last() == samples@[i as int].pcm16());
        }
        let ghost before = pcm@;
        pcm.push(bytes.0);
        pcm.push(bytes.1);
        assert(pcm@ =~= before + seq![bytes.0, bytes.1]);
        i += 1;
    }
    assert(converted(samples@).take(samples@.len() as int) =~= converted(samples@));
    pcm
}

/// What `extract_pcm_from_wav` makes of a file: 16-bit samples go through
/// as they are, 32-bit samples keep their upper half, and the sample rate
/// is the header's.
pub open spec fn extracted_pcm(data: Seq<u8>) -> Result<(Seq<u8>, u32), WavError> {
    match wav_header_of(data) {
        None => Err(WavError::Unreadable),
        Some((sample_rate, channels, bits, float)) => if float {
            Err(WavError::FloatSamples)
        } else if bits == 16 {
            match wav_i16_samples(data) {
                Some(samples) => Ok((pcm_bytes(converted(samples)), sample_rate)),
                None => Err(WavError::BadSample),
            }
        } else if bits == 32 {
            match wav_i32_samples(data) {
                Some(samples) => Ok((pcm_bytes(converted(samples)), sample_rate)),
                None => Err(WavError::BadSample),
            }
        } else {
            Err(WavError::UnsupportedWidth)
        },
    }
}

/// The result of an extraction as plain values.
pub open spec fn extraction_view(result: Result<(Vec<u8>, u32), WavError>) -> Result<
    (Seq<u8>, u32),
    WavError,
> {
    match result {
        Ok((pcm, rate)) => Ok((pcm@, rate)),
        Err(e) => Err(e),
    }
}

/// Reads the samples of a WAV file as PCM16LE bytes, with its sample rate.
pub fn extract_pcm_from_wav(wav_data: &Vec<u8>) -> (result: Result<(Vec<u8>, u32), WavError>)
    ensures
        extraction_view(result) == extracted_pcm(wav_data@),
{
    let (sample_rate, _channels, bits, float) = match read_wav_header(wav_data) {
        Some(header) => header,
        None => {
            return Err(WavError::Unreadable);
        },
    };
    if float {
        return Err(WavError::FloatSamples);
    }
    if bits == 16 {
        match read_wav_samples_i16(wav_data) {
            Some(samples) => Ok((pcm_from_samples(&samples), sample_rate)),
            None => Err(WavError::BadSample),
        }
    } else if bits == 32 {
        match read_wav_samples_i32(wav_data) {
            Some(samples) => Ok((pcm_from_samples(&samples), sample_rate)),
            None => Err(WavError::BadSample),
        }
    } else {
        Err(WavError::UnsupportedWidth)
    }
}

/// Whether bytes begin like a WAV file: `RIFF`, four bytes, `WAVE`.
pub open spec fn has_wav_magic(data: Seq<u8>) -> bool {
    &&& data.len() >= 12
    &&& data[0] == 0x52 && data[1] == 0x49 && data[2] == 0x46 && data[3] == 0x46
    &&& data[8] == 0x57 && data[9] == 0x41 && data[10] == 0x56 && data[11] == 0x45
}

/// Why injected audio was turned down.
#[derive(Clone, Copy, PartialEq, Eq, Debug, Structural)]
pub enum InjectError {
    Empty,
    NotWav,
}

impl InjectError {
    pub open spec fn text(self) -> Seq<char> {
        match self {
            InjectError::Empty => "Audio data is empty"@,
            InjectError::NotWav => "Invalid WAV format: missing RIFF/WAVE header"@,
        }
    }

    pub fn message(self) -> (m: &'static str)
        ensures
            m@ == self.text(),
    {
        match self {
            InjectError::Empty => "Audio data is empty",
            InjectError::NotWav => "Invalid WAV format: missing RIFF/WAVE header",
        }
    }
}

/// Checks audio that is injected in place of a recording.
pub fn check_injected_audio(audio_data: &Vec<u8>) -> (result: Result<(), InjectError>)
    ensures
        result == if audio_data@.len() == 0 {
            Err::<(), InjectError>(InjectError::Empty)
        } else if !has_wav_magic(audio_data@) {
            Err::<(), InjectError>(InjectError::NotWav)
        } else {
            Ok::<(), InjectError>(())
        },
{
    if audio_data.len() == 0 {
        return Err(InjectError::Empty);
    }
    if audio_data.len() < 12 || audio_data[0] != 0x52 || audio_data[1] != 0x49 || audio_data[2]
        != 0x46 || audio_data[3] != 0x46 || audio_data[8] != 0x57 || audio_data[9] != 0x41
        || audio_data[10] != 0x56 || audio_data[11] != 0x45 {
        return Err(InjectError::NotWav);
    }
    Ok(())
}

} // verus!

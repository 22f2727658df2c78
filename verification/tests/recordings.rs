use easy_dictate::audio::{Recorder, RecordingError, MIN_RECORDING_MS};
use easy_dictate::elevenlabs::{
    ElevenLabsClient, ElevenLabsTranscriptionRequest, OneShotError, OneShotInbound, OneShotStep,
};
use easy_dictate::stream_reader::TranscriptMessage;
use easy_dictate::wav::{
    check_injected_audio, extract_pcm_from_wav, pcm_from_samples, InjectError, WavError,
};

fn wav_i16(samples: &[i16], sample_rate: u32, channels: u16) -> Vec<u8> {
    let mut cursor = std::io::Cursor::new(Vec::new());
    {
        let spec = hound::WavSpec {
            channels,
            sample_rate,
            bits_per_sample: 16,
            sample_format: hound::SampleFormat::Int,
        };
        let mut writer = hound::WavWriter::new(&mut cursor, spec).unwrap();
        for s in samples {
            writer.write_sample(*s).unwrap();
        }
        writer.finalize().unwrap();
    }
    cursor.into_inner()
}

fn wav_i32(samples: &[i32], sample_rate: u32) -> Vec<u8> {
    let mut cursor = std::io::Cursor::new(Vec::new());
    {
        let spec = hound::WavSpec {
            channels: 1,
            sample_rate,
            bits_per_sample: 32,
            sample_format: hound::SampleFormat::Int,
        };
        let mut writer = hound::WavWriter::new(&mut cursor, spec).unwrap();
        for s in samples {
            writer.write_sample(*s).unwrap();
        }
        writer.finalize().unwrap();
    }
    cursor.into_inner()
}

fn wav_f32(samples: &[f32], sample_rate: u32) -> Vec<u8> {
    let mut cursor = std::io::Cursor::new(Vec::new());
    {
        let spec = hound::WavSpec {
            channels: 1,
            sample_rate,
            bits_per_sample: 32,
            sample_format: hound::SampleFormat::Float,
        };
        let mut writer = hound::WavWriter::new(&mut cursor, spec).unwrap();
        for s in samples {
            writer.write_sample(*s).unwrap();
        }
        writer.finalize().unwrap();
    }
    cursor.into_inner()
}

fn wav_i8(samples: &[i8]) -> Vec<u8> {
    let mut cursor = std::io::Cursor::new(Vec::new());
    {
        let spec = hound::WavSpec {
            channels: 1,
            sample_rate: 8000,
            bits_per_sample: 8,
            sample_format: hound::SampleFormat::Int,
        };
        let mut writer = hound::WavWriter::new(&mut cursor, spec).unwrap();
        for s in samples {
            writer.write_sample(*s).unwrap();
        }
        writer.finalize().unwrap();
    }
    cursor.into_inner()
}

#[test]
fn sixteen_bit_samples_pass_through() {
    let wav = wav_i16(&[1, -2, 0x1234, i16::MIN], 22050, 1);
    let (pcm, rate) = extract_pcm_from_wav(&wav).unwrap();
    assert_eq!(rate, 22050);
    assert_eq!(pcm, vec![1, 0, 0xfe, 0xff, 0x34, 0x12, 0x00, 0x80]);
}

#[test]
fn thirty_two_bit_samples_keep_their_upper_half() {
    let wav = wav_i32(&[0x0001_0000, -1, i32::MAX, 0x7fff], 48000);
    let (pcm, rate) = extract_pcm_from_wav(&wav).unwrap();
    assert_eq!(rate, 48000);
    assert_eq!(pcm, vec![1, 0, 0xff, 0xff, 0xff, 0x7f, 0, 0]);
}

#[test]
fn other_recordings_are_turned_down() {
    assert_eq!(
        extract_pcm_from_wav(&b"not a wav file".to_vec()),
        Err(WavError::Unreadable)
    );
    assert_eq!(extract_pcm_from_wav(&Vec::new()), Err(WavError::Unreadable));
    assert_eq!(
        extract_pcm_from_wav(&wav_f32(&[0.5, -0.5], 16000)),
        Err(WavError::FloatSamples)
    );
    assert_eq!(
        extract_pcm_from_wav(&wav_i8(&[1, 2, 3])),
        Err(WavError::UnsupportedWidth)
    );
    let mut cut = wav_i16(&[1, 2, 3, 4], 16000, 1);
    cut.truncate(cut.len() - 3);
    assert_eq!(extract_pcm_from_wav(&cut), Err(WavError::BadSample));
    assert_eq!(WavError::Unreadable.message(), "Failed to read WAV file");
}

#[test]
fn samples_become_little_endian_bytes() {
    assert_eq!(pcm_from_samples(&vec![1i16, -1]), vec![1, 0, 0xff, 0xff]);
    assert_eq!(pcm_from_samples(&vec![0u8, 255]), vec![0, 0x80, 0, 0x7f]);
    assert_eq!(pcm_from_samples::<i32>(&vec![]), Vec::<u8>::new());
}

#[test]
fn injected_audio_has_to_look_like_wav() {
    assert_eq!(check_injected_audio(&Vec::new()), Err(InjectError::Empty));
    assert_eq!(
        check_injected_audio(&b"RIFF1234WAV".to_vec()),
        Err(InjectError::NotWav)
    );
    assert_eq!(
        check_injected_audio(&b"RIFX1234WAVE".to_vec()),
        Err(InjectError::NotWav)
    );
    assert_eq!(check_injected_audio(&b"RIFF1234WAVEfmt ".to_vec()), Ok(()));
    assert_eq!(check_injected_audio(&wav_i16(&[1], 8000, 1)), Ok(()));
    assert_eq!(InjectError::Empty.message(), "Audio data is empty");
    assert_eq!(
        InjectError::NotWav.message(),
        "Invalid WAV format: missing RIFF/WAVE header"
    );
}

#[test]
fn one_recording_becomes_one_committed_chunk() {
    let client = ElevenLabsClient::new().ok().unwrap();
    let job = ElevenLabsTranscriptionRequest {
        api_key: "el-key".to_string(),
        audio_wav: wav_i16(&[0, 0, 1], 44100, 1),
        language: String::new(),
    };
    let request = client.prepare(&job).ok().unwrap();
    assert_eq!(
        request.url,
        "wss://api.elevenlabs.io/v1/speech-to-text/realtime?model_id=scribe_v2_realtime&language_code=ru&audio_format=pcm_44100&commit_strategy=vad"
    );
    assert_eq!(request.api_key, "el-key");
    assert_eq!(request.message.message_type, "input_audio_chunk");
    assert_eq!(request.message.audio_base_64, "AAAAAAEA");
    assert_eq!(request.message.sample_rate, 44100);
    assert!(request.message.commit);
}

#[test]
fn one_shot_needs_a_key_and_a_readable_recording() {
    let client = ElevenLabsClient::new().ok().unwrap();
    let mut job = ElevenLabsTranscriptionRequest {
        api_key: "  ".to_string(),
        audio_wav: wav_i16(&[0], 16000, 1),
        language: String::new(),
    };
    assert!(matches!(client.prepare(&job), Err(OneShotError::MissingKey)));
    job.api_key = "k".to_string();
    job.audio_wav = vec![1, 2, 3];
    assert!(matches!(
        client.prepare(&job),
        Err(OneShotError::Wav(WavError::Unreadable))
    ));
    job.audio_wav = wav_i16(&[5], 11025, 1);
    let request = client.prepare(&job).ok().unwrap();
    assert!(request.url.contains("audio_format=pcm_16000"));
    assert_eq!(request.message.sample_rate, 11025);
}

fn inbound(kind: &str, text: &str) -> OneShotInbound {
    OneShotInbound::Message(TranscriptMessage {
        message_type: kind.to_string(),
        text: text.to_string(),
        session_id: None,
    })
}

#[test]
fn first_committed_transcript_ends_the_one_shot() {
    let client = ElevenLabsClient::new().ok().unwrap();
    assert!(matches!(
        client.on_inbound(inbound("session_started", "")),
        OneShotStep::Continue
    ));
    assert!(matches!(
        client.on_inbound(inbound("partial_transcript", "he")),
        OneShotStep::Continue
    ));
    assert!(matches!(
        client.on_inbound(inbound("input_error", "x")),
        OneShotStep::Continue
    ));
    match client.on_inbound(inbound("committed_transcript", "  hello world \n")) {
        OneShotStep::Done(text) => assert_eq!(text, "hello world"),
        _ => panic!("expected the transcript"),
    }
    match client.on_inbound(OneShotInbound::Closed) {
        OneShotStep::Done(text) => assert_eq!(text, ""),
        _ => panic!("expected an empty transcript"),
    }
    assert!(matches!(
        client.on_inbound(OneShotInbound::Ignored),
        OneShotStep::Continue
    ));
}

#[test]
fn one_shot_failures() {
    let client = ElevenLabsClient::new().ok().unwrap();
    match client.on_inbound(inbound("quota_exceeded_error", "limit")) {
        OneShotStep::Fail(OneShotError::Api(text)) => assert_eq!(
            text,
            "TranscriptMessage { message_type: \"quota_exceeded_error\", text: \"limit\", session_id: None }"
        ),
        _ => panic!("expected an API error"),
    }
    assert!(matches!(
        client.on_inbound(OneShotInbound::Unparsed),
        OneShotStep::Fail(OneShotError::Unparsed)
    ));
    match client.on_inbound(OneShotInbound::Failed("io".to_string())) {
        OneShotStep::Fail(OneShotError::Transport(text)) => assert_eq!(text, "io"),
        _ => panic!("expected a transport error"),
    }
}

#[test]
fn recorder_limits() {
    let recorder = Recorder::new().unwrap();
    assert_eq!(MIN_RECORDING_MS, 120);
    assert_eq!(recorder.initial_capacity(48000, 2), 960_000);
    assert_eq!(recorder.max_samples(48000, 2), 11_520_000);
    assert_eq!(recorder.max_samples(0, 2), 0);
    assert_eq!(recorder.max_samples(44100, 0), 0);
    assert_eq!(
        recorder.max_samples(u32::MAX, u16::MAX),
        4294967295usize * 65535 * 120
    );
    assert!(recorder.accepts_more(0, 1));
    assert!(!recorder.accepts_more(1, 1));
    assert!(!recorder.accepts_more(2, 1));
    assert_eq!(recorder.check_duration(0), Err(RecordingError::TooShort));
    assert_eq!(recorder.check_duration(119), Err(RecordingError::TooShort));
    assert_eq!(recorder.check_duration(120), Ok(()));
    assert_eq!(recorder.check_duration(u128::MAX), Ok(()));
    assert_eq!(recorder.check_samples(0), Err(RecordingError::NoData));
    assert_eq!(recorder.check_samples(1), Ok(()));
    assert_eq!(
        RecordingError::TooShort.message(),
        "Запись слишком короткая. Зажмите горячую клавишу и повторите."
    );
    assert_eq!(
        RecordingError::NoData.message(),
        "Нет данных для отправки. Попробуйте снова."
    );
}

use easy_dictate::audio_stream::{
    samples_per_chunk, CallbackReport, CaptureError, ChunkAccumulator, ChunkOffer, ChunkProducer,
    ContinuousAudioCapture, DeviceConfig, SampleFormat, CHUNK_MS, MAX_AUDIO_BUFFER_SIZE,
};
use easy_dictate::pcm::{
    downmix_frame, sample_from_le_bytes, sample_to_le_bytes, PcmSample,
};

#[test]
fn signed_samples_convert_to_16_bits() {
    assert_eq!(0i8.to_pcm16(), 0);
    assert_eq!(1i8.to_pcm16(), 256);
    assert_eq!(i8::MAX.to_pcm16(), 32512);
    assert_eq!(i8::MIN.to_pcm16(), -32768);
    assert_eq!((-1i8).to_pcm16(), -256);
    assert_eq!(12345i16.to_pcm16(), 12345);
    assert_eq!(i16::MIN.to_pcm16(), i16::MIN);
    assert_eq!(i32::MAX.to_pcm16(), 32767);
    assert_eq!(i32::MIN.to_pcm16(), -32768);
    assert_eq!(65536i32.to_pcm16(), 1);
    assert_eq!(65535i32.to_pcm16(), 0);
    assert_eq!((-1i32).to_pcm16(), -1);
    assert_eq!((-65536i32).to_pcm16(), -1);
    assert_eq!((-65537i32).to_pcm16(), -2);
    assert_eq!(i64::MAX.to_pcm16(), 32767);
    assert_eq!(i64::MIN.to_pcm16(), -32768);
    assert_eq!((1i64 << 48).to_pcm16(), 1);
    assert_eq!((-1i64).to_pcm16(), -1);
}

#[test]
fn unsigned_samples_are_centred_before_scaling() {
    assert_eq!(128u8.to_pcm16(), 0);
    assert_eq!(0u8.to_pcm16(), -32768);
    assert_eq!(255u8.to_pcm16(), 32512);
    assert_eq!(129u8.to_pcm16(), 256);
    assert_eq!(32768u16.to_pcm16(), 0);
    assert_eq!(0u16.to_pcm16(), -32768);
    assert_eq!(u16::MAX.to_pcm16(), 32767);
    assert_eq!(0u32.to_pcm16(), -32768);
    assert_eq!(u32::MAX.to_pcm16(), 32767);
    assert_eq!(0x8000_0000u32.to_pcm16(), 0);
    assert_eq!(0x8001_0000u32.to_pcm16(), 1);
    assert_eq!(0x7fff_ffffu32.to_pcm16(), -1);
    assert_eq!(0u64.to_pcm16(), -32768);
    assert_eq!(u64::MAX.to_pcm16(), 32767);
    assert_eq!((1u64 << 63).to_pcm16(), 0);
}

#[test]
fn downmix_averages_and_truncates_toward_zero() {
    assert_eq!(downmix_frame(&[100i16, 200], 0, 2, 2), 150);
    assert_eq!(downmix_frame(&[1i16, 2], 0, 2, 2), 1);
    assert_eq!(downmix_frame(&[-1i16, -2], 0, 2, 2), -1);
    assert_eq!(downmix_frame(&[-1i16, 0], 0, 2, 2), 0);
    assert_eq!(downmix_frame(&[7i16, -8, 2], 0, 3, 3), 0);
    assert_eq!(downmix_frame(&[-7i16, -8, -2], 0, 3, 3), -5);
    assert_eq!(downmix_frame(&[5i16], 0, 1, 1), 5);
}

#[test]
fn downmix_of_extremes_does_not_overflow() {
    assert_eq!(downmix_frame(&[i16::MIN, i16::MAX], 0, 2, 2), 0);
    assert_eq!(downmix_frame(&[i16::MAX, i16::MAX], 0, 2, 2), i16::MAX);
    assert_eq!(downmix_frame(&[i16::MIN, i16::MIN], 0, 2, 2), i16::MIN);
    let loud = vec![i16::MAX; 65535];
    assert_eq!(downmix_frame(&loud, 0, 65535, 65535), i16::MAX);
    let low = vec![i16::MIN; 65535];
    assert_eq!(downmix_frame(&low, 0, 65535, 65535), i16::MIN);
    assert_eq!(downmix_frame(&[u32::MAX, 0u32], 0, 2, 2), 0);
    assert_eq!(downmix_frame(&[i64::MIN, i64::MAX, i64::MAX], 0, 3, 3), 10922);
}

#[test]
fn a_short_last_frame_is_divided_by_the_channel_count() {
    assert_eq!(downmix_frame(&[10i16, 20, 30], 2, 3, 2), 15);
}

#[test]
fn little_endian_bytes() {
    assert_eq!(sample_to_le_bytes(0x1234), (0x34, 0x12));
    assert_eq!(sample_to_le_bytes(-2), (0xfe, 0xff));
    assert_eq!(sample_to_le_bytes(i16::MIN), (0x00, 0x80));
    assert_eq!(sample_from_le_bytes(0x34, 0x12), 0x1234);
    assert_eq!(sample_from_le_bytes(0xfe, 0xff), -2);
    for s in [i16::MIN, -1, 0, 1, 255, 256, i16::MAX] {
        let (low, high) = sample_to_le_bytes(s);
        assert_eq!([low, high], s.to_le_bytes());
        assert_eq!(sample_from_le_bytes(low, high), s);
    }
}

#[test]
fn chunk_is_a_tenth_of_a_second() {
    assert_eq!(CHUNK_MS, 100);
    assert_eq!(samples_per_chunk(16000), 1600);
    assert_eq!(samples_per_chunk(44100), 4410);
    assert_eq!(samples_per_chunk(48000), 4800);
    assert_eq!(samples_per_chunk(22055), 2205);
    assert_eq!(samples_per_chunk(9), 0);
    assert_eq!(samples_per_chunk(u32::MAX), 429496729);
}

#[test]
fn accumulator_needs_a_channel_and_a_sample() {
    assert!(ChunkAccumulator::new(0, 10).is_none());
    assert!(ChunkAccumulator::new(2, 0).is_none());
    let accumulator = ChunkAccumulator::new(2, 10).unwrap();
    assert_eq!(accumulator.channel_count(), 2);
    assert_eq!(accumulator.chunk_len(), 20);
    assert_eq!(accumulator.pending_len(), 0);
}

#[test]
fn accumulator_cuts_fixed_chunks_and_keeps_the_rest() {
    let mut accumulator = ChunkAccumulator::new(1, 2).unwrap();
    let chunks = accumulator.push_samples(&[1i16, 2, 3]);
    assert_eq!(chunks, vec![vec![1u8, 0, 2, 0]]);
    assert_eq!(accumulator.pending_len(), 2);
    let chunks = accumulator.push_samples(&[4i16, 5, 6, 7, 8]);
    assert_eq!(
        chunks,
        vec![vec![3u8, 0, 4, 0], vec![5, 0, 6, 0], vec![7, 0, 8, 0]]
    );
    assert_eq!(accumulator.pending_len(), 0);
    let chunks = accumulator.push_samples::<i16>(&[]);
    assert!(chunks.is_empty());
}

#[test]
fn accumulator_downmixes_stereo_frames() {
    let mut accumulator = ChunkAccumulator::new(2, 2).unwrap();
    let chunks = accumulator.push_samples(&[100i16, 300, -4, -6, 9]);
    // frames: (100, 300) -> 200, (-4, -6) -> -5, tail (9) -> 9 / 2 = 4
    assert_eq!(chunks, vec![vec![200u8, 0, 0xfb, 0xff]]);
    assert_eq!(accumulator.pending_len(), 2);
    // (-32768, 32767) -> -1 / 2 = 0
    let chunks = accumulator.push_samples(&[0u16, 65535]);
    assert_eq!(chunks, vec![vec![4u8, 0, 0, 0]]);
    let chunks = accumulator.push_samples(&[0u16, 65534, 65535, 65535]);
    // (-32768, 32766) -> -2 / 2 = -1, (32767, 32767) -> 32767
    assert_eq!(chunks, vec![vec![0xffu8, 0xff, 0xff, 0x7f]]);
}

fn setup(sample_rate: u32, channels: u16) -> easy_dictate::audio_stream::CaptureSetup {
    let mut capture = ContinuousAudioCapture::new().unwrap();
    capture
        .start(DeviceConfig {
            sample_rate,
            channels,
            sample_format: SampleFormat::I16,
        })
        .unwrap()
}

#[test]
fn slow_consumer_caps_the_queue_and_drops_the_rest() {
    let mut s = setup(1000, 1);
    assert_eq!(MAX_AUDIO_BUFFER_SIZE, 50);
    assert_eq!(s.sender.max_capacity(), 50);
    assert_eq!(s.receiver.max_capacity(), 50);
    // 100 samples per chunk; 70 chunks at once, nobody receiving
    let data = vec![7i16; 7000];
    let report = s.producer.on_audio_data(&data, &s.sender);
    assert_eq!(report.sent, 50);
    assert_eq!(report.dropped, 20);
    assert_eq!(report.discarded, 0);
    assert_eq!(s.producer.pending_len(), 0);
    assert!(!s.producer.has_stopped());
    // still full: everything more is dropped, nothing piles up
    let report = s.producer.on_audio_data(&data[..250], &s.sender);
    assert_eq!((report.sent, report.dropped, report.discarded), (0, 2, 0));
    assert_eq!(s.producer.pending_len(), 100);
    let mut received = 0;
    while let Ok(chunk) = s.receiver.try_recv() {
        assert_eq!(chunk.len(), 200);
        assert!(chunk.chunks(2).all(|b| b == [7u8, 0]));
        received += 1;
    }
    assert_eq!(received, 50);
    // room again
    let report = s.producer.on_audio_data(&data[..50], &s.sender);
    assert_eq!((report.sent, report.dropped, report.discarded), (1, 0, 0));
    assert_eq!(s.producer.pending_len(), 0);
}

#[test]
fn chunks_arrive_in_the_order_they_were_captured() {
    let mut s = setup(100, 1);
    let data: Vec<i16> = (0..50).collect();
    let report = s.producer.on_audio_data(&data, &s.sender);
    assert_eq!(report.sent, 5);
    for k in 0..5 {
        let chunk = s.receiver.try_recv().unwrap();
        let samples: Vec<i16> = chunk
            .chunks(2)
            .map(|b| i16::from_le_bytes([b[0], b[1]]))
            .collect();
        let expected: Vec<i16> = (k * 10..k * 10 + 10).collect();
        assert_eq!(samples, expected);
    }
    assert!(s.receiver.try_recv().is_err());
}

#[test]
fn producer_stops_when_the_receiver_is_gone() {
    let mut s = setup(100, 1);
    drop(s.receiver);
    let data = vec![1i16; 35];
    let report = s.producer.on_audio_data(&data, &s.sender);
    assert_eq!((report.sent, report.dropped, report.discarded), (0, 0, 3));
    assert!(s.producer.has_stopped());
    let pending = s.producer.pending_len();
    assert_eq!(pending, 10);
    let report = s.producer.on_audio_data(&data, &s.sender);
    assert_eq!((report.sent, report.dropped, report.discarded), (0, 0, 0));
    assert_eq!(s.producer.pending_len(), pending);
}

#[test]
fn producer_state_by_itself() {
    let producer = ChunkProducer::new(ChunkAccumulator::new(2, 4).unwrap());
    assert!(!producer.has_stopped());
    assert_eq!(producer.pending_len(), 0);
}

#[test]
fn capture_does_not_start_twice() {
    let mut capture = ContinuousAudioCapture::new().unwrap();
    assert!(!capture.is_running());
    assert_eq!(capture.sample_rate(), 0);
    let device = DeviceConfig {
        sample_rate: 44100,
        channels: 2,
        sample_format: SampleFormat::F32,
    };
    let setup = capture.start(device).unwrap();
    assert!(capture.is_running());
    assert_eq!(capture.sample_rate(), 44100);
    assert_eq!(setup.producer.pending_len(), 0);
    assert!(matches!(
        capture.start(device),
        Err(CaptureError::AlreadyRunning)
    ));
    assert!(capture.stop());
    assert!(!capture.is_running());
    assert!(!capture.stop());
    assert_eq!(capture.sample_rate(), 44100);
    assert!(capture.start(device).is_ok());
}

#[test]
fn unsupported_format_is_an_error_at_start() {
    let mut capture = ContinuousAudioCapture::new().unwrap();
    let result = capture.start(DeviceConfig {
        sample_rate: 48000,
        channels: 1,
        sample_format: SampleFormat::Other,
    });
    assert!(matches!(result, Err(CaptureError::UnsupportedSampleFormat)));
    assert!(!capture.is_running());
    let result = capture.start(DeviceConfig {
        sample_rate: 48000,
        channels: 0,
        sample_format: SampleFormat::I16,
    });
    assert!(matches!(result, Err(CaptureError::UnusableConfig)));
    let result = capture.start(DeviceConfig {
        sample_rate: 5,
        channels: 1,
        sample_format: SampleFormat::I16,
    });
    assert!(matches!(result, Err(CaptureError::UnusableConfig)));
    assert_eq!(
        CaptureError::AlreadyRunning.message(),
        "Audio capture already running"
    );
    for format in [
        SampleFormat::I8,
        SampleFormat::I16,
        SampleFormat::I32,
        SampleFormat::I64,
        SampleFormat::U8,
        SampleFormat::U16,
        SampleFormat::U32,
        SampleFormat::U64,
        SampleFormat::F32,
        SampleFormat::F64,
    ] {
        assert!(format.is_supported());
    }
    assert!(!SampleFormat::Other.is_supported());
}

#[test]
fn report_counts_each_answer_of_the_channel() {
    let mut report = CallbackReport::none();
    assert!(report.record(ChunkOffer::Accepted, 4));
    assert!(report.record(ChunkOffer::Full, 3));
    assert!(report.record(ChunkOffer::Accepted, 2));
    assert_eq!(
        report,
        CallbackReport { sent: 2, dropped: 1, discarded: 0 }
    );
    assert!(!report.record(ChunkOffer::Closed, 1));
    assert_eq!(
        report,
        CallbackReport { sent: 2, dropped: 1, discarded: 2 }
    );
}

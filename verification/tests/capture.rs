use s2tui::audio::buffer::AudioBuffer;
use s2tui::audio::capture::{
    AudioCapture, AudioCaptureError, DeviceQuery, InputConfig, SampleFormat, StartStep,
    StreamOutcome, StreamPlan,
};
use tokio::sync::mpsc::error::TryRecvError;

fn config(sample_rate: u32, channels: u16, format: SampleFormat) -> DeviceQuery {
    DeviceQuery::Ready(InputConfig { sample_rate, channels, format })
}

fn capturing(sample_rate: u32, channels: u16) -> AudioCapture {
    let mut capture = AudioCapture::new();
    let plan = capture.plan_stream(config(sample_rate, channels, SampleFormat::I16)).unwrap();
    capture.stream_opened(plan, StreamOutcome::Playing).unwrap();
    capture
}

#[test]
fn take_samples_empties_the_buffer() {
    let mut buffer = AudioBuffer::new(16000);
    buffer.push(&[1, 2, 3]);
    buffer.push(&[4]);
    assert_eq!(buffer.get_samples(), &[1, 2, 3, 4]);
    assert_eq!(buffer.len(), 4);
    let taken = buffer.take_samples();
    assert_eq!(taken, vec![1, 2, 3, 4]);
    assert_eq!(buffer.len(), 0);
    assert_eq!(buffer.get_samples(), &[] as &[i16]);
    assert_eq!(buffer.sample_rate(), 16000);
    assert_eq!(buffer.take_samples(), Vec::<i16>::new());
}

#[test]
fn buffer_duration_is_count_over_rate() {
    let mut buffer = AudioBuffer::new(16000);
    buffer.push(&vec![0i16; 24000]);
    let duration = buffer.len() as f32 / buffer.sample_rate() as f32;
    assert_eq!(duration, 1.5);
    buffer.clear();
    assert_eq!(buffer.len(), 0);
    assert_eq!(buffer.sample_rate(), 16000);
}

#[test]
fn stop_before_start_returns_nothing() {
    let mut capture = AudioCapture::new();
    assert!(!capture.is_capturing());
    assert_eq!(capture.sample_rate(), 16000);
    assert_eq!(capture.stop().unwrap(), Vec::<i16>::new());
    assert!(!capture.is_capturing());
    assert_eq!(capture.stream().map(|plan| plan.source_rate), None);
}

#[test]
fn start_is_idempotent_while_capturing() {
    let mut capture = AudioCapture::new();
    assert!(matches!(capture.start(), StartStep::QueryDevice));
    let plan = capture.plan_stream(config(48000, 2, SampleFormat::I16)).unwrap();
    assert!(capture.stream_opened(plan, StreamOutcome::Playing).is_ok());
    assert!(capture.is_capturing());
    assert!(matches!(capture.start(), StartStep::AlreadyCapturing));
    assert!(matches!(capture.start(), StartStep::AlreadyCapturing));
    assert_eq!(capture.stream().unwrap().source_rate, 48000);
    capture.stop().unwrap();
    assert!(matches!(capture.start(), StartStep::QueryDevice));
}

#[test]
fn start_errors() {
    let mut capture = AudioCapture::new();
    assert!(matches!(capture.plan_stream(DeviceQuery::NoDevice), Err(AudioCaptureError::NoInputDevice)));
    match capture.plan_stream(DeviceQuery::ConfigUnavailable("busy".to_string())) {
        Err(AudioCaptureError::DeviceError(detail)) => assert_eq!(detail, "busy"),
        other => panic!("unexpected plan: {:?}", other),
    }
    assert!(matches!(
        capture.plan_stream(config(44100, 2, SampleFormat::Other)),
        Err(AudioCaptureError::UnsupportedFormat)
    ));
    for (rate, channels) in [(0, 2), (44100, 0), (0, 0)] {
        for format in [SampleFormat::I16, SampleFormat::F32] {
            match capture.plan_stream(config(rate, channels, format)) {
                Err(AudioCaptureError::DeviceError(detail)) => {
                    assert_eq!(detail, "Input device reports no channels or no sample rate")
                }
                other => panic!("unexpected plan: {:?}", other),
            }
        }
        // Another representation is refused as such, whatever else is wrong.
        assert!(matches!(
            capture.plan_stream(config(rate, channels, SampleFormat::Other)),
            Err(AudioCaptureError::UnsupportedFormat)
        ));
    }
    assert!(capture.plan_stream(config(1, 1, SampleFormat::I16)).unwrap().is_valid());
    let plan = capture.plan_stream(config(44100, 2, SampleFormat::F32)).unwrap();
    assert_eq!(plan.source_rate, 44100);
    assert_eq!(plan.channels, 2);
    assert_eq!(plan.target_rate, 16000);
    assert!(matches!(plan.format, SampleFormat::F32));
    match capture.stream_opened(plan, StreamOutcome::BuildFailed("no stream".to_string())) {
        Err(AudioCaptureError::StreamError(detail)) => assert_eq!(detail, "no stream"),
        other => panic!("unexpected result: {:?}", other),
    }
    assert!(!capture.is_capturing());
    match capture.stream_opened(plan, StreamOutcome::PlayFailed("no play".to_string())) {
        Err(AudioCaptureError::StreamError(detail)) => assert_eq!(detail, "no play"),
        other => panic!("unexpected result: {:?}", other),
    }
    assert!(!capture.is_capturing());
    assert!(matches!(capture.start(), StartStep::QueryDevice));
    assert!(capture.stream().is_none());
}

#[test]
fn capture_error_messages() {
    assert_eq!(
        AudioCaptureError::DeviceError("x".to_string()).message(),
        "Failed to initialize audio device: x"
    );
    assert_eq!(AudioCaptureError::StreamError("y".to_string()).message(), "Failed to build audio stream: y");
    assert_eq!(AudioCaptureError::NotAvailable.message(), "Audio capture not available");
    assert_eq!(AudioCaptureError::NoInputDevice.message(), "No input device found");
    assert_eq!(AudioCaptureError::UnsupportedFormat.message(), "Unsupported sample format");
}

#[test]
fn callbacks_are_ignored_while_capture_is_off() {
    let mut capture = AudioCapture::new();
    assert!(capture.accepts_frames(usize::MAX));
    capture.on_input_i16(&[1, 2, 3, 4]);
    capture.on_input_mono(&[1, 2, 3, 4]);
    assert!(capture.capture_chunk_i16(&[1, 2]).is_none());
    assert!(capture.capture_chunk_mono(&[1, 2]).is_none());
    assert_eq!(capture.buffered_samples(), 0);
    let mut capture = capturing(48000, 1);
    capture.on_input_i16(&[0, 10, 20, 30, 40, 50]);
    assert_eq!(capture.stop().unwrap(), vec![0, 30]);
    capture.on_input_i16(&[0, 10, 20, 30, 40, 50]);
    assert_eq!(capture.buffered_samples(), 0);
    assert_eq!(capture.stop().unwrap(), Vec::<i16>::new());
}

#[test]
fn callback_mixes_down_resamples_and_buffers() {
    let mut capture = capturing(48000, 2);
    // Stereo frames (0,20) (30,30) (60,80) (90,90) (120,140) (150,150).
    let data: Vec<i16> = vec![0, 20, 30, 30, 60, 80, 90, 90, 120, 140, 150, 150];
    assert!(capture.accepts_frames(data.len()));
    let chunk = capture.capture_chunk_i16(&data).unwrap();
    assert_eq!(chunk.samples, vec![10, 90]);
    assert_eq!(chunk.sample_rate, 16000);
    assert_eq!(capture.buffered_samples(), 2);
    capture.on_input_i16(&[6, 8, 0, 0, 0, 0]);
    assert_eq!(capture.buffered_samples(), 3);
    let chunk = capture.capture_chunk_mono(&[-30, 0, 0, -60, 0, 0]).unwrap();
    assert_eq!(chunk.samples, vec![-30, -60]);
    assert_eq!(capture.stop().unwrap(), vec![10, 90, 7, -30, -60]);
    assert_eq!(capture.buffered_samples(), 0);
}

#[test]
fn a_stream_at_the_pipeline_rate_passes_samples_through() {
    let mut capture = capturing(16000, 1);
    capture.on_input_i16(&[3, 1, 4, 1, 5]);
    capture.on_input_mono(&[9, 2, 6]);
    assert_eq!(capture.buffered_samples(), 8);
    capture.clear_buffer();
    assert_eq!(capture.buffered_samples(), 0);
    assert!(capture.is_capturing());
    capture.on_input_mono(&[7]);
    assert_eq!(capture.stop().unwrap(), vec![7]);
}

#[test]
fn chunks_reach_the_channel_in_order() {
    let mut capture = AudioCapture::new();
    let mut receiver = capture.create_chunk_channel();
    let plan = capture.plan_stream(config(16000, 1, SampleFormat::I16)).unwrap();
    capture.stream_opened(plan, StreamOutcome::Playing).unwrap();
    assert!(capture.on_input_i16(&[1, 2]));
    assert!(capture.on_input_mono(&[3]));
    let first = receiver.try_recv().unwrap();
    assert_eq!(first.samples, vec![1, 2]);
    assert_eq!(first.sample_rate, 16000);
    assert_eq!(receiver.try_recv().unwrap().samples, vec![3]);
    assert!(matches!(receiver.try_recv(), Err(TryRecvError::Empty)));
    // The buffer got every chunk that was sent.
    assert_eq!(capture.stop().unwrap(), vec![1, 2, 3]);
    // After the stop the stream's sender is gone; the engine's own remains.
    assert!(!capture.on_input_i16(&[4]));
    assert!(matches!(receiver.try_recv(), Err(TryRecvError::Empty)));
}

#[test]
fn a_receiver_that_is_gone_does_not_disturb_capture() {
    let mut capture = AudioCapture::new();
    let receiver = capture.create_chunk_channel();
    drop(receiver);
    let plan = capture.plan_stream(config(16000, 1, SampleFormat::I16)).unwrap();
    capture.stream_opened(plan, StreamOutcome::Playing).unwrap();
    capture.on_input_i16(&[1, 2]);
    let chunk = capture.capture_chunk_i16(&[3]).unwrap();
    assert!(capture.send(chunk));
    assert_eq!(capture.stop().unwrap(), vec![1, 2, 3]);
}

#[test]
fn a_new_channel_replaces_the_old_one_for_later_streams() {
    let mut capture = AudioCapture::new();
    let mut old = capture.create_chunk_channel();
    let mut new = capture.create_chunk_channel();
    let plan = capture.plan_stream(config(16000, 1, SampleFormat::I16)).unwrap();
    capture.stream_opened(plan, StreamOutcome::Playing).unwrap();
    capture.on_input_i16(&[5]);
    assert_eq!(new.try_recv().unwrap().samples, vec![5]);
    assert!(matches!(old.try_recv(), Err(TryRecvError::Disconnected)));
    // A channel made while the stream runs is for the next stream.
    let mut next = capture.create_chunk_channel();
    capture.on_input_i16(&[6]);
    assert_eq!(new.try_recv().unwrap().samples, vec![6]);
    assert!(matches!(next.try_recv(), Err(TryRecvError::Empty)));
}

#[test]
fn without_a_channel_nothing_is_sent() {
    let mut capture = capturing(16000, 1);
    let chunk = capture.capture_chunk_i16(&[1]).unwrap();
    assert!(!capture.send(chunk));
    assert!(!capture.on_input_i16(&[2]));
    assert!(!capture.on_input_mono(&[3]));
    assert!(!capture.deliver(vec![4]));
    assert_eq!(capture.stop().unwrap(), vec![1, 2, 3, 4]);
}

#[test]
fn input_that_would_outgrow_memory_is_not_accepted() {
    let capture = capturing(8000, 1);
    assert!(capture.accepts_mono(usize::MAX / 2));
    assert!(!capture.accepts_mono(usize::MAX / 2 + 1));
    assert!(!capture.accepts_frames(usize::MAX));
    let capture = capturing(48000, 2);
    assert!(capture.accepts_frames(usize::MAX));
    assert!(capture.accepts_mono(usize::MAX));
    let plan = StreamPlan { source_rate: 1, channels: 1, format: SampleFormat::I16, target_rate: 16000 };
    let mut slow = AudioCapture::new();
    slow.stream_opened(plan, StreamOutcome::Playing).unwrap();
    assert!(slow.accepts_mono(1000));
    assert!(!slow.accepts_mono(usize::MAX / 16000 + 1));
}

#[test]
fn conversion_needs_the_plan_alone_and_recording_the_engine() {
    let plan = StreamPlan { source_rate: 48000, channels: 2, format: SampleFormat::I16, target_rate: 16000 };
    assert!(plan.is_valid());
    let data: Vec<i16> = vec![0, 20, 30, 30, 60, 80, 90, 90, 120, 140, 150, 150];
    assert!(plan.accepts_frames(data.len()));
    let samples = plan.convert_i16(&data);
    assert_eq!(samples, vec![10, 90]);
    assert_eq!(plan.convert_mono(&[-30, 0, 0, -60, 0, 0]), vec![-30, -60]);

    let mut capture = AudioCapture::new();
    let mut receiver = capture.create_chunk_channel();
    // Nothing is recorded or sent while capture is off.
    assert!(capture.record(samples.clone()).is_none());
    assert!(!capture.deliver(samples.clone()));
    assert_eq!(capture.buffered_samples(), 0);
    capture.stream_opened(plan, StreamOutcome::Playing).unwrap();
    let chunk = capture.record(samples.clone()).unwrap();
    assert_eq!(chunk.samples, vec![10, 90]);
    assert_eq!(chunk.sample_rate, 16000);
    assert!(capture.deliver(vec![7]));
    assert_eq!(receiver.try_recv().unwrap().samples, vec![7]);
    assert!(matches!(receiver.try_recv(), Err(TryRecvError::Empty)));
    assert_eq!(capture.stop().unwrap(), vec![10, 90, 7]);
}

#[test]
fn plans_tell_what_they_can_convert() {
    let up = StreamPlan { source_rate: 8000, channels: 1, format: SampleFormat::I16, target_rate: 16000 };
    assert!(up.accepts_mono(usize::MAX / 2));
    assert!(!up.accepts_mono(usize::MAX / 2 + 1));
    assert!(!up.accepts_frames(usize::MAX));
    let down = StreamPlan { source_rate: 48000, channels: 2, format: SampleFormat::F32, target_rate: 16000 };
    assert!(down.accepts_mono(usize::MAX));
    assert!(down.accepts_frames(usize::MAX));
}

#[test]
fn a_new_buffer_has_room_for_half_a_minute() {
    let mut buffer = AudioBuffer::new(16000);
    assert!(buffer.get_samples().is_empty());
    buffer.push(&vec![1i16; 480_000]);
    assert_eq!(buffer.len(), 480_000);
    buffer.push(&[2]);
    assert_eq!(buffer.len(), 480_001);
    assert!(AudioBuffer::new(0).get_samples().is_empty());
}

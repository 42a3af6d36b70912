use recorder_core::errors::RecorderError;
use recorder_core::options::RecordingOptions;
use recorder_core::relay::{pump_action, OfferOutcome, PumpAction, RecvOutcome, RelayChannel};
use recorder_core::session::{
    audio_chunks_dir, build_screenshot_command, screenshot_output_path, start_dual_recording,
    stop_all_recordings, validate_start, video_chunks_dir, AudioRecorder, OsKind, RecordingState,
    SessionFlags, StopStep,
};

fn options() -> RecordingOptions {
    RecordingOptions {
        user_id: "u1".to_string(),
        video_id: "v1".to_string(),
        screen_index: "1".to_string(),
        video_index: "0".to_string(),
        audio_name: "Microphone".to_string(),
        aws_region: "r".to_string(),
        aws_bucket: "b".to_string(),
        framerate: "30".to_string(),
        resolution: "1920x1080".to_string(),
    }
}

#[test]
fn offers_beyond_capacity_drop_instead_of_blocking() {
    // Offering five buffers into a channel of three delivers at most
    // three downstream; every offer returns at once with its outcome.
    let mut ch = RelayChannel::new(3);
    let mut accepted = 0;
    for i in 0..5u8 {
        match ch.offer(vec![i]) {
            OfferOutcome::Accepted => accepted += 1,
            OfferOutcome::Dropped => {}
        }
    }
    assert_eq!(accepted, 3);
    assert_eq!(ch.queued(), 3);
}

#[test]
fn relay_delivers_in_order_and_closes() {
    let mut ch = RelayChannel::new(8);
    assert!(matches!(ch.try_recv(), RecvOutcome::Empty));
    ch.offer(vec![1]);
    ch.offer(vec![2]);
    ch.close();
    assert_eq!(ch.offer(vec![3]), OfferOutcome::Dropped);
    match ch.try_recv() {
        RecvOutcome::Received(b) => assert_eq!(b, vec![1]),
        _ => panic!("expected a buffer"),
    }
    match ch.try_recv() {
        RecvOutcome::Received(b) => assert_eq!(b, vec![2]),
        _ => panic!("expected a buffer"),
    }
    assert!(matches!(ch.try_recv(), RecvOutcome::Closed));
}

#[test]
fn pump_writes_waits_and_stops() {
    assert!(matches!(
        pump_action(RecvOutcome::Received(vec![7])),
        PumpAction::WriteToPipe(b) if b == vec![7]
    ));
    assert!(matches!(pump_action(RecvOutcome::Empty), PumpAction::WaitForMore));
    assert!(matches!(pump_action(RecvOutcome::Closed), PumpAction::Stop));
}

#[test]
fn start_validation_reports_the_first_failure() {
    assert!(validate_start(true, true, true, OsKind::MacOs).is_ok());
    assert_eq!(
        validate_start(false, true, true, OsKind::MacOs),
        Err(RecorderError::Configuration)
    );
    assert_eq!(validate_start(true, true, true, OsKind::Other), Err(RecorderError::Platform));
    assert_eq!(validate_start(true, false, true, OsKind::Linux), Err(RecorderError::Device));
    assert_eq!(validate_start(true, true, false, OsKind::Windows), Err(RecorderError::Device));
}

#[test]
fn screenshot_command_per_backend() {
    let idx = "1".to_string();
    let out = "/d/screen-capture.jpg".to_string();
    let mac = build_screenshot_command(OsKind::MacOs, &idx, &out).unwrap();
    assert_eq!(
        mac,
        vec!["-y", "-f", "avfoundation", "-i", "1", "-vframes", "1", "/d/screen-capture.jpg"]
    );
    let win = build_screenshot_command(OsKind::Windows, &idx, &out).unwrap();
    assert_eq!(
        win,
        vec!["-y", "-f", "gdigrab", "-i", "desktop", "-vframes", "1", "/d/screen-capture.jpg"]
    );
    let lin = build_screenshot_command(OsKind::Linux, &idx, &out).unwrap();
    assert_eq!(
        lin,
        vec!["-y", "-f", "x11grab", "-i", ":0.0", "-vframes", "1", "/d/screen-capture.jpg"]
    );
    assert_eq!(
        build_screenshot_command(OsKind::Other, &idx, &out),
        Err(RecorderError::Platform)
    );
}

#[test]
fn session_paths_follow_the_layout() {
    let d = "/data".to_string();
    assert_eq!(audio_chunks_dir(&d), "/data/chunks/audio");
    assert_eq!(video_chunks_dir(&d), "/data/chunks/video");
    assert_eq!(screenshot_output_path(&d), "/data/screen-capture.jpg");
}

#[test]
fn flags_move_one_way() {
    let mut f = SessionFlags::new();
    assert!(!f.shutdown_requested());
    assert!(!f.uploads_finished());
    f.raise_shutdown();
    assert!(f.shutdown_requested());
    f.mark_audio_drained();
    assert!(!f.uploads_finished());
    f.mark_video_drained();
    assert!(f.uploads_finished());
    assert!(f.shutdown_requested());
}

#[test]
fn stop_closes_pipes_before_killing_processes() {
    // Observed through the recorded step order: both pipe closes come
    // before either process termination.
    let mut rec = AudioRecorder::new();
    rec.start_audio_recording(options(), true, true).unwrap();
    let (steps, outcome) = rec.stop_audio_recording();
    assert!(outcome.is_ok());
    let pos = |s: StopStep| steps.iter().position(|x| *x == s).unwrap();
    assert!(pos(StopStep::CloseAudioPipe) < pos(StopStep::KillAudioEncoder));
    assert!(pos(StopStep::CloseAudioPipe) < pos(StopStep::KillVideoEncoder));
    assert!(pos(StopStep::CloseVideoPipe) < pos(StopStep::KillAudioEncoder));
    assert!(pos(StopStep::CloseVideoPipe) < pos(StopStep::KillVideoEncoder));
}

#[test]
fn stop_without_a_stream_still_cleans_up_but_reports() {
    // Best-effort cleanup: the error is reported, but every release is
    // still attempted — pipes, signal, channels, and both process
    // terminations; only the pause step is missing.
    let mut rec = AudioRecorder::new();
    let (steps, outcome) = rec.stop_audio_recording();
    assert_eq!(outcome, Err(RecorderError::Configuration));
    assert_eq!(
        steps,
        vec![
            StopStep::CloseAudioPipe,
            StopStep::CloseVideoPipe,
            StopStep::RaiseStopSignal,
            StopStep::CloseAudioChannel,
            StopStep::CloseVideoChannel,
            StopStep::KillAudioEncoder,
            StopStep::KillVideoEncoder,
        ]
    );
}

#[test]
fn stop_kills_spawned_encoders_even_without_a_stream() {
    // Encoders up but no capture stream: the kills must still come,
    // after the pipe closes.
    let mut rec = AudioRecorder {
        options: None,
        stream_built: false,
        playing: false,
        encoders_spawned: true,
        stopped: false,
    };
    let (steps, outcome) = rec.stop_audio_recording();
    assert_eq!(outcome, Err(RecorderError::Configuration));
    let pos = |s: StopStep| steps.iter().position(|x| *x == s).unwrap();
    assert!(pos(StopStep::CloseAudioPipe) < pos(StopStep::KillAudioEncoder));
    assert!(pos(StopStep::CloseVideoPipe) < pos(StopStep::KillVideoEncoder));
    assert!(rec.stopped);
}

#[test]
fn trigger_play_requires_a_built_stream() {
    let mut rec = AudioRecorder::new();
    assert_eq!(rec.trigger_play(), Err(RecorderError::Configuration));
    rec.start_audio_recording(options(), true, true).unwrap();
    assert!(rec.trigger_play().is_ok());
    assert!(rec.playing);
    assert!(!rec.stopped);
    assert!(rec.encoders_spawned);
}

#[test]
fn coordinator_start_and_stop_flow() {
    let mut state = RecordingState::new();
    // No data directory yet: configuration error, nothing starts.
    assert_eq!(
        start_dual_recording(&mut state, options(), OsKind::Linux, true, true),
        Err(RecorderError::Configuration)
    );
    assert!(state.audio_process.is_none());

    state.data_dir = Some("/data".to_string());
    assert_eq!(
        start_dual_recording(&mut state, options(), OsKind::Other, true, true),
        Err(RecorderError::Platform)
    );
    assert_eq!(
        start_dual_recording(&mut state, options(), OsKind::Linux, false, true),
        Err(RecorderError::Device)
    );
    assert!(start_dual_recording(&mut state, options(), OsKind::Linux, true, true).is_ok());
    assert!(state.audio_process.is_some());
    assert!(!state.flags.shutdown_requested());

    let (steps, outcome) = stop_all_recordings(&mut state);
    assert!(outcome.is_ok());
    assert_eq!(steps.len(), 8);
    assert!(state.flags.shutdown_requested());
    assert!(state.audio_process.is_none());

    // A coordinator holding a recorder whose stream never came up:
    // stop still runs the whole cleanup and carries the error out.
    let mut stale = RecordingState::new();
    stale.audio_process = Some(AudioRecorder::new());
    let (steps, outcome) = stop_all_recordings(&mut stale);
    assert_eq!(outcome, Err(RecorderError::Configuration));
    assert_eq!(steps.len(), 7);
    assert_eq!(steps[5], StopStep::KillAudioEncoder);
    assert_eq!(steps[6], StopStep::KillVideoEncoder);

    // Stop returns to its caller only once both watchers drained.
    assert!(!state.flags.uploads_finished());
    state.flags.mark_audio_drained();
    state.flags.mark_video_drained();
    assert!(state.flags.uploads_finished());
}

#[test]
fn requested_audio_device_reads_the_options() {
    let opts = options();
    assert_eq!(opts.requested_audio_device(), Some("Microphone".to_string()));
    let mut silent = options();
    silent.audio_name = String::new();
    assert_eq!(silent.requested_audio_device(), None);
}

#[test]
fn error_messages_name_the_failure() {
    assert_eq!(RecorderError::Configuration.message(), "missing directory or option");
    assert_eq!(RecorderError::Device.message(), "no usable capture device or display");
    assert_eq!(RecorderError::Platform.message(), "unsupported operating system");
    assert_eq!(RecorderError::Pipe.message(), "encoder input pipe closed");
    assert_eq!(RecorderError::Upload.message(), "segment upload failed");
    assert_eq!(RecorderError::Process.message(), "failed to spawn encoder process");
}

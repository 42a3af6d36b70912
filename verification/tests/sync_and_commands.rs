use recorder_core::clock::{compute_adjustment, both_recorded, StartTimeSlot, SyncAdjustment};
use recorder_core::command::{
    apply_adjustment, audio_output_pattern, build_audio_command, build_video_command,
    resolution_token, segment_list_path, video_output_pattern,
};
use recorder_core::numfmt::{format_offset_seconds, u64_to_dec};

#[test]
fn start_time_slot_is_write_once() {
    let mut slot = StartTimeSlot::new();
    assert_eq!(slot.get(), None);
    slot.record(100);
    assert_eq!(slot.get(), Some(100));
    slot.record(250);
    assert_eq!(slot.get(), Some(100));
}

#[test]
fn both_recorded_waits_for_both() {
    let mut audio = StartTimeSlot::new();
    let mut video = StartTimeSlot::new();
    assert_eq!(both_recorded(&audio, &video), None);
    audio.record(100);
    assert_eq!(both_recorded(&audio, &video), None);
    video.record(180);
    assert_eq!(both_recorded(&audio, &video), Some((100, 180)));
}

#[test]
fn adjustment_when_video_starts_later_shifts_audio() {
    // Audio first sample at 100 ms, video at 180 ms: the audio
    // invocation is shifted by the 80 ms gap, the video one untouched.
    let adj = compute_adjustment(100, 180);
    assert_eq!(adj, SyncAdjustment::OffsetAudio { millis: 80 });
}

#[test]
fn adjustment_when_audio_starts_later_shifts_video() {
    let adj = compute_adjustment(300, 180);
    assert_eq!(adj, SyncAdjustment::OffsetVideo { millis: 120 });
}

#[test]
fn adjustment_for_equal_starts_is_aligned() {
    assert_eq!(compute_adjustment(500, 500), SyncAdjustment::Aligned);
}

#[test]
fn offset_lands_on_exactly_one_command() {
    let audio_cmd = vec!["-f".to_string(), "s16le".to_string()];
    let video_cmd = vec!["-f".to_string(), "rawvideo".to_string()];

    let mut a = audio_cmd.clone();
    let mut v = video_cmd.clone();
    let adj = compute_adjustment(100, 180);
    apply_adjustment(&adj, &mut a, &mut v);
    assert_eq!(a, vec!["-itsoffset", "0.080", "-f", "s16le"]);
    assert_eq!(v, video_cmd);

    let mut a = audio_cmd.clone();
    let mut v = video_cmd.clone();
    let adj = compute_adjustment(180, 100);
    apply_adjustment(&adj, &mut a, &mut v);
    assert_eq!(a, audio_cmd);
    assert_eq!(v, vec!["-itsoffset", "0.080", "-f", "rawvideo"]);

    let mut a = audio_cmd.clone();
    let mut v = video_cmd.clone();
    let adj = compute_adjustment(100, 100);
    apply_adjustment(&adj, &mut a, &mut v);
    assert_eq!(a, audio_cmd);
    assert_eq!(v, video_cmd);
}

#[test]
fn end_to_end_sync_offsets_only_the_audio_command() {
    // Two synthetic streams: audio's first sample at t=100ms, video's
    // at t=180ms.  The built invocations get an 80 ms offset on the
    // audio command and none on the video command.
    let mut audio_slot = StartTimeSlot::new();
    let mut video_slot = StartTimeSlot::new();
    audio_slot.record(100);
    video_slot.record(180);
    let (audio_start, video_start) = both_recorded(&audio_slot, &video_slot).unwrap();

    let audio_dir = "/d/a".to_string();
    let video_dir = "/d/v".to_string();
    let mut audio_cmd = build_audio_command("s16le", 44100, 2, &audio_dir);
    let mut video_cmd = build_video_command(1920, 1080, &video_dir);
    let plain_video_cmd = video_cmd.clone();

    let adj = compute_adjustment(audio_start, video_start);
    apply_adjustment(&adj, &mut audio_cmd, &mut video_cmd);

    assert_eq!(&audio_cmd[..2], &["-itsoffset".to_string(), "0.080".to_string()]);
    assert_eq!(audio_cmd[2..], build_audio_command("s16le", 44100, 2, &audio_dir)[..]);
    assert_eq!(video_cmd, plain_video_cmd);
}

#[test]
fn offsets_format_as_seconds_with_three_decimals() {
    assert_eq!(format_offset_seconds(0), "0.000");
    assert_eq!(format_offset_seconds(80), "0.080");
    assert_eq!(format_offset_seconds(7), "0.007");
    assert_eq!(format_offset_seconds(250), "0.250");
    assert_eq!(format_offset_seconds(1250), "1.250");
    assert_eq!(format_offset_seconds(12345), "12.345");
}

#[test]
fn decimal_rendering_is_exact() {
    assert_eq!(u64_to_dec(0), "0");
    assert_eq!(u64_to_dec(9), "9");
    assert_eq!(u64_to_dec(10), "10");
    assert_eq!(u64_to_dec(907), "907");
    assert_eq!(u64_to_dec(48000), "48000");
}

#[test]
fn chunk_paths_follow_the_layout() {
    let dir = "/tmp/chunks/audio".to_string();
    assert_eq!(segment_list_path(&dir), "/tmp/chunks/audio/segment_list.txt");
    assert_eq!(audio_output_pattern(&dir), "/tmp/chunks/audio/audio_recording_%03d.aac");
    let vdir = "/tmp/chunks/video".to_string();
    assert_eq!(video_output_pattern(&vdir), "/tmp/chunks/video/video_recording_%03d.ts");
    assert_eq!(resolution_token(1920, 1080), "1920x1080");
}

#[test]
fn audio_command_has_the_exact_tokens() {
    let dir = "/d/a".to_string();
    let cmd = build_audio_command("f32le", 48000, 2, &dir);
    let expected: Vec<String> = [
        "-f", "f32le", "-ar", "48000", "-ac", "2", "-thread_queue_size", "4096", "-i", "pipe:0",
        "-af", "aresample=async=1:min_hard_comp=0.100000:first_pts=0", "-c:a", "aac", "-b:a",
        "128k", "-async", "1", "-f", "segment", "-segment_time", "3", "-segment_list",
        "/d/a/segment_list.txt", "-reset_timestamps", "1", "/d/a/audio_recording_%03d.aac",
    ]
    .iter()
    .map(|s| s.to_string())
    .collect();
    assert_eq!(cmd, expected);
}

#[test]
fn video_command_has_the_exact_tokens() {
    let dir = "/d/v".to_string();
    let cmd = build_video_command(1280, 720, &dir);
    let expected: Vec<String> = [
        "-f", "rawvideo", "-pix_fmt", "bgra", "-s", "1280x720", "-r", "30",
        "-thread_queue_size", "4096", "-i", "pipe:0", "-vf", "fps=30", "-c:v", "libx264",
        "-preset", "ultrafast", "-pix_fmt", "yuv420p", "-tune", "zerolatency", "-vsync", "1",
        "-f", "segment", "-segment_time", "3", "-segment_list", "/d/v/segment_list.txt",
        "-segment_format", "mpegts", "-reset_timestamps", "1", "/d/v/video_recording_%03d.ts",
    ]
    .iter()
    .map(|s| s.to_string())
    .collect();
    assert_eq!(cmd, expected);
}

//! Session lifecycle: validation when a recording starts, the shared
//! shutdown and drain flags, the recorder's ordered shutdown sequence,
//! and the coordinator state that owns them.
//!
//! The coordinator's real surroundings — processes, pipes, capture
//! streams, upload tasks — live outside the library; here each is
//! reduced to the state the decisions depend on, and the shutdown
//! sequence is returned as an explicit list of steps for the caller to
//! perform in order.

use vstd::prelude::*;

use crate::command::token_views;
use crate::errors::RecorderError;
use crate::options::RecordingOptions;

verus! {

/// The operating systems the capture backend knows.
#[derive(Clone, Copy, Debug, PartialEq, Eq, Structural)]
pub enum OsKind {
    MacOs,
    Windows,
    Linux,
    /// Anything else: no supported capture backend.
    Other,
}

/// Whether a recording may start: the data directory must be set, a
/// capture device and a display must exist, and the operating system
/// must have a capture backend.  Exactly one error comes back for the
/// first requirement that fails, in that order.
pub fn validate_start(
    has_data_dir: bool,
    has_input_device: bool,
    has_display: bool,
    os: OsKind,
) -> (r: Result<(), RecorderError>)
    ensures
        r is Ok <==> (has_data_dir && has_input_device && has_display && os != OsKind::Other),
        !has_data_dir ==> r == Result::<(), RecorderError>::Err(RecorderError::Configuration),
        has_data_dir && os == OsKind::Other ==> r == Result::<(), RecorderError>::Err(
            RecorderError::Platform,
        ),
        has_data_dir && os != OsKind::Other && !(has_input_device && has_display) ==> r
            == Result::<(), RecorderError>::Err(RecorderError::Device),
{
    if !has_data_dir {
        Result::Err(RecorderError::Configuration)
    } else if os == OsKind::Other {
        Result::Err(RecorderError::Platform)
    } else if !(has_input_device && has_display) {
        Result::Err(RecorderError::Device)
    } else {
        Result::Ok(())
    }
}

/// The audio stream's chunk directory under the session's data
/// directory.
pub fn audio_chunks_dir(data_dir: &String) -> (r: String)
    ensures
        r@ == data_dir@ + "/chunks/audio"@,
{
    data_dir.clone().concat("/chunks/audio")
}

/// The video stream's chunk directory under the session's data
/// directory.
pub fn video_chunks_dir(data_dir: &String) -> (r: String)
    ensures
        r@ == data_dir@ + "/chunks/video"@,
{
    data_dir.clone().concat("/chunks/video")
}

/// Where the startup screenshot is written.
pub fn screenshot_output_path(data_dir: &String) -> (r: String)
    ensures
        r@ == data_dir@ + "/screen-capture.jpg"@,
{
    data_dir.clone().concat("/screen-capture.jpg")
}

/// The screenshot grabber's argument list on each backend.
pub open spec fn spec_screenshot_command(
    os: OsKind,
    screen_index: Seq<char>,
    output_path: Seq<char>,
) -> Seq<Seq<char>> {
    match os {
        OsKind::MacOs => seq![
            "-y"@,
            "-f"@,
            "avfoundation"@,
            "-i"@,
            screen_index,
            "-vframes"@,
            "1"@,
            output_path,
        ],
        OsKind::Windows => seq![
            "-y"@,
            "-f"@,
            "gdigrab"@,
            "-i"@,
            "desktop"@,
            "-vframes"@,
            "1"@,
            output_path,
        ],
        OsKind::Linux => seq![
            "-y"@,
            "-f"@,
            "x11grab"@,
            "-i"@,
            ":0.0"@,
            "-vframes"@,
            "1"@,
            output_path,
        ],
        OsKind::Other => Seq::empty(),
    }
}

/// Build the one-frame screenshot invocation for the current backend;
/// an unsupported system is the platform error.
pub fn build_screenshot_command(os: OsKind, screen_index: &String, output_path: &String) -> (r:
    Result<Vec<String>, RecorderError>)
    ensures
        r is Ok <==> os != OsKind::Other,
        r matches Ok(cmd) ==> token_views(cmd@) == spec_screenshot_command(
            os,
            screen_index@,
            output_path@,
        ),
        r is Err ==> r == Result::<Vec<String>, RecorderError>::Err(RecorderError::Platform),
{
    let mut c: Vec<String> = Vec::new();
    match os {
        OsKind::MacOs => {
            c.push(String::from_str("-y"));
            c.push(String::from_str("-f"));
            c.push(String::from_str("avfoundation"));
            c.push(String::from_str("-i"));
            c.push(screen_index.clone());
            c.push(String::from_str("-vframes"));
            c.push(String::from_str("1"));
            c.push(output_path.clone());
        },
        OsKind::Windows => {
            c.push(String::from_str("-y"));
            c.push(String::from_str("-f"));
            c.push(String::from_str("gdigrab"));
            c.push(String::from_str("-i"));
            c.push(String::from_str("desktop"));
            c.push(String::from_str("-vframes"));
            c.push(String::from_str("1"));
            c.push(output_path.clone());
        },
        OsKind::Linux => {
            c.push(String::from_str("-y"));
            c.push(String::from_str("-f"));
            c.push(String::from_str("x11grab"));
            c.push(String::from_str("-i"));
            c.push(String::from_str(":0.0"));
            c.push(String::from_str("-vframes"));
            c.push(String::from_str("1"));
            c.push(output_path.clone());
        },
        OsKind::Other => {
            return Result::Err(RecorderError::Platform);
        },
    }
    proof {
        assert(token_views(c@) =~= spec_screenshot_command(os, screen_index@, output_path@));
    }
    Result::Ok(c)
}

/// The session's shared one-way flags: the shutdown signal written by
/// stop, and one drain flag per stream written by its watcher.  Each
/// moves from false to true and never back.
pub struct SessionFlags {
    shutdown: bool,
    audio_drained: bool,
    video_drained: bool,
}

impl SessionFlags {
    pub closed spec fn is_shutdown(self) -> bool {
        self.shutdown
    }

    pub closed spec fn spec_audio_drained(self) -> bool {
        self.audio_drained
    }

    pub closed spec fn spec_video_drained(self) -> bool {
        self.video_drained
    }

    /// All clear: a fresh session.
    pub fn new() -> (r: SessionFlags)
        ensures
            !r.is_shutdown(),
            !r.spec_audio_drained(),
            !r.spec_video_drained(),
    {
        SessionFlags { shutdown: false, audio_drained: false, video_drained: false }
    }

    /// Stop raises the shutdown signal; every loop reads it.
    pub fn raise_shutdown(&mut self)
        ensures
            final(self).is_shutdown(),
            final(self).spec_audio_drained() == old(self).spec_audio_drained(),
            final(self).spec_video_drained() == old(self).spec_video_drained(),
    {
        self.shutdown = true;
    }

    /// Read the shutdown signal.
    pub fn shutdown_requested(&self) -> (r: bool)
        ensures
            r == self.is_shutdown(),
    {
        self.shutdown
    }

    /// The audio watcher reports itself drained.
    pub fn mark_audio_drained(&mut self)
        ensures
            final(self).spec_audio_drained(),
            final(self).is_shutdown() == old(self).is_shutdown(),
            final(self).spec_video_drained() == old(self).spec_video_drained(),
    {
        self.audio_drained = true;
    }

    /// The video watcher reports itself drained.
    pub fn mark_video_drained(&mut self)
        ensures
            final(self).spec_video_drained(),
            final(self).is_shutdown() == old(self).is_shutdown(),
            final(self).spec_audio_drained() == old(self).spec_audio_drained(),
    {
        self.video_drained = true;
    }

    /// Whether stop may return: both watchers must have drained.
    pub fn uploads_finished(&self) -> (r: bool)
        ensures
            r == (self.spec_audio_drained() && self.spec_video_drained()),
    {
        self.audio_drained && self.video_drained
    }
}

/// One step of the recorder's shutdown sequence, for the caller to
/// perform in order.
#[derive(Clone, Copy, Debug, PartialEq, Eq, Structural)]
pub enum StopStep {
    /// Shut the write half of the audio encoder's input pipe.
    CloseAudioPipe,
    /// Shut the write half of the video encoder's input pipe.
    CloseVideoPipe,
    /// Signal the capture thread to stop.
    RaiseStopSignal,
    /// Drop the audio relay's producer half.
    CloseAudioChannel,
    /// Drop the video relay's producer half.
    CloseVideoChannel,
    /// Pause the audio capture stream.
    PauseCaptureStream,
    /// Terminate the audio encoder process.
    KillAudioEncoder,
    /// Terminate the video encoder process.
    KillVideoEncoder,
}

/// Whether a step closes an encoder input pipe.
pub open spec fn closes_input_pipe(s: StopStep) -> bool {
    s == StopStep::CloseAudioPipe || s == StopStep::CloseVideoPipe
}

/// Whether a step terminates an encoder process.
pub open spec fn kills_encoder(s: StopStep) -> bool {
    s == StopStep::KillAudioEncoder || s == StopStep::KillVideoEncoder
}

/// The full shutdown sequence: both input pipes are closed first —
/// end-of-stream lets each encoder flush its final segment — and only
/// then are the processes terminated.
pub open spec fn spec_stop_steps() -> Seq<StopStep> {
    seq![
        StopStep::CloseAudioPipe,
        StopStep::CloseVideoPipe,
        StopStep::RaiseStopSignal,
        StopStep::CloseAudioChannel,
        StopStep::CloseVideoChannel,
        StopStep::PauseCaptureStream,
        StopStep::KillAudioEncoder,
        StopStep::KillVideoEncoder,
    ]
}

/// The shutdown sequence for a recorder whose capture stream was never
/// built.  Cleanup is best effort: the pipes still close, the stop
/// signal is still raised, the channels still drop and the processes
/// are still terminated — only the pause step is missing, since there
/// is no stream to pause.
pub open spec fn spec_stop_steps_unstarted() -> Seq<StopStep> {
    seq![
        StopStep::CloseAudioPipe,
        StopStep::CloseVideoPipe,
        StopStep::RaiseStopSignal,
        StopStep::CloseAudioChannel,
        StopStep::CloseVideoChannel,
        StopStep::KillAudioEncoder,
        StopStep::KillVideoEncoder,
    ]
}

/// In the shutdown sequence every pipe close comes before every
/// process termination.
pub proof fn lemma_pipes_close_before_kill()
    ensures
        forall|i: int, j: int|
            0 <= i < spec_stop_steps().len() && 0 <= j < spec_stop_steps().len()
                && closes_input_pipe(#[trigger] spec_stop_steps()[i]) && kills_encoder(
                #[trigger] spec_stop_steps()[j],
            ) ==> i < j,
{
    assert forall|i: int, j: int|
        0 <= i < spec_stop_steps().len() && 0 <= j < spec_stop_steps().len() && closes_input_pipe(
            #[trigger] spec_stop_steps()[i],
        ) && kills_encoder(#[trigger] spec_stop_steps()[j]) implies i < j by {
        assert(closes_input_pipe(spec_stop_steps()[i]) ==> i == 0 || i == 1);
        assert(kills_encoder(spec_stop_steps()[j]) ==> j == 6 || j == 7);
    }
}

/// The unstarted-recorder cleanup keeps the same discipline: both pipe
/// closes come before either process termination.
pub proof fn lemma_pipes_close_before_kill_unstarted()
    ensures
        forall|i: int, j: int|
            0 <= i < spec_stop_steps_unstarted().len() && 0 <= j
                < spec_stop_steps_unstarted().len() && closes_input_pipe(
                #[trigger] spec_stop_steps_unstarted()[i],
            ) && kills_encoder(#[trigger] spec_stop_steps_unstarted()[j]) ==> i < j,
{
    assert forall|i: int, j: int|
        0 <= i < spec_stop_steps_unstarted().len() && 0 <= j < spec_stop_steps_unstarted().len()
            && closes_input_pipe(#[trigger] spec_stop_steps_unstarted()[i]) && kills_encoder(
            #[trigger] spec_stop_steps_unstarted()[j],
        ) implies i < j by {
        assert(closes_input_pipe(spec_stop_steps_unstarted()[i]) ==> i == 0 || i == 1);
        assert(kills_encoder(spec_stop_steps_unstarted()[j]) ==> j == 5 || j == 6);
    }
}

/// The model of the dual-stream recorder: what of its state the
/// decisions depend on.  The capture stream, the relay channels and
/// the encoder processes themselves live with the caller.
pub struct AudioRecorder {
    pub options: Option<RecordingOptions>,
    pub stream_built: bool,
    pub playing: bool,
    pub encoders_spawned: bool,
    pub stopped: bool,
}

impl AudioRecorder {
    pub open spec fn is_stream_built(self) -> bool {
        self.stream_built
    }

    pub open spec fn is_playing(self) -> bool {
        self.playing
    }

    pub open spec fn encoders_running(self) -> bool {
        self.encoders_spawned && !self.stopped
    }

    pub open spec fn is_stopped(self) -> bool {
        self.stopped
    }

    /// A recorder with nothing started.
    pub fn new() -> (r: AudioRecorder)
        ensures
            r.options is None,
            !r.is_stream_built(),
            !r.is_playing(),
            !r.encoders_running(),
            !r.is_stopped(),
    {
        AudioRecorder {
            options: Option::None,
            stream_built: false,
            playing: false,
            encoders_spawned: false,
            stopped: false,
        }
    }

    /// Record the setup decision: with a capture device and a display
    /// present the session's streams and encoders come up and the
    /// options are stored; without either, nothing changes and the
    /// device error comes back.
    pub fn start_audio_recording(
        &mut self,
        options: RecordingOptions,
        has_input_device: bool,
        has_display: bool,
    ) -> (r: Result<(), RecorderError>)
        ensures
            r is Ok <==> (has_input_device && has_display),
            r is Ok ==> final(self).options == Some(options) && final(self).is_stream_built()
                && final(self).encoders_running() && !final(self).is_stopped(),
            r is Err ==> r == Result::<(), RecorderError>::Err(RecorderError::Device) && *final(self) == *old(self),
    {
        if has_input_device && has_display {
            self.options = Option::Some(options);
            self.stream_built = true;
            self.encoders_spawned = true;
            self.stopped = false;
            Result::Ok(())
        } else {
            Result::Err(RecorderError::Device)
        }
    }

    /// Start playback of the capture stream; before the stream is
    /// built there is nothing to play.  Nothing but the playing flag
    /// moves.  Whether the stream's own play call then succeeds is the
    /// stream owner's business, outside this model.
    pub fn trigger_play(&mut self) -> (r: Result<(), RecorderError>)
        ensures
            r is Ok <==> old(self).is_stream_built(),
            r is Ok ==> final(self).is_playing() && final(self).options == old(self).options
                && final(self).stream_built == old(self).stream_built && final(self).encoders_spawned == old(self).encoders_spawned && final(self).stopped == old(self).stopped,
            r is Err ==> r == Result::<(), RecorderError>::Err(RecorderError::Configuration)
                && *final(self) == *old(self),
    {
        if self.stream_built {
            self.playing = true;
            Result::Ok(())
        } else {
            Result::Err(RecorderError::Configuration)
        }
    }

    /// Stop the recorder.  The returned steps are what the caller must
    /// perform, in order: pipes close before processes die, so the
    /// encoders can flush their final segments.  Cleanup is best
    /// effort, a sequence of independent steps rather than a fail-fast
    /// return: even when the stream was never built, the pipes close,
    /// the channels drop and the processes are terminated — only the
    /// pause step needs a stream — and the error is still reported
    /// after everything has had its release attempt.
    pub fn stop_audio_recording(&mut self) -> (r: (Vec<StopStep>, Result<(), RecorderError>))
        ensures
            final(self).options == old(self).options,
            final(self).stream_built == old(self).stream_built,
            final(self).is_stopped(),
            !final(self).encoders_running(),
            old(self).is_stream_built() ==> r.1 is Ok && r.0@ == spec_stop_steps() && !final(self).is_playing(),
            !old(self).is_stream_built() ==> r.1 == Result::<(), RecorderError>::Err(
                RecorderError::Configuration,
            ) && r.0@ == spec_stop_steps_unstarted() && final(self).is_playing() == old(self).is_playing(),
    {
        let mut steps: Vec<StopStep> = Vec::new();
        steps.push(StopStep::CloseAudioPipe);
        steps.push(StopStep::CloseVideoPipe);
        steps.push(StopStep::RaiseStopSignal);
        steps.push(StopStep::CloseAudioChannel);
        steps.push(StopStep::CloseVideoChannel);
        let started = self.stream_built;
        if started {
            steps.push(StopStep::PauseCaptureStream);
            self.playing = false;
        }
        steps.push(StopStep::KillAudioEncoder);
        steps.push(StopStep::KillVideoEncoder);
        self.stopped = true;
        if started {
            proof {
                assert(steps@ =~= spec_stop_steps());
            }
            (steps, Result::Ok(()))
        } else {
            proof {
                assert(steps@ =~= spec_stop_steps_unstarted());
            }
            (steps, Result::Err(RecorderError::Configuration))
        }
    }
}

/// The coordinator's state: the live recorder, the session options,
/// the shared flags and the data directory.
pub struct RecordingState {
    pub audio_process: Option<AudioRecorder>,
    pub recording_options: Option<RecordingOptions>,
    pub flags: SessionFlags,
    pub data_dir: Option<String>,
}

impl RecordingState {
    /// A coordinator with no session running.
    pub fn new() -> (r: RecordingState)
        ensures
            r.audio_process is None,
            r.recording_options is None,
            r.data_dir is None,
            !r.flags.is_shutdown(),
            !r.flags.spec_audio_drained(),
            !r.flags.spec_video_drained(),
    {
        RecordingState {
            audio_process: Option::None,
            recording_options: Option::None,
            flags: SessionFlags::new(),
            data_dir: Option::None,
        }
    }
}

/// Start a dual-stream recording: validate the preconditions in order
/// — data directory, backend, capture device and display — then store
/// the session state with every flag reset, a live recorder, and the
/// options kept for the upload loops.  On any error nothing starts.
pub fn start_dual_recording(
    state: &mut RecordingState,
    options: RecordingOptions,
    os: OsKind,
    has_input_device: bool,
    has_display: bool,
) -> (r: Result<(), RecorderError>)
    ensures
        r is Ok <==> (old(state).data_dir is Some && has_input_device && has_display && os
            != OsKind::Other),
        !(old(state).data_dir is Some) ==> r == Result::<(), RecorderError>::Err(
            RecorderError::Configuration,
        ),
        old(state).data_dir is Some && os == OsKind::Other ==> r == Result::<(), RecorderError>::Err(
            RecorderError::Platform,
        ),
        old(state).data_dir is Some && os != OsKind::Other && !(has_input_device && has_display)
            ==> r == Result::<(), RecorderError>::Err(RecorderError::Device),
        r is Ok ==> final(state).recording_options == Some(options) && (
        final(state).audio_process matches Some(rec) && rec.options == Some(options)
            && rec.is_stream_built() && rec.encoders_running()) && !final(state).flags.is_shutdown() && !final(state).flags.spec_audio_drained() && !final(state).flags.spec_video_drained() && final(state).data_dir == old(state).data_dir,
        r is Err ==> *final(state) == *old(state),
{
    let has_data_dir = data_dir_present(state);
    if let Result::Err(e) = validate_start(has_data_dir, has_input_device, has_display, os) {
        return Result::Err(e);
    }
    let mut recorder = AudioRecorder::new();
    let started = recorder.start_audio_recording(options.duplicate(), has_input_device, has_display);
    match started {
        Result::Ok(()) => {
            state.audio_process = Option::Some(recorder);
            state.recording_options = Option::Some(options);
            state.flags = SessionFlags::new();
            Result::Ok(())
        },
        Result::Err(e) => Result::Err(e),
    }
}

/// Whether the coordinator knows its data directory.
fn data_dir_present(state: &RecordingState) -> (r: bool)
    ensures
        r == (state.data_dir is Some),
{
    match &state.data_dir {
        Option::Some(_) => true,
        Option::None => false,
    }
}

/// Stop every recording: raise the shutdown signal first — the
/// watchers see it and begin their drain — then stop the recorder,
/// collecting its ordered shutdown steps for the caller to perform.
/// Every cleanup step is collected even when the recorder reports an
/// error; the error comes back beside the full step list, never in
/// place of it.  The caller then blocks until
/// `flags.uploads_finished()` before the stop is complete.
pub fn stop_all_recordings(state: &mut RecordingState) -> (r: (Vec<StopStep>, Result<
    (),
    RecorderError,
>))
    ensures
        final(state).flags.is_shutdown(),
        final(state).flags.spec_audio_drained() == old(state).flags.spec_audio_drained(),
        final(state).flags.spec_video_drained() == old(state).flags.spec_video_drained(),
        final(state).audio_process is None,
        final(state).recording_options == old(state).recording_options,
        final(state).data_dir == old(state).data_dir,
        old(state).audio_process matches Some(rec) ==> (if rec.is_stream_built() {
            r.1 is Ok && r.0@ == spec_stop_steps()
        } else {
            r.1 == Result::<(), RecorderError>::Err(RecorderError::Configuration) && r.0@
                == spec_stop_steps_unstarted()
        }),
        old(state).audio_process is None ==> r.1 is Ok && r.0@.len() == 0,
{
    state.flags.raise_shutdown();
    let recorder = state.audio_process.take();
    match recorder {
        Option::Some(mut rec) => {
            let (steps, outcome) = rec.stop_audio_recording();
            (steps, outcome)
        },
        Option::None => (Vec::new(), Result::Ok(())),
    }
}

} // verus!

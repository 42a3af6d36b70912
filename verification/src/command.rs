//! Construction of the two encoder invocations, and the one-shot
//! synchronization offset applied to exactly one of them.
//!
//! An invocation is the encoder's argument list: a vector of tokens.
//! The encoder consumes raw bytes on its standard input and emits
//! numbered segment files plus an append-only manifest
//! (`segment_list.txt`) into the stream's chunk directory.

use vstd::prelude::*;

use crate::clock::SyncAdjustment;
use crate::numfmt::dec_digits;
use crate::numfmt::format_offset_seconds;
use crate::numfmt::offset_seconds_text;
use crate::numfmt::u64_to_dec;

verus! {

/// The views of an argument list's tokens.
pub open spec fn token_views(cmd: Seq<String>) -> Seq<Seq<char>> {
    Seq::new(cmd.len(), |i: int| cmd[i]@)
}

/// The manifest path of a chunk directory.
pub fn segment_list_path(chunks_dir: &String) -> (r: String)
    ensures
        r@ == chunks_dir@ + "/segment_list.txt"@,
{
    chunks_dir.clone().concat("/segment_list.txt")
}

/// The audio encoder's output pattern for numbered segments.
pub fn audio_output_pattern(chunks_dir: &String) -> (r: String)
    ensures
        r@ == chunks_dir@ + "/audio_recording_%03d.aac"@,
{
    chunks_dir.clone().concat("/audio_recording_%03d.aac")
}

/// The video encoder's output pattern for numbered segments.
pub fn video_output_pattern(chunks_dir: &String) -> (r: String)
    ensures
        r@ == chunks_dir@ + "/video_recording_%03d.ts"@,
{
    chunks_dir.clone().concat("/video_recording_%03d.ts")
}

/// A `<width>x<height>` size token.
pub fn resolution_token(width: u64, height: u64) -> (r: String)
    ensures
        r@ == dec_digits(width as nat) + "x"@ + dec_digits(height as nat),
{
    let mut s = u64_to_dec(width);
    s.append("x");
    let h = u64_to_dec(height);
    s.append(h.as_str());
    s
}

/// The audio encoder's argument list for a raw-sample pipe of the given
/// format, rate and channel count, segmented into `chunks_dir`.
pub open spec fn spec_audio_command(
    format_name: Seq<char>,
    sample_rate: nat,
    channels: nat,
    dir: Seq<char>,
) -> Seq<Seq<char>> {
    seq![
        "-f"@,
        format_name,
        "-ar"@,
        dec_digits(sample_rate),
        "-ac"@,
        dec_digits(channels),
        "-thread_queue_size"@,
        "4096"@,
        "-i"@,
        "pipe:0"@,
        "-af"@,
        "aresample=async=1:min_hard_comp=0.100000:first_pts=0"@,
        "-c:a"@,
        "aac"@,
        "-b:a"@,
        "128k"@,
        "-async"@,
        "1"@,
        "-f"@,
        "segment"@,
        "-segment_time"@,
        "3"@,
        "-segment_list"@,
        dir + "/segment_list.txt"@,
        "-reset_timestamps"@,
        "1"@,
        dir + "/audio_recording_%03d.aac"@,
    ]
}

/// The video encoder's argument list for a raw-frame pipe of the given
/// size, segmented into `chunks_dir`.
pub open spec fn spec_video_command(width: nat, adjusted_height: nat, dir: Seq<char>) -> Seq<
    Seq<char>,
> {
    seq![
        "-f"@,
        "rawvideo"@,
        "-pix_fmt"@,
        "bgra"@,
        "-s"@,
        dec_digits(width) + "x"@ + dec_digits(adjusted_height),
        "-r"@,
        "30"@,
        "-thread_queue_size"@,
        "4096"@,
        "-i"@,
        "pipe:0"@,
        "-vf"@,
        "fps=30"@,
        "-c:v"@,
        "libx264"@,
        "-preset"@,
        "ultrafast"@,
        "-pix_fmt"@,
        "yuv420p"@,
        "-tune"@,
        "zerolatency"@,
        "-vsync"@,
        "1"@,
        "-f"@,
        "segment"@,
        "-segment_time"@,
        "3"@,
        "-segment_list"@,
        dir + "/segment_list.txt"@,
        "-segment_format"@,
        "mpegts"@,
        "-reset_timestamps"@,
        "1"@,
        dir + "/video_recording_%03d.ts"@,
    ]
}

/// Build the audio encoder invocation.
pub fn build_audio_command(
    format_name: &str,
    sample_rate: u32,
    channels: u16,
    chunks_dir: &String,
) -> (r: Vec<String>)
    ensures
        token_views(r@) == spec_audio_command(
            format_name@,
            sample_rate as nat,
            channels as nat,
            chunks_dir@,
        ),
{
    let mut c: Vec<String> = Vec::new();
    c.push(String::from_str("-f"));
    c.push(String::from_str(format_name));
    c.push(String::from_str("-ar"));
    c.push(u64_to_dec(sample_rate as u64));
    c.push(String::from_str("-ac"));
    c.push(u64_to_dec(channels as u64));
    c.push(String::from_str("-thread_queue_size"));
    c.push(String::from_str("4096"));
    c.push(String::from_str("-i"));
    c.push(String::from_str("pipe:0"));
    c.push(String::from_str("-af"));
    c.push(String::from_str("aresample=async=1:min_hard_comp=0.100000:first_pts=0"));
    c.push(String::from_str("-c:a"));
    c.push(String::from_str("aac"));
    c.push(String::from_str("-b:a"));
    c.push(String::from_str("128k"));
    c.push(String::from_str("-async"));
    c.push(String::from_str("1"));
    c.push(String::from_str("-f"));
    c.push(String::from_str("segment"));
    c.push(String::from_str("-segment_time"));
    c.push(String::from_str("3"));
    c.push(String::from_str("-segment_list"));
    c.push(segment_list_path(chunks_dir));
    c.push(String::from_str("-reset_timestamps"));
    c.push(String::from_str("1"));
    c.push(audio_output_pattern(chunks_dir));
    proof {
        assert(token_views(c@) =~= spec_audio_command(
            format_name@,
            sample_rate as nat,
            channels as nat,
            chunks_dir@,
        ));
    }
    c
}

/// Build the video encoder invocation.
pub fn build_video_command(width: u64, adjusted_height: u64, chunks_dir: &String) -> (r: Vec<
    String,
>)
    ensures
        token_views(r@) == spec_video_command(
            width as nat,
            adjusted_height as nat,
            chunks_dir@,
        ),
{
    let mut c: Vec<String> = Vec::new();
    c.push(String::from_str("-f"));
    c.push(String::from_str("rawvideo"));
    c.push(String::from_str("-pix_fmt"));
    c.push(String::from_str("bgra"));
    c.push(String::from_str("-s"));
    c.push(resolution_token(width, adjusted_height));
    c.push(String::from_str("-r"));
    c.push(String::from_str("30"));
    c.push(String::from_str("-thread_queue_size"));
    c.push(String::from_str("4096"));
    c.push(String::from_str("-i"));
    c.push(String::from_str("pipe:0"));
    c.push(String::from_str("-vf"));
    c.push(String::from_str("fps=30"));
    c.push(String::from_str("-c:v"));
    c.push(String::from_str("libx264"));
    c.push(String::from_str("-preset"));
    c.push(String::from_str("ultrafast"));
    c.push(String::from_str("-pix_fmt"));
    c.push(String::from_str("yuv420p"));
    c.push(String::from_str("-tune"));
    c.push(String::from_str("zerolatency"));
    c.push(String::from_str("-vsync"));
    c.push(String::from_str("1"));
    c.push(String::from_str("-f"));
    c.push(String::from_str("segment"));
    c.push(String::from_str("-segment_time"));
    c.push(String::from_str("3"));
    c.push(String::from_str("-segment_list"));
    c.push(segment_list_path(chunks_dir));
    c.push(String::from_str("-segment_format"));
    c.push(String::from_str("mpegts"));
    c.push(String::from_str("-reset_timestamps"));
    c.push(String::from_str("1"));
    c.push(video_output_pattern(chunks_dir));
    proof {
        assert(token_views(c@) =~= spec_video_command(
            width as nat,
            adjusted_height as nat,
            chunks_dir@,
        ));
    }
    c
}

/// What applying an adjustment does to the two invocations: the stream
/// that started earlier has its invocation prefixed with a time-skip
/// instruction of the gap's magnitude; the other invocation, and both
/// when the streams are aligned, stay untouched.
pub open spec fn spec_apply_adjustment(
    adj: SyncAdjustment,
    audio_cmd: Seq<Seq<char>>,
    video_cmd: Seq<Seq<char>>,
) -> (Seq<Seq<char>>, Seq<Seq<char>>) {
    match adj {
        SyncAdjustment::Aligned => (audio_cmd, video_cmd),
        SyncAdjustment::OffsetVideo { millis } => (
            audio_cmd,
            seq!["-itsoffset"@, offset_seconds_text(millis as nat)] + video_cmd,
        ),
        SyncAdjustment::OffsetAudio { millis } => (
            seq!["-itsoffset"@, offset_seconds_text(millis as nat)] + audio_cmd,
            video_cmd,
        ),
    }
}

/// Apply the synchronization adjustment to the pending invocations.
pub fn apply_adjustment(adj: &SyncAdjustment, audio_cmd: &mut Vec<String>, video_cmd: &mut Vec<
    String,
>)
    ensures
        (token_views(final(audio_cmd)@), token_views(final(video_cmd)@)) == spec_apply_adjustment(
            *adj,
            token_views(old(audio_cmd)@),
            token_views(old(video_cmd)@),
        ),
{
    match adj {
        SyncAdjustment::Aligned => {
            proof {
                assert(token_views(audio_cmd@) =~= token_views(old(audio_cmd)@));
                assert(token_views(video_cmd@) =~= token_views(old(video_cmd)@));
            }
        },
        SyncAdjustment::OffsetVideo { millis } => {
            video_cmd.insert(0, format_offset_seconds(*millis));
            video_cmd.insert(0, String::from_str("-itsoffset"));
            proof {
                assert(token_views(audio_cmd@) =~= token_views(old(audio_cmd)@));
                assert(token_views(video_cmd@) =~= seq![
                    "-itsoffset"@,
                    offset_seconds_text(*millis as nat),
                ] + token_views(old(video_cmd)@));
            }
        },
        SyncAdjustment::OffsetAudio { millis } => {
            audio_cmd.insert(0, format_offset_seconds(*millis));
            audio_cmd.insert(0, String::from_str("-itsoffset"));
            proof {
                assert(token_views(video_cmd@) =~= token_views(old(video_cmd)@));
                assert(token_views(audio_cmd@) =~= seq![
                    "-itsoffset"@,
                    offset_seconds_text(*millis as nat),
                ] + token_views(old(audio_cmd)@));
            }
        },
    }
}

/// The synchronization offset lands on exactly one of the two
/// invocations, never both, and on neither when the start instants
/// agree.
pub proof fn lemma_offset_applied_to_exactly_one(
    audio_start_ms: u64,
    video_start_ms: u64,
    audio_cmd: Seq<Seq<char>>,
    video_cmd: Seq<Seq<char>>,
)
    ensures
        ({
            let adj = crate::clock::spec_adjustment(audio_start_ms, video_start_ms);
            let adjusted = spec_apply_adjustment(adj, audio_cmd, video_cmd);
            &&& (audio_start_ms == video_start_ms ==> adjusted.0 == audio_cmd && adjusted.1
                == video_cmd)
            &&& !(adjusted.0 != audio_cmd && adjusted.1 != video_cmd)
            &&& (audio_start_ms != video_start_ms ==> ((adjusted.0 != audio_cmd) <==> (adjusted.1
                == video_cmd)))
        }),
{
    let adj = crate::clock::spec_adjustment(audio_start_ms, video_start_ms);
    let adjusted = spec_apply_adjustment(adj, audio_cmd, video_cmd);
    if audio_start_ms > video_start_ms {
        assert(adjusted.1.len() == video_cmd.len() + 2);
    } else if video_start_ms > audio_start_ms {
        assert(adjusted.0.len() == audio_cmd.len() + 2);
    }
}

} // verus!

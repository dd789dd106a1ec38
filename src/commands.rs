//! The argument vectors handed to the media tools, one function per
//! invocation. Paths are plain strings.
use crate::status::AudioConstants;
use crate::text::{
    decimal_text, push_arg, push_owned_arg, signed_decimal_text, signed_text, unsigned_text, views,
};
use vstd::prelude::*;

verus! {

/// The tool that measures, encodes and merges.
pub const ENCODER: &'static str = "ffmpeg";

/// The tool that reads stream metadata.
pub const PROBER: &'static str = "ffprobe";

/// The integrated loudness, in LUFS, that audio tracks are normalised to.
pub const TARGET_LOUDNESS: i64 = -18;

/// The prefix of the two-pass log that both video passes share.
pub const PASS_LOG_PREFIX: &'static str = "./ffmpeg2pass";

/// The log file that the analysis pass writes for the first stream.
pub const PASS_LOG_FILE: &'static str = "./ffmpeg2pass-0.log";

/// Where the final video pass writes.
pub const VIDEO_OUTPUT: &'static str = "output.webm";

/// Where the merged container is written.
pub const MERGED_OUTPUT: &'static str = "merged.webm";

/// `0:a:<index>`: the audio stream at `index` of the first input.
pub open spec fn audio_stream_selector(index: nat) -> Seq<char> {
    "0:a:"@ + decimal_text(index)
}

/// `./audio_<index>.opus`: where the audio track at `index` is written.
pub open spec fn audio_output_path_of(index: nat) -> Seq<char> {
    "./audio_"@ + decimal_text(index) + ".opus"@
}

/// The loudness-normalisation filter for a track with measurements `c`.
pub open spec fn normalisation_filter(target: int, c: AudioConstants) -> Seq<char> {
    "loudnorm=linear=true:i="@ + signed_decimal_text(target) + ":measured_I="@ + c.input_i@
        + ":measured_LRA="@ + c.input_lra@ + ":measured_tp="@ + c.input_tp@
        + ":measured_thresh="@ + c.input_thresh@
}

/// The arguments that measure the loudness of audio stream `index` of `path`.
pub open spec fn audio_probe_argv(path: Seq<char>, index: nat) -> Seq<Seq<char>> {
    seq![
        "-hide_banner"@, "-i"@, path, "-vn"@, "-map"@, audio_stream_selector(index),
        "-filter:a"@, "loudnorm=print_format=json"@, "-f"@, "null"@, "/dev/null"@,
    ]
}

/// The arguments that normalise and encode audio stream `index` of `path`.
pub open spec fn audio_encode_argv(path: Seq<char>, index: nat, target: int, c: AudioConstants) -> Seq<Seq<char>> {
    seq![
        "-hide_banner"@, "-y"@, "-i"@, path, "-vn"@, "-map"@,
        audio_stream_selector(index), "-filter:a"@,
        normalisation_filter(target, c), "-codec:a"@, "libopus"@,
        "-compression_level"@, "10"@, audio_output_path_of(index),
    ]
}

/// The arguments that print the sizes of the video streams of `path`.
pub open spec fn video_probe_argv(path: Seq<char>) -> Seq<Seq<char>> {
    seq![
        "-hide_banner"@, "-v"@, "error"@, "-select_streams"@, "v"@, "-show_entries"@,
        "stream=width,height"@, "-print_format"@, "json"@, path,
    ]
}

/// The arguments of the analysis pass.
pub open spec fn video_first_pass_argv(path: Seq<char>, log_prefix: Seq<char>) -> Seq<Seq<char>> {
    seq![
        "-hide_banner"@, "-i"@, path, "-codec:v"@, "libaom-av1"@, "-an"@, "-pass"@, "1"@,
        "-passlogfile"@, log_prefix, "-f"@, "null"@, "/dev/null"@,
    ]
}

/// The arguments of the final pass.
pub open spec fn video_second_pass_argv(path: Seq<char>, crf: nat, log_prefix: Seq<char>, output: Seq<char>) -> Seq<Seq<char>> {
    seq![
        "-hide_banner"@, "-i"@, path, "-codec:v"@, "libaom-av1"@, "-crf"@,
        decimal_text(crf), "-pass"@, "2"@, "-passlogfile"@, log_prefix,
        "-threads"@, "1"@, "-cpu-used"@, "0"@, "-auto-alt-ref"@, "1"@,
        "-arnr-max-frames"@, "7"@, "-arnr-strength"@, "4"@, "-tune"@, "0"@,
        "-lag-in-frames"@, "35"@, "-tile-columns"@, "0"@, "-row-mt"@, "1"@, output,
    ]
}

/// The arguments that merge `video` and the audio tracks `audio` into `output`.
pub open spec fn merge_argv(video: Seq<char>, audio: Seq<Seq<char>>, output: Seq<char>) -> Seq<Seq<char>> {
    seq!["-hide_banner"@, "-y"@, "-i"@, video] + input_args(audio) + seq!["-map"@, "0:v"@]
        + audio_map_args(audio.len()) + seq!["-codec"@, "copy"@, output]
}

fn audio_stream_selector_text(index: usize) -> (r: String)
    ensures
        r@ == audio_stream_selector(index as nat),
{
    String::from_str("0:a:").concat(unsigned_text(index).as_str())
}

/// Where the audio track at `index` is written.
pub fn audio_output_path(index: usize) -> (r: String)
    ensures
        r@ == audio_output_path_of(index as nat),
{
    String::from_str("./audio_").concat(unsigned_text(index).as_str()).concat(".opus")
}

/// The filter that normalises a track measured as `c` to `target` LUFS.
pub fn normalisation_filter_text(target: i64, c: &AudioConstants) -> (r: String)
    ensures
        r@ == normalisation_filter(target as int, *c),
{
    let mut g = String::from_str("loudnorm=linear=true:i=");
    g.append(signed_text(target).as_str());
    g.append(":measured_I=");
    g.append(c.input_i.as_str());
    g.append(":measured_LRA=");
    g.append(c.input_lra.as_str());
    g.append(":measured_tp=");
    g.append(c.input_tp.as_str());
    g.append(":measured_thresh=");
    g.append(c.input_thresh.as_str());
    g
}

/// Measures the loudness of audio stream `index` of `path` and prints the
/// measurements as JSON at the end of the error stream; writes nothing.
pub fn audio_probe_args(path: &str, index: usize) -> (r: Vec<String>)
    ensures
        views(r@) == audio_probe_argv(path@, index as nat),
{
    let mut a: Vec<String> = Vec::new();
    push_arg(&mut a, "-hide_banner");
    push_arg(&mut a, "-i");
    push_arg(&mut a, path);
    push_arg(&mut a, "-vn");
    push_arg(&mut a, "-map");
    push_owned_arg(&mut a, audio_stream_selector_text(index));
    push_arg(&mut a, "-filter:a");
    push_arg(&mut a, "loudnorm=print_format=json");
    push_arg(&mut a, "-f");
    push_arg(&mut a, "null");
    push_arg(&mut a, "/dev/null");
    a
}

/// Normalises audio stream `index` of `path` to `target` LUFS with the
/// measurements `c`, and encodes it to Opus at `audio_output_path(index)`.
pub fn audio_encode_args(path: &str, index: usize, target: i64, c: &AudioConstants) -> (r: Vec<
    String,
>)
    ensures
        views(r@) == audio_encode_argv(path@, index as nat, target as int, *c),
{
    let mut a: Vec<String> = Vec::new();
    push_arg(&mut a, "-hide_banner");
    push_arg(&mut a, "-y");
    push_arg(&mut a, "-i");
    push_arg(&mut a, path);
    push_arg(&mut a, "-vn");
    push_arg(&mut a, "-map");
    push_owned_arg(&mut a, audio_stream_selector_text(index));
    push_arg(&mut a, "-filter:a");
    push_owned_arg(&mut a, normalisation_filter_text(target, c));
    push_arg(&mut a, "-codec:a");
    push_arg(&mut a, "libopus");
    push_arg(&mut a, "-compression_level");
    push_arg(&mut a, "10");
    push_owned_arg(&mut a, audio_output_path(index));
    a
}

/// Prints the width and height of the video streams of `path` as JSON.
pub fn video_probe_args(path: &str) -> (r: Vec<String>)
    ensures
        views(r@) == video_probe_argv(path@),
{
    let mut a: Vec<String> = Vec::new();
    push_arg(&mut a, "-hide_banner");
    push_arg(&mut a, "-v");
    push_arg(&mut a, "error");
    push_arg(&mut a, "-select_streams");
    push_arg(&mut a, "v");
    push_arg(&mut a, "-show_entries");
    push_arg(&mut a, "stream=width,height");
    push_arg(&mut a, "-print_format");
    push_arg(&mut a, "json");
    push_arg(&mut a, path);
    a
}

/// The analysis pass of the video encode: no audio, writes the pass log
/// under `log_prefix`, discards the encoded output.
pub fn video_first_pass_args(path: &str, log_prefix: &str) -> (r: Vec<String>)
    ensures
        views(r@) == video_first_pass_argv(path@, log_prefix@),
{
    let mut a: Vec<String> = Vec::new();
    push_arg(&mut a, "-hide_banner");
    push_arg(&mut a, "-i");
    push_arg(&mut a, path);
    push_arg(&mut a, "-codec:v");
    push_arg(&mut a, "libaom-av1");
    push_arg(&mut a, "-an");
    push_arg(&mut a, "-pass");
    push_arg(&mut a, "1");
    push_arg(&mut a, "-passlogfile");
    push_arg(&mut a, log_prefix);
    push_arg(&mut a, "-f");
    push_arg(&mut a, "null");
    push_arg(&mut a, "/dev/null");
    a
}

/// The final pass of the video encode with quality `crf`, reading the pass
/// log under `log_prefix`, one thread, fixed encoder tuning, writing
/// `output`.
pub fn video_second_pass_args(path: &str, crf: usize, log_prefix: &str, output: &str) -> (r: Vec<
    String,
>)
    ensures
        views(r@) == video_second_pass_argv(path@, crf as nat, log_prefix@, output@),
{
    let mut a: Vec<String> = Vec::new();
    push_arg(&mut a, "-hide_banner");
    push_arg(&mut a, "-i");
    push_arg(&mut a, path);
    push_arg(&mut a, "-codec:v");
    push_arg(&mut a, "libaom-av1");
    push_arg(&mut a, "-crf");
    push_owned_arg(&mut a, unsigned_text(crf));
    push_arg(&mut a, "-pass");
    push_arg(&mut a, "2");
    push_arg(&mut a, "-passlogfile");
    push_arg(&mut a, log_prefix);
    push_arg(&mut a, "-threads");
    push_arg(&mut a, "1");
    push_arg(&mut a, "-cpu-used");
    push_arg(&mut a, "0");
    push_arg(&mut a, "-auto-alt-ref");
    push_arg(&mut a, "1");
    push_arg(&mut a, "-arnr-max-frames");
    push_arg(&mut a, "7");
    push_arg(&mut a, "-arnr-strength");
    push_arg(&mut a, "4");
    push_arg(&mut a, "-tune");
    push_arg(&mut a, "0");
    push_arg(&mut a, "-lag-in-frames");
    push_arg(&mut a, "35");
    push_arg(&mut a, "-tile-columns");
    push_arg(&mut a, "0");
    push_arg(&mut a, "-row-mt");
    push_arg(&mut a, "1");
    push_arg(&mut a, output);
    a
}

/// `-i <path>` for each of `paths`, in order.
pub open spec fn input_args(paths: Seq<Seq<char>>) -> Seq<Seq<char>>
    decreases paths.len(),
{
    if paths.len() == 0 {
        Seq::empty()
    } else {
        input_args(paths.drop_last()) + seq!["-i"@, paths.last()]
    }
}

/// `-map <k>:a` for each input `k` in `1 ..= n`.
pub open spec fn audio_map_args(n: nat) -> Seq<Seq<char>>
    decreases n,
{
    if n == 0 {
        Seq::empty()
    } else {
        audio_map_args((n - 1) as nat) + seq!["-map"@, decimal_text(n) + ":a"@]
    }
}

/// Puts the video stream of `video` and the audio stream of each of `audio`,
/// in order, into one container at `output`, without re-encoding.
pub fn merge_args(video: &str, audio: &Vec<String>, output: &str) -> (r: Vec<String>)
    ensures
        views(r@) == merge_argv(video@, views(audio@), output@),
{
    let mut a: Vec<String> = Vec::new();
    push_arg(&mut a, "-hide_banner");
    push_arg(&mut a, "-y");
    push_arg(&mut a, "-i");
    push_arg(&mut a, video);
    let ghost head = views(a@);
    let mut i: usize = 0;
    while i < audio.len()
        invariant
            i <= audio.len(),
            views(a@) == head + input_args(views(audio@).take(i as int)),
        decreases audio.len() - i,
    {
        assert(views(audio@).take(i + 1).drop_last() == views(audio@).take(i as int));
        push_arg(&mut a, "-i");
        push_arg(&mut a, audio[i].as_str());
        assert(views(a@) =~= head + input_args(views(audio@).take(i + 1)));
        i = i + 1;
    }
    assert(views(audio@).take(audio.len() as int) == views(audio@));
    push_arg(&mut a, "-map");
    push_arg(&mut a, "0:v");
    let ghost middle = views(a@);
    let mut k: usize = 0;
    while k < audio.len()
        invariant
            k <= audio.len(),
            views(a@) == middle + audio_map_args(k as nat),
        decreases audio.len() - k,
    {
        push_arg(&mut a, "-map");
        push_owned_arg(&mut a, unsigned_text(k + 1).concat(":a"));
        assert(views(a@) =~= middle + audio_map_args((k + 1) as nat));
        k = k + 1;
    }
    push_arg(&mut a, "-codec");
    push_arg(&mut a, "copy");
    push_arg(&mut a, output);
    assert(views(a@) =~= seq!["-hide_banner"@, "-y"@, "-i"@, video@] + input_args(views(audio@))
        + seq!["-map"@, "0:v"@] + audio_map_args(audio@.len()) + seq![
        "-codec"@,
        "copy"@,
        output@,
    ]);
    a
}

} // verus!

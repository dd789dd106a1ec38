//! Readers of what the media tools print: the loudness report at the end of
//! the measuring run's error stream, and the stream metadata of the prober.
use crate::lines::{
    chars_of, joined, last_n, lemma_split_nonempty, lines_of, split_chars, without_cr,
};
use crate::status::AudioConstants;
use crate::text::string_from_chars;
use vstd::prelude::*;

verus! {

/// How many trailing lines of the measuring run's error stream hold the
/// loudness report.
pub const REPORT_LINES: usize = 12;

/// The loudness report in the error stream `stderr`: its last (at most
/// twelve) lines, concatenated without line breaks.
pub open spec fn report_of(stderr: Seq<char>) -> Seq<char> {
    joined(last_n(lines_of(stderr), REPORT_LINES as nat))
}

/// The text of the string member `key` of the JSON object `text`: `None`
/// when `text` is not a JSON object or has no such member holding a string.
pub uninterp spec fn json_string_member_of(text: Seq<char>, key: Seq<char>) -> Option<Seq<char>>;

/// The width and height of each entry of the `streams` array of the JSON
/// object `text`: `None` when `text` is not such an object, or an entry
/// lacks a width or a height that is an unsigned integer fitting `usize`.
pub uninterp spec fn json_stream_sizes_of(text: Seq<char>) -> Option<Seq<(usize, usize)>>;

pub open spec fn opt_view(o: Option<String>) -> Option<Seq<char>> {
    match o {
        Some(s) => Some(s@),
        None => None,
    }
}

/// Relies on `serde_json::from_str` into a `serde_json::Value`, then
/// `Value::get` and `Value::as_str`: the member's text, if the document
/// parses, is an object, and the member is a string.
#[verifier::external_body]
fn json_string_member(text: &str, key: &str) -> (r: Option<String>)
    ensures
        opt_view(r) == json_string_member_of(text@, key@),
{
    let doc: serde_json::Value = serde_json::from_str(text).ok()?;
    doc.get(key)?.as_str().map(|s| s.to_string())
}

/// Relies on `serde_json::from_str` into a `serde_json::Value`, then
/// `Value::get`, `Value::as_array` and `Value::as_u64`: the sizes of the
/// entries of `streams`, in order.
#[verifier::external_body]
fn json_stream_sizes(text: &str) -> (r: Option<Vec<(usize, usize)>>)
    ensures
        r matches Some(v) ==> json_stream_sizes_of(text@) == Some(v@),
        r is None <==> json_stream_sizes_of(text@) is None,
{
    let doc: serde_json::Value = serde_json::from_str(text).ok()?;
    let mut sizes = Vec::new();
    for entry in doc.get("streams")?.as_array()? {
        let width = usize::try_from(entry.get("width")?.as_u64()?).ok()?;
        let height = usize::try_from(entry.get("height")?.as_u64()?).ok()?;
        sizes.push((width, height));
    }
    Some(sizes)
}

/// The loudness report in the error stream `stderr`: its last lines,
/// concatenated. Earlier lines are progress output and are dropped.
pub fn loudness_report(stderr: &str) -> (r: String)
    ensures
        r@ == report_of(stderr@),
{
    let chars = chars_of(stderr);
    let pieces = split_chars(&chars, '\n');
    let ghost pv = pieces@.map_values(|p: Vec<char>| p@);
    assert(pv.len() == pieces.len());
    proof {
        lemma_split_nonempty(stderr@, '\n');
    }
    let n = pieces.len();
    let kept = if pieces[n - 1].len() == 0 {
        n - 1
    } else {
        n
    };
    let ghost lines = lines_of(stderr@);
    assert(pv.last() == pieces[n - 1]@);
    assert(lines.len() == kept);
    let start = if kept > REPORT_LINES {
        kept - REPORT_LINES
    } else {
        0
    };
    assert(last_n(lines, REPORT_LINES as nat) =~= lines.subrange(start as int, kept as int));
    let mut out: Vec<char> = Vec::new();
    let mut k = start;
    while k < kept
        invariant
            start <= k <= kept,
            kept <= n == pieces.len(),
            lines.len() == kept,
            forall|m: int| 0 <= m < kept ==> lines[m] == without_cr(#[trigger] pieces@[m]@),
            out@ == joined(lines.subrange(start as int, k as int)),
        decreases kept - k,
    {
        let line = &pieces[k];
        let len = line.len();
        let end = if len > 0 && line[len - 1] == '\r' {
            len - 1
        } else {
            len
        };
        let ghost before = out@;
        let mut j: usize = 0;
        while j < end
            invariant
                j <= end <= line.len(),
                out@ == before + line@.take(j as int),
            decreases end - j,
        {
            out.push(line[j]);
            assert(line@.take(j + 1) == line@.take(j as int).push(line[j as int]));
            j = j + 1;
        }
        assert(line@.take(end as int) == without_cr(line@));
        assert(lines.subrange(start as int, k + 1).drop_last() == lines.subrange(
            start as int,
            k as int,
        ));
        k = k + 1;
    }
    string_from_chars(&out)
}

/// The four measurements, as text, in the order integrated loudness, true
/// peak, loudness range, threshold.
pub type Measurements = (Seq<char>, Seq<char>, Seq<char>, Seq<char>);

/// The measurements that `c` holds.
pub open spec fn measurements_of(c: AudioConstants) -> Measurements {
    (c.input_i@, c.input_tp@, c.input_lra@, c.input_thresh@)
}

/// The measurements that the report `report` holds, if all four are there.
pub open spec fn measurements_in(report: Seq<char>) -> Option<Measurements> {
    let i = json_string_member_of(report, "input_i"@);
    let tp = json_string_member_of(report, "input_tp"@);
    let lra = json_string_member_of(report, "input_lra"@);
    let thresh = json_string_member_of(report, "input_thresh"@);
    if i is Some && tp is Some && lra is Some && thresh is Some {
        Some((i->0, tp->0, lra->0, thresh->0))
    } else {
        None
    }
}

/// The measurements in `c`, if any.
pub open spec fn opt_measurements(c: Option<AudioConstants>) -> Option<Measurements> {
    match c {
        Some(c) => Some(measurements_of(c)),
        None => None,
    }
}

/// Reads the loudness measurements of one audio track from the error stream
/// of its measuring run: `None` when the report at its end does not hold all
/// four of them as strings.
pub fn audio_constants_from_report(stderr: &str) -> (r: Option<AudioConstants>)
    ensures
        opt_measurements(r) == measurements_in(report_of(stderr@)),
{
    let report = loudness_report(stderr);
    let text = report.as_str();
    let input_i = json_string_member(text, "input_i");
    let input_tp = json_string_member(text, "input_tp");
    let input_lra = json_string_member(text, "input_lra");
    let input_thresh = json_string_member(text, "input_thresh");
    match (input_i, input_tp, input_lra, input_thresh) {
        (Some(input_i), Some(input_tp), Some(input_lra), Some(input_thresh)) => Some(
            AudioConstants { input_i, input_tp, input_lra, input_thresh },
        ),
        _ => None,
    }
}

/// The dimensions that the prober's output `stdout` gives for the first
/// video stream, if any.
pub open spec fn first_stream_size(stdout: Seq<char>) -> Option<(usize, usize)> {
    match json_stream_sizes_of(stdout) {
        Some(sizes) => if sizes.len() > 0 {
            Some(sizes[0])
        } else {
            None
        },
        None => None,
    }
}

/// Reads the width and height of the first video stream from the prober's
/// output: `None` when the output does not parse or lists no stream.
pub fn video_dimensions_from_probe(stdout: &str) -> (r: Option<(usize, usize)>)
    ensures
        r == first_stream_size(stdout@),
{
    match json_stream_sizes(stdout) {
        Some(sizes) => if sizes.len() > 0 {
            Some(sizes[0])
        } else {
            None
        },
        None => None,
    }
}

} // verus!

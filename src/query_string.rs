//! The query string of an upload request.
//!
//! A key `audio_<n>` asks for output audio track `n`, and its value lists
//! the source tracks that make it up: `file:channel` pairs separated by
//! commas, each number decimal. Other keys are ignored.
use crate::lines::{chars_of, split_on, split_str, str_views};
use std::collections::HashMap;
use vstd::prelude::*;

verus! {

broadcast use vstd::std_specs::hash::group_hash_axioms;

/// Why a decimal number could not be read.
#[derive(Clone, Copy, Debug, PartialEq, Eq, Structural)]
pub enum IntErrorKind {
    Empty,
    InvalidDigit,
    PosOverflow,
    NegOverflow,
    Zero,
    Other,
}

/// Where reading the query string failed, with the text that failed.
#[derive(Clone, Debug)]
pub enum QueryStringErrorSource<'a> {
    AudioKey(&'a str, IntErrorKind),
    NoAudioKey,
    AudioFileSource(&'a str, IntErrorKind),
    AudioChannelSource(&'a str, IntErrorKind),
}

/// The variant of a `QueryStringErrorSource`.
#[derive(Clone, Copy, Debug, PartialEq, Eq, Structural)]
pub enum QueryErrorPlace {
    AudioKey,
    NoAudioKey,
    AudioFileSource,
    AudioChannelSource,
}

/// A `QueryStringErrorSource` as a value: its variant, its text and its
/// kind (the empty text and `Empty` for `NoAudioKey`).
pub type QueryError = (QueryErrorPlace, Seq<char>, IntErrorKind);

impl<'a> View for QueryStringErrorSource<'a> {
    type V = QueryError;

    open spec fn view(&self) -> QueryError {
        match *self {
            QueryStringErrorSource::AudioKey(s, k) => (QueryErrorPlace::AudioKey, s@, k),
            QueryStringErrorSource::NoAudioKey => (
                QueryErrorPlace::NoAudioKey,
                Seq::empty(),
                IntErrorKind::Empty,
            ),
            QueryStringErrorSource::AudioFileSource(s, k) => (
                QueryErrorPlace::AudioFileSource,
                s@,
                k,
            ),
            QueryStringErrorSource::AudioChannelSource(s, k) => (
                QueryErrorPlace::AudioChannelSource,
                s@,
                k,
            ),
        }
    }
}

/// What the query string asks for: for each output audio track, its
/// sources as `(file, channel)` pairs in order.
#[derive(Clone, Debug)]
pub struct QueryStringContents {
    pub audio_map: HashMap<usize, Vec<(usize, usize)>>,
}

impl View for QueryStringContents {
    type V = Map<usize, Seq<(usize, usize)>>;

    open spec fn view(&self) -> Map<usize, Seq<(usize, usize)>> {
        self.audio_map@.map_values(|v: Vec<(usize, usize)>| v@)
    }
}

//////// Decimal numbers ////////////////////////////////////////////////////

pub open spec fn is_ascii_digit(c: char) -> bool {
    '0' as u32 <= c as u32 <= '9' as u32
}

/// `s` without one leading `+`.
pub open spec fn unsigned_digits(s: Seq<char>) -> Seq<char> {
    if s.len() > 0 && s[0] == '+' {
        s.drop_first()
    } else {
        s
    }
}

/// `s` is an optional `+` followed by one or more ASCII digits.
pub open spec fn is_unsigned_literal(s: Seq<char>) -> bool {
    let d = unsigned_digits(s);
    d.len() > 0 && forall|i: int| 0 <= i < d.len() ==> is_ascii_digit(#[trigger] d[i])
}

/// The value of the decimal digits `d`.
pub open spec fn digits_value(d: Seq<char>) -> nat
    decreases d.len(),
{
    if d.len() == 0 {
        0
    } else {
        digits_value(d.drop_last()) * 10 + (d.last() as u32 - '0' as u32) as nat
    }
}

/// The kind of error that reading `s` as a `usize` reports.
pub uninterp spec fn usize_parse_error_of(s: Seq<char>) -> IntErrorKind;

/// `s` read as a `usize`: its value when it is a literal that fits, else
/// the error.
pub open spec fn parsed_usize(s: Seq<char>) -> Result<usize, IntErrorKind> {
    if is_unsigned_literal(s) && digits_value(unsigned_digits(s)) <= usize::MAX {
        Ok(digits_value(unsigned_digits(s)) as usize)
    } else {
        Err(usize_parse_error_of(s))
    }
}

/// A kind that reading a decimal number reports: `PosOverflow` for a
/// literal, else one of `Empty`, `InvalidDigit` and `PosOverflow`.
pub open spec fn is_parse_failure(kind: IntErrorKind, literal: bool) -> bool {
    if literal {
        kind == IntErrorKind::PosOverflow
    } else {
        kind == IntErrorKind::Empty || kind == IntErrorKind::InvalidDigit || kind
            == IntErrorKind::PosOverflow
    }
}

/// Relies on `str::parse::<usize>` (`usize::from_str_radix` in base 10):
/// it accepts an optional `+` and one or more ASCII digits whose value fits;
/// the empty string is `Empty`, a literal too large is `PosOverflow`, and
/// any other text is one of `InvalidDigit` and `PosOverflow`.
#[verifier::external_body]
fn parse_usize(s: &str) -> (r: Result<usize, IntErrorKind>)
    ensures
        r == parsed_usize(s@),
        r matches Err(k) ==> k == usize_parse_error_of(s@),
        r matches Err(k) ==> (k == IntErrorKind::Empty <==> s@.len() == 0),
        r matches Err(k) ==> is_parse_failure(k, is_unsigned_literal(s@)),
{
    s.parse::<usize>().map_err(|e| match e.kind() {
        std::num::IntErrorKind::Empty => IntErrorKind::Empty,
        std::num::IntErrorKind::InvalidDigit => IntErrorKind::InvalidDigit,
        std::num::IntErrorKind::PosOverflow => IntErrorKind::PosOverflow,
        std::num::IntErrorKind::NegOverflow => IntErrorKind::NegOverflow,
        std::num::IntErrorKind::Zero => IntErrorKind::Zero,
        _ => IntErrorKind::Other,
    })
}

//////// Messages ///////////////////////////////////////////////////////////

/// The description of an error kind.
pub open spec fn description_of(kind: IntErrorKind) -> Seq<char> {
    match kind {
        IntErrorKind::Empty => "cannot parse integer from empty string"@,
        IntErrorKind::InvalidDigit => "invalid digit found in string"@,
        IntErrorKind::PosOverflow => "number too large to fit in target type"@,
        IntErrorKind::NegOverflow => "number too small to fit in target type"@,
        IntErrorKind::Zero => "number would be zero for non-zero type"@,
        IntErrorKind::Other => "cannot parse integer: too general"@,
    }
}

/// The description of an error kind.
pub fn iek_description(kind: IntErrorKind) -> (r: &'static str)
    ensures
        r@ == description_of(kind),
{
    match kind {
        IntErrorKind::Empty => "cannot parse integer from empty string",
        IntErrorKind::InvalidDigit => "invalid digit found in string",
        IntErrorKind::PosOverflow => "number too large to fit in target type",
        IntErrorKind::NegOverflow => "number too small to fit in target type",
        IntErrorKind::Zero => "number would be zero for non-zero type",
        IntErrorKind::Other => "cannot parse integer: too general",
    }
}

/// The message for the error `e`.
pub open spec fn message_of(e: QueryError) -> Seq<char> {
    match e.0 {
        QueryErrorPlace::AudioKey => "Unable to parse audio key \""@ + e.1
            + "\" from query string: "@ + description_of(e.2),
        QueryErrorPlace::AudioFileSource => "Unable to parse audio source file \""@ + e.1
            + "\" from query string: "@ + description_of(e.2),
        QueryErrorPlace::AudioChannelSource => "Unable to parse audio source channel \""@ + e.1
            + "\" from query string: "@ + description_of(e.2),
        QueryErrorPlace::NoAudioKey => "Unable to parse audio key from query string: does not exist"@,
    }
}

impl<'a> QueryStringErrorSource<'a> {
    /// Appends the message for this error to `writer`.
    pub fn write_error_msg(&self, writer: &mut String)
        ensures
            final(writer)@ == old(writer)@ + message_of(self@),
    {
        match self {
            QueryStringErrorSource::AudioKey(s, kind) => {
                writer.append("Unable to parse audio key \"");
                writer.append(s);
                writer.append("\" from query string: ");
                writer.append(iek_description(*kind));
            },
            QueryStringErrorSource::AudioFileSource(s, kind) => {
                writer.append("Unable to parse audio source file \"");
                writer.append(s);
                writer.append("\" from query string: ");
                writer.append(iek_description(*kind));
            },
            QueryStringErrorSource::AudioChannelSource(s, kind) => {
                writer.append("Unable to parse audio source channel \"");
                writer.append(s);
                writer.append("\" from query string: ");
                writer.append(iek_description(*kind));
            },
            QueryStringErrorSource::NoAudioKey => {
                writer.append("Unable to parse audio key from query string: does not exist");
            },
        }
    }

    /// The message for this error.
    pub fn as_error_msg(&self) -> (r: String)
        ensures
            r@ == message_of(self@),
    {
        let mut retval = String::new();
        self.write_error_msg(&mut retval);
        retval
    }
}

//////// Reading ///////////////////////////////////////////////////////////

/// One `file:channel` source: the first two pieces of `part` between colons,
/// each read as a number. A missing channel is an empty one.
pub open spec fn audio_source_of(part: Seq<char>) -> Result<(usize, usize), QueryError> {
    let pp = split_on(part, ':');
    match parsed_usize(pp[0]) {
        Err(k) => Err((QueryErrorPlace::AudioFileSource, pp[0], k)),
        Ok(f) => if pp.len() < 2 {
            Err((QueryErrorPlace::AudioChannelSource, Seq::empty(), IntErrorKind::Empty))
        } else {
            match parsed_usize(pp[1]) {
                Err(k) => Err((QueryErrorPlace::AudioChannelSource, pp[1], k)),
                Ok(c) => Ok((f, c)),
            }
        },
    }
}

/// The sources of `parts`, in order, or the error of the first that fails.
pub open spec fn audio_sources_of(parts: Seq<Seq<char>>) -> Result<Seq<(usize, usize)>, QueryError>
    decreases parts.len(),
{
    if parts.len() == 0 {
        Ok(Seq::empty())
    } else {
        match audio_sources_of(parts.drop_last()) {
            Err(e) => Err(e),
            Ok(acc) => match audio_source_of(parts.last()) {
                Ok(p) => Ok(acc.push(p)),
                Err(e) => Err(e),
            },
        }
    }
}

/// The output track that the key `key` names (its second piece between
/// underscores) and the sources that `value` lists (its pieces between
/// commas).
pub open spec fn audio_parameter_of(key: Seq<char>, value: Seq<char>) -> Result<
    (usize, Seq<(usize, usize)>),
    QueryError,
> {
    let kp = split_on(key, '_');
    if kp.len() < 2 {
        Err((QueryErrorPlace::NoAudioKey, Seq::empty(), IntErrorKind::Empty))
    } else {
        match parsed_usize(kp[1]) {
            Err(k) => Err((QueryErrorPlace::AudioKey, kp[1], k)),
            Ok(t) => match audio_sources_of(split_on(value, ',')) {
                Ok(o) => Ok((t, o)),
                Err(e) => Err(e),
            },
        }
    }
}

/// Reads one `file:channel` source.
fn get_audio_source<'a>(part: &'a str) -> (r: Result<(usize, usize), QueryStringErrorSource<'a>>)
    ensures
        match r {
            Ok(p) => audio_source_of(part@) == Ok::<(usize, usize), QueryError>(p),
            Err(e) => audio_source_of(part@) == Err::<(usize, usize), QueryError>(e@),
        },
{
    let pp = split_str(part, ':');
    proof {
        crate::lines::lemma_split_nonempty(part@, ':');
    }
    assert(pp@[0]@ == split_on(part@, ':')[0]);
    let file = match parse_usize(pp[0]) {
        Ok(f) => f,
        Err(k) => {
            return Err(QueryStringErrorSource::AudioFileSource(pp[0], k));
        },
    };
    if pp.len() < 2 {
        proof {
            reveal_strlit("");
        }
        assert(""@ =~= Seq::<char>::empty());
        assert(str_views(pp@).len() == pp@.len());
        return Err(QueryStringErrorSource::AudioChannelSource("", IntErrorKind::Empty));
    }
    assert(pp@[1]@ == split_on(part@, ':')[1]);
    match parse_usize(pp[1]) {
        Ok(c) => Ok((file, c)),
        Err(k) => Err(QueryStringErrorSource::AudioChannelSource(pp[1], k)),
    }
}

/// Reads an `audio_<n>` key and its value: the output track `n` and its
/// sources in order.
pub fn get_audio_query_parameter<'a>(audio_key: &'a str, value: &'a str) -> (r: Result<
    (usize, Vec<(usize, usize)>),
    QueryStringErrorSource<'a>,
>)
    ensures
        match r {
            Ok((t, o)) => audio_parameter_of(audio_key@, value@) == Ok::<
                (usize, Seq<(usize, usize)>),
                QueryError,
            >((t, o@)),
            Err(e) => audio_parameter_of(audio_key@, value@) == Err::<
                (usize, Seq<(usize, usize)>),
                QueryError,
            >(e@),
        },
{
    let key_parts = split_str(audio_key, '_');
    assert(str_views(key_parts@).len() == key_parts@.len());
    if key_parts.len() < 2 {
        return Err(QueryStringErrorSource::NoAudioKey);
    }
    assert(key_parts@[1]@ == split_on(audio_key@, '_')[1]);
    let target_index = match parse_usize(key_parts[1]) {
        Ok(t) => t,
        Err(k) => {
            return Err(QueryStringErrorSource::AudioKey(key_parts[1], k));
        },
    };
    let parts = split_str(value, ',');
    let ghost pv = str_views(parts@);
    assert(pv.len() == parts@.len());
    let mut ordering: Vec<(usize, usize)> = Vec::new();
    let mut i: usize = 0;
    assert(pv.take(0) =~= Seq::<Seq<char>>::empty());
    while i < parts.len()
        invariant
            i <= parts.len(),
            pv == str_views(parts@),
            pv == split_on(value@, ','),
            split_on(audio_key@, '_').len() >= 2,
            parsed_usize(split_on(audio_key@, '_')[1]) == Ok::<usize, IntErrorKind>(target_index),
            audio_sources_of(pv.take(i as int)) == Ok::<Seq<(usize, usize)>, QueryError>(
                ordering@,
            ),
        decreases parts.len() - i,
    {
        assert(pv.take(i + 1).drop_last() == pv.take(i as int));
        assert(pv.take(i + 1).last() == parts@[i as int]@);
        match get_audio_source(parts[i]) {
            Ok(p) => ordering.push(p),
            Err(e) => {
                assert(audio_sources_of(pv.take(i + 1)) == Err::<Seq<(usize, usize)>, QueryError>(
                    e@,
                ));
                proof {
                    lemma_sources_fail_later(pv, i as int + 1, e@);
                }

                return Err(e);
            },
        }
        i = i + 1;
    }
    assert(pv.take(parts.len() as int) == pv);
    Ok((target_index, ordering))
}

/// Once the sources fail at some prefix, they fail with the same error on
/// every longer one.
proof fn lemma_sources_fail_later(parts: Seq<Seq<char>>, n: int, e: QueryError)
    requires
        0 <= n <= parts.len(),
        audio_sources_of(parts.take(n)) == Err::<Seq<(usize, usize)>, QueryError>(e),
    ensures
        audio_sources_of(parts) == Err::<Seq<(usize, usize)>, QueryError>(e),
    decreases parts.len() - n,
{
    if n < parts.len() {
        assert(parts.take(n + 1).drop_last() == parts.take(n));
        lemma_sources_fail_later(parts, n + 1, e);
    } else {
        assert(parts.take(n) == parts);
    }
}

/// The key and value of one `key=value` piece: the text before the first
/// `=` and the text between it and the next `=` (or the end).
pub open spec fn query_pair_of(piece: Seq<char>) -> (Seq<char>, Seq<char>) {
    let kv = split_on(piece, '=');
    (kv[0], kv[1])
}

/// The key-value pairs of a query string: its pieces between `&`, those
/// without `=` left out.
pub open spec fn query_pairs_of(s: Seq<char>) -> Seq<(Seq<char>, Seq<char>)> {
    split_on(s, '&').filter(|p: Seq<char>| split_on(p, '=').len() >= 2).map_values(
        |p: Seq<char>| query_pair_of(p),
    )
}

pub open spec fn pair_views(v: Seq<(&str, &str)>) -> Seq<(Seq<char>, Seq<char>)> {
    v.map_values(|p: (&str, &str)| (p.0@, p.1@))
}

/// Relies on `querystring::querify`: splits at `&`, drops the pieces
/// without `=`, and pairs the first two pieces of the rest between `=`.
#[verifier::external_body]
fn querify<'a>(s: &'a str) -> (r: Vec<(&'a str, &'a str)>)
    ensures
        pair_views(r@) == query_pairs_of(s@),
{
    querystring::querify(s)
}

/// `s` begins with `audio_`.
pub open spec fn is_audio_key(s: Seq<char>) -> bool {
    s.len() >= 6 && s.take(6) == "audio_"@
}

fn starts_with_audio(s: &str) -> (r: bool)
    ensures
        r == is_audio_key(s@),
{
    let prefix = chars_of("audio_");
    let chars = chars_of(s);
    proof {
        reveal_strlit("audio_");
    }
    assert(prefix@.len() == 6);
    if chars.len() < prefix.len() {
        return false;
    }
    let mut i: usize = 0;
    while i < prefix.len()
        invariant
            i <= prefix.len() <= chars.len(),
            prefix@ == "audio_"@,
            prefix@.len() == 6,
            chars@ == s@,
            chars@.take(i as int) == prefix@.take(i as int),
        decreases prefix.len() - i,
    {
        if chars[i] != prefix[i] {
            assert(s@.take(6)[i as int] == chars@[i as int]);
            assert(s@.take(6)[i as int] != "audio_"@[i as int]);
            return false;
        }
        assert(chars@.take(i + 1) == chars@.take(i as int).push(chars[i as int]));
        assert(prefix@.take(i + 1) == prefix@.take(i as int).push(prefix[i as int]));
        i = i + 1;
    }
    assert(prefix@.take(6) == prefix@);
    true
}

/// The requests of the key-value pairs `pairs`, read in order: later keys
/// for the same output track replace earlier ones, keys other than
/// `audio_...` are ignored, and the first pair that fails gives the error.
pub open spec fn requests_of(pairs: Seq<(Seq<char>, Seq<char>)>) -> Result<
    Map<usize, Seq<(usize, usize)>>,
    QueryError,
>
    decreases pairs.len(),
{
    if pairs.len() == 0 {
        Ok(Map::empty())
    } else {
        match requests_of(pairs.drop_last()) {
            Err(e) => Err(e),
            Ok(m) => {
                let (k, v) = pairs.last();
                if is_audio_key(k) {
                    match audio_parameter_of(k, v) {
                        Ok((t, o)) => Ok(m.insert(t, o)),
                        Err(e) => Err(e),
                    }
                } else {
                    Ok(m)
                }
            },
        }
    }
}

/// Once the requests fail at some prefix, they fail with the same error on
/// every longer one.
proof fn lemma_requests_fail_later(pairs: Seq<(Seq<char>, Seq<char>)>, n: int, e: QueryError)
    requires
        0 <= n <= pairs.len(),
        requests_of(pairs.take(n)) == Err::<Map<usize, Seq<(usize, usize)>>, QueryError>(e),
    ensures
        requests_of(pairs) == Err::<Map<usize, Seq<(usize, usize)>>, QueryError>(e),
    decreases pairs.len() - n,
{
    if n < pairs.len() {
        assert(pairs.take(n + 1).drop_last() == pairs.take(n));
        lemma_requests_fail_later(pairs, n + 1, e);
    } else {
        assert(pairs.take(n) == pairs);
    }
}

/// Reads the requests of a query string.
pub fn get_requests<'a>(params: &'a str) -> (r: Result<
    QueryStringContents,
    QueryStringErrorSource<'a>,
>)
    ensures
        match r {
            Ok(c) => requests_of(query_pairs_of(params@)) == Ok::<
                Map<usize, Seq<(usize, usize)>>,
                QueryError,
            >(c@),
            Err(e) => requests_of(query_pairs_of(params@)) == Err::<
                Map<usize, Seq<(usize, usize)>>,
                QueryError,
            >(e@),
        },
{
    let pairs = querify(params);
    let ghost pv = pair_views(pairs@);
    assert(pv.len() == pairs@.len());
    let mut audios: HashMap<usize, Vec<(usize, usize)>> = HashMap::new();
    let mut i: usize = 0;
    assert(pv.take(0) =~= Seq::<(Seq<char>, Seq<char>)>::empty());
    assert(audios@.map_values(|v: Vec<(usize, usize)>| v@) =~= Map::<
        usize,
        Seq<(usize, usize)>,
    >::empty());
    while i < pairs.len()
        invariant
            i <= pairs.len(),
            pv == pair_views(pairs@),
            pv == query_pairs_of(params@),
            requests_of(pv.take(i as int)) == Ok::<Map<usize, Seq<(usize, usize)>>, QueryError>(
                audios@.map_values(|v: Vec<(usize, usize)>| v@),
            ),
        decreases pairs.len() - i,
    {
        assert(pv.take(i + 1).drop_last() == pv.take(i as int));
        assert(pv.take(i + 1).last() == pv[i as int]);
        let (key, value) = pairs[i];
        if starts_with_audio(key) {
            match get_audio_query_parameter(key, value) {
                Ok((a, o)) => {
                    let ghost before = audios@;
                    let ghost ov = o@;
                    audios.insert(a, o);
                    assert(audios@.map_values(|v: Vec<(usize, usize)>| v@) =~= before.map_values(
                        |v: Vec<(usize, usize)>| v@,
                    ).insert(a, ov));
                },
                Err(e) => {
                    proof {
                        lemma_requests_fail_later(pv, i as int + 1, e@);
                    }
                    return Err(e);
                },
            }
        }
        i = i + 1;
    }
    assert(pv.take(pairs.len() as int) == pv);
    Ok(QueryStringContents { audio_map: audios })
}

} // verus!

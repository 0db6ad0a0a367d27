//! Reading the resolver's output: JSON Lines decoded into playable entries,
//! and the outcome of one run turned into a result.
use vstd::prelude::*;
use crate::error::{detail, CommandError};
use crate::text::{joined, push_text, trim_text, trimmed};

verus! {

#[verifier::external_type_specification]
#[verifier::external_body]
pub struct ExJsonValue(serde_json::Value);

#[verifier::external_type_specification]
#[verifier::external_body]
pub struct ExJsonNumber(serde_json::Number);

/// What `serde_json::from_str::<Value>` makes of a text: `None` where the
/// text is not one JSON value.
pub uninterp spec fn json_value_of(text: Seq<char>) -> Option<serde_json::Value>;

/// The members of a JSON value that hold strings (none unless it is an object).
pub uninterp spec fn string_members(v: serde_json::Value) -> Map<Seq<char>, Seq<char>>;

/// The members of a JSON value that hold numbers (none unless it is an object).
pub uninterp spec fn number_members(v: serde_json::Value) -> Map<Seq<char>, serde_json::Number>;

/// Index of the first line feed in `s`, or its length.
pub open spec fn line_end(s: Seq<char>) -> nat
    decreases s.len(),
{
    if s.len() == 0 || s[0] == '\n' {
        0
    } else {
        1 + line_end(s.drop_first())
    }
}

/// A line without the carriage return of a "\r\n" ending.
pub open spec fn without_cr(l: Seq<char>) -> Seq<char> {
    if l.len() > 0 && l.last() == '\r' {
        l.drop_last()
    } else {
        l
    }
}

/// The lines of a text: split at "\n" or "\r\n", terminators removed, a
/// final terminator optional.
pub open spec fn lines_of(s: Seq<char>) -> Seq<Seq<char>>
    decreases s.len(),
{
    if s.len() == 0 {
        Seq::empty()
    } else if line_end(s) >= s.len() {
        seq![s]
    } else {
        seq![without_cr(s.take(line_end(s) as int))] + lines_of(s.skip(line_end(s) + 1 as int))
    }
}

/// Relies on `str::lines`: the text split into lines as `lines_of` says.
#[verifier::external_body]
fn split_lines(s: &str) -> (r: Vec<String>)
    ensures
        r@.len() == lines_of(s@).len(),
        forall|i: int| 0 <= i < r@.len() ==> (#[trigger] r@[i])@ == lines_of(s@)[i],
{
    s.lines().map(|l| l.to_string()).collect()
}

/// Relies on `serde_json::from_str` into a `Value`: a function of the text.
#[verifier::external_body]
fn parse_json(text: &str) -> (r: Option<serde_json::Value>)
    ensures
        r == json_value_of(text@),
{
    serde_json::from_str::<serde_json::Value>(text).ok()
}

/// Relies on `Value::get` with a key and `Value::as_str`: the string held
/// under `key`, where `v` is an object holding a string there.
#[verifier::external_body]
fn string_member(v: &serde_json::Value, key: &str) -> (r: Option<String>)
    ensures
        match r {
            Some(s) => string_members(*v).dom().contains(key@) && string_members(*v)[key@] == s@,
            None => !string_members(*v).dom().contains(key@),
        },
{
    v.get(key).and_then(|m| m.as_str()).map(|s| s.to_string())
}

/// Relies on `Value::get` with a key and `Value::as_number`: the number held
/// under `key`, where `v` is an object holding a number there.
#[verifier::external_body]
fn number_member(v: &serde_json::Value, key: &str) -> (r: Option<serde_json::Number>)
    ensures
        match r {
            Some(n) => number_members(*v).dom().contains(key@) && number_members(*v)[key@] == n,
            None => !number_members(*v).dom().contains(key@),
        },
{
    v.get(key).and_then(|m| m.as_number()).cloned()
}

/// The character of a decimal digit.
pub open spec fn digit_char(d: nat) -> char {
    seq!['0', '1', '2', '3', '4', '5', '6', '7', '8', '9'][d as int]
}

/// The decimal digits of a natural number.
pub open spec fn digits_of(n: nat) -> Seq<char>
    decreases n,
{
    if n < 10 {
        seq![digit_char(n)]
    } else {
        digits_of(n / 10).push(digit_char(n % 10))
    }
}

/// An integer written in decimal, with a minus sign where it is negative.
pub open spec fn decimal_of(n: int) -> Seq<char> {
    if n < 0 {
        seq!['-'] + digits_of((-n) as nat)
    } else {
        digits_of(n as nat)
    }
}

/// Relies on `i32`'s `to_string`: the number in decimal.
#[verifier::external_body]
fn decimal_text(n: i32) -> (r: String)
    ensures
        r@ == decimal_of(n as int),
{
    n.to_string()
}

/// One playable entry that the resolver found.
#[derive(Debug, Clone, PartialEq)]
pub struct OnlineSong {
    pub title: String,
    pub artist: String,
    pub stream_url: String,
    pub thumbnail: String,
    /// Length in seconds, where the resolver gave one (else taken as zero).
    pub duration: Option<serde_json::Number>,
}

/// The string member `key` of `v`, or `default` where there is none.
pub open spec fn member_or(v: serde_json::Value, key: Seq<char>, default: Seq<char>) -> Seq<char> {
    if string_members(v).dom().contains(key) {
        string_members(v)[key]
    } else {
        default
    }
}

/// The artist of a resolved item: its `artist`, else its `uploader`, else "Unknown".
pub open spec fn artist_of(v: serde_json::Value) -> Seq<char> {
    if string_members(v).dom().contains("artist"@) {
        string_members(v)["artist"@]
    } else {
        member_or(v, "uploader"@, "Unknown"@)
    }
}

/// `song` is the entry decoded from the JSON value `v`.
pub open spec fn song_from(song: OnlineSong, v: serde_json::Value) -> bool {
    &&& song.title@ == member_or(v, "title"@, "Unknown"@)
    &&& song.artist@ == artist_of(v)
    &&& song.stream_url@ == member_or(v, "url"@, ""@)
    &&& song.thumbnail@ == member_or(v, "thumbnail"@, ""@)
    &&& song.duration == (if number_members(v).dom().contains("duration"@) {
        Some(number_members(v)["duration"@])
    } else {
        None
    })
}

/// The JSON value that one output line holds: none for a blank line or one
/// that is not JSON.
pub open spec fn line_value(line: Seq<char>) -> Option<serde_json::Value> {
    if trimmed(line).len() == 0 {
        None
    } else {
        json_value_of(trimmed(line))
    }
}

/// The values of the lines that hold JSON, in line order.
pub open spec fn decoded_values(lines: Seq<Seq<char>>) -> Seq<serde_json::Value>
    decreases lines.len(),
{
    if lines.len() == 0 {
        Seq::empty()
    } else {
        let rest = decoded_values(lines.drop_last());
        match line_value(lines.last()) {
            Some(v) => rest.push(v),
            None => rest,
        }
    }
}

/// Decodes one resolved item, with defaults for the members it lacks.
pub fn song_from_json(v: &serde_json::Value) -> (r: OnlineSong)
    ensures
        song_from(r, *v),
{
    let title = match string_member(v, "title") {
        Some(t) => t,
        None => "Unknown".to_owned(),
    };
    let artist = match string_member(v, "artist") {
        Some(a) => a,
        None => match string_member(v, "uploader") {
            Some(u) => u,
            None => "Unknown".to_owned(),
        },
    };
    let stream_url = match string_member(v, "url") {
        Some(u) => u,
        None => "".to_owned(),
    };
    let thumbnail = match string_member(v, "thumbnail") {
        Some(t) => t,
        None => "".to_owned(),
    };
    let duration = number_member(v, "duration");
    OnlineSong { title, artist, stream_url, thumbnail, duration }
}

/// Decodes the resolver's output, one entry per line that holds JSON, in
/// line order; blank lines and lines that are not JSON are skipped.
pub fn decode_songs(output: &str) -> (r: Vec<OnlineSong>)
    ensures
        r@.len() == decoded_values(lines_of(output@)).len(),
        forall|k: int|
            0 <= k < r@.len() ==> song_from(#[trigger] r@[k], decoded_values(lines_of(output@))[k]),
{
    let lines = split_lines(output);
    let ghost ls = lines_of(output@);
    let mut songs: Vec<OnlineSong> = Vec::new();
    let mut i: usize = 0;
    while i < lines.len()
        invariant
            i <= lines@.len(),
            lines@.len() == ls.len(),
            forall|j: int| 0 <= j < lines@.len() ==> (#[trigger] lines@[j])@ == ls[j],
            songs@.len() == decoded_values(ls.take(i as int)).len(),
            forall|k: int|
                0 <= k < songs@.len() ==> song_from(#[trigger] songs@[k], decoded_values(ls.take(i as int))[k]),
        decreases lines@.len() - i,
    {
        assert(ls.take(i + 1).drop_last() =~= ls.take(i as int));
        assert(ls.take(i + 1).last() == lines@[i as int]@);
        let t = trim_text(lines[i].as_str());
        if !t.as_str().is_empty() {
            match parse_json(t.as_str()) {
                Some(v) => {
                    let song = song_from_json(&v);
                    songs.push(song);
                },
                None => {},
            }
        }
        i = i + 1;
    }
    assert(ls.take(i as int) =~= ls);
    songs
}

/// What running the resolver gave.
#[derive(Debug, Clone, PartialEq, Eq)]
pub enum RunOutcome {
    /// The program was found neither bundled nor on the search path.
    Missing,
    /// The program could not be started for another reason.
    SpawnFailed { reason: String },
    /// The program ran to its end.
    Exited { success: bool, code: Option<i32>, stdout: String, stderr: String },
}

/// The detail of the error for a missing resolver.
pub open spec fn missing_detail() -> Seq<char> {
    "yt-dlp not found. Please install yt-dlp and ensure it's in bin/ or system PATH"@
}

/// The detail of the error for a resolver that could not be started.
pub open spec fn spawn_detail(reason: Seq<char>) -> Seq<char> {
    "Failed to spawn yt-dlp: "@ + reason
}

/// The detail of the error for a resolver that failed with no usable output.
pub open spec fn failure_detail(code: Option<i32>, stderr: Seq<char>) -> Seq<char> {
    "yt-dlp failed"@ + match code {
        Some(c) => " (exit code "@ + decimal_of(c as int) + ")"@,
        None => Seq::empty(),
    } + ": "@ + stderr
}

/// Turns one run of the resolver into its result. A missing program is
/// `NotFound`; one that could not start is `Io`; one that exited with a
/// failure status and no entry in its output is `ProcessFailed`, with the
/// exit code and the error text. Otherwise the entries decoded from its
/// output are returned, whatever its status.
pub fn interpret_run(outcome: &RunOutcome) -> (r: Result<Vec<OnlineSong>, CommandError>)
    ensures
        match outcome {
            RunOutcome::Missing => r is Err && r->Err_0 is NotFound && detail(r->Err_0) == missing_detail(),
            RunOutcome::SpawnFailed { reason } => r is Err && r->Err_0 is Io && detail(r->Err_0)
                == spawn_detail(reason@),
            RunOutcome::Exited { success, code, stdout, stderr } => {
                let values = decoded_values(lines_of(stdout@));
                if !*success && values.len() == 0 {
                    r is Err && r->Err_0 is ProcessFailed && detail(r->Err_0) == failure_detail(
                        *code,
                        stderr@,
                    )
                } else {
                    r is Ok && r->Ok_0@.len() == values.len() && forall|k: int|
                        0 <= k < values.len() ==> song_from(#[trigger] r->Ok_0@[k], values[k])
                }
            },
        },
{
    match outcome {
        RunOutcome::Missing => Err(
            CommandError::NotFound(
                "yt-dlp not found. Please install yt-dlp and ensure it's in bin/ or system PATH".to_owned(),
            ),
        ),
        RunOutcome::SpawnFailed { reason } => Err(
            CommandError::Io(joined("Failed to spawn yt-dlp: ", reason.as_str())),
        ),
        RunOutcome::Exited { success, code, stdout, stderr } => {
            let songs = decode_songs(stdout.as_str());
            if !*success && songs.len() == 0 {
                let mut m = "yt-dlp failed".to_owned();
                match code {
                    Some(c) => {
                        push_text(&mut m, " (exit code ");
                        let digits = decimal_text(*c);
                        push_text(&mut m, digits.as_str());
                        push_text(&mut m, ")");
                    },
                    None => {},
                }
                push_text(&mut m, ": ");
                push_text(&mut m, stderr.as_str());
                proof {
                    assert(m@ =~= failure_detail(*code, stderr@));
                }
                Err(CommandError::ProcessFailed(m))
            } else {
                Ok(songs)
            }
        },
    }
}

/// Decoding the resolver's output keeps one value for each line that holds
/// JSON, in the order of the lines, and nothing for blank or malformed lines.
pub proof fn lemma_decoding_keeps_json_lines(lines: Seq<Seq<char>>)
    ensures
        decoded_values(lines) == lines.filter(|l: Seq<char>| line_value(l) is Some).map_values(
            |l: Seq<char>| line_value(l)->0,
        ),
        decoded_values(lines).len() == lines.filter(|l: Seq<char>| line_value(l) is Some).len(),
    decreases lines.len(),
{
    let keep = |l: Seq<char>| line_value(l) is Some;
    let val = |l: Seq<char>| line_value(l)->0;
    reveal(Seq::filter);
    if lines.len() > 0 {
        lemma_decoding_keeps_json_lines(lines.drop_last());
        assert(lines.filter(keep) == if keep(lines.last()) {
            lines.drop_last().filter(keep).push(lines.last())
        } else {
            lines.drop_last().filter(keep)
        });
        if keep(lines.last()) {
            assert(lines.filter(keep).map_values(val) =~= lines.drop_last().filter(keep).map_values(
                val,
            ).push(val(lines.last())));
        }
    }
}

/// Decoding two pieces of output one after the other gives the values of the
/// first, then those of the second.
pub proof fn lemma_decoding_concatenates(a: Seq<Seq<char>>, b: Seq<Seq<char>>)
    ensures
        decoded_values(a + b) == decoded_values(a) + decoded_values(b),
    decreases b.len(),
{
    if b.len() == 0 {
        assert(a + b =~= a);
        assert(decoded_values(a) + decoded_values(b) =~= decoded_values(a));
    } else {
        lemma_decoding_concatenates(a, b.drop_last());
        assert((a + b).drop_last() =~= a + b.drop_last());
        assert((a + b).last() == b.last());
        match line_value(b.last()) {
            Some(v) => {
                assert(decoded_values(a) + decoded_values(b) =~= (decoded_values(a) + decoded_values(
                    b.drop_last(),
                )).push(v));
            },
            None => {},
        }
    }
}

} // verus!

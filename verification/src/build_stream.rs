//! Reading the build stream: which lines carry an event, and which event.

use crate::lines::{lines_of, split_lines, texts};
use crate::phase::{PhaseEvent, PhaseEventView};
use vstd::prelude::*;

verus! {

/// `anyhow::Error`, the error of the decoder of build lines. Nothing is
/// claimed of what it holds: it is only told apart from success.
#[verifier::external_type_specification]
#[verifier::external_body]
pub struct ExAnyhowError(anyhow::Error);

/// A line of the stream that is not noise and yet decodes to no event.
#[derive(Debug, PartialEq, Eq)]
pub struct ParseError {
    /// The offending line, as it was read.
    pub line: String,
}

impl View for ParseError {
    type V = Seq<char>;

    open spec fn view(&self) -> Seq<char> {
        self.line@
    }
}

impl Clone for ParseError {
    fn clone(&self) -> (copy: Self)
        ensures
            copy@ == self@,
    {
        ParseError { line: self.line.clone() }
    }
}

/// What a line that is not noise stands for: an event, or the line itself
/// where it decodes to none.
pub type Reading = Result<PhaseEvent, ParseError>;

/// The mathematical value of a [`Reading`].
pub open spec fn reading_view(r: Reading) -> Result<PhaseEventView, Seq<char>> {
    match r {
        Ok(event) => Ok(event@),
        Err(e) => Err(e@),
    }
}

/// The line that the build service sends to keep an idle connection open.
pub open spec fn keepalive() -> Seq<char> {
    ":keepalive"@
}

/// Whether a line is protocol noise: empty, the keepalive line, or a comment,
/// which starts with a colon.
pub open spec fn is_noise(line: Seq<char>) -> bool {
    line.len() == 0 || line == keepalive() || line[0] == ':'
}

/// The event that `mybinder::parse_binder_build_response` decodes from a
/// line, if it decodes one.
pub uninterp spec fn binder_phase(line: Seq<char>) -> Option<PhaseEventView>;

/// What decoding gives for a line that is taken to carry an event: the
/// event, or a parse error that carries the line.
pub open spec fn decoding(line: Seq<char>) -> Result<PhaseEventView, Seq<char>> {
    match binder_phase(line) {
        Some(event) => Ok(event),
        None => Err(line),
    }
}

/// What a line contributes to the sequence of readings: nothing where it is
/// noise, else what decoding gives.
pub open spec fn line_reading(line: Seq<char>) -> Option<Result<PhaseEventView, Seq<char>>> {
    if is_noise(line) {
        None
    } else {
        Some(decoding(line))
    }
}

/// The mathematical values of a sequence of readings.
pub open spec fn reading_views(readings: Seq<Reading>) -> Seq<Result<PhaseEventView, Seq<char>>> {
    readings.map_values(|r: Reading| reading_view(r))
}

/// The readings that a sequence of lines gives, in order: one for each line
/// that is not noise.
pub open spec fn readings_of(lines: Seq<Seq<char>>) -> Seq<Result<PhaseEventView, Seq<char>>>
    decreases lines.len(),
{
    if lines.len() == 0 {
        Seq::empty()
    } else {
        let before = readings_of(lines.drop_last());
        match line_reading(lines.last()) {
            Some(reading) => before.push(reading),
            None => before,
        }
    }
}

/// Whether a line is protocol noise, which yields neither an event nor an
/// error.
pub fn is_noise_line(line: &str) -> (b: bool)
    ensures
        b == is_noise(line@),
{
    if line.is_empty() {
        return true;
    }
    proof {
        reveal_strlit(":keepalive");
    }
    line.get_char(0) == ':'
}

/// Calls `mybinder::parse_binder_build_response` on the line and keeps of the
/// decoded phase what an event holds. The contract claims that the outcome is
/// a function of the line's characters alone, named [`binder_phase`]: an
/// event where the call succeeds, none where it fails.
#[verifier::external_body]
fn parse_build_line(line: &str) -> (r: Result<PhaseEvent, anyhow::Error>)
    ensures
        match r {
            Ok(event) => binder_phase(line@) == Some(event@),
            Err(_) => binder_phase(line@) is None,
        },
{
    Ok(match mybinder::parse_binder_build_response(line)?.phase {
        mybinder::Phase::Built { message, .. } => PhaseEvent::Built { message },
        mybinder::Phase::Launching { message } => PhaseEvent::Launching { message },
        mybinder::Phase::Ready { url, token, .. } => PhaseEvent::Ready { url, token },
        mybinder::Phase::Failed { message } => PhaseEvent::Failed { message },
        mybinder::Phase::Waiting { message } => PhaseEvent::Waiting { message },
        mybinder::Phase::Fetching { message } => PhaseEvent::Fetching { message },
        mybinder::Phase::Building { message } => PhaseEvent::Building { message },
        mybinder::Phase::Unknown { message } => PhaseEvent::Unknown { message },
    })
}

/// Turns the decoder's answer for a line into a reading: the event where
/// there is one, else a parse error that carries the line.
pub fn reading_of(line: &str, decoded: Result<PhaseEvent, anyhow::Error>) -> (r: Reading)
    ensures
        reading_view(r) == match decoded {
            Ok(event) => Ok::<PhaseEventView, Seq<char>>(event@),
            Err(_) => Err::<PhaseEventView, Seq<char>>(line@),
        },
{
    match decoded {
        Ok(event) => Ok(event),
        Err(_) => Err(ParseError { line: line.to_owned() }),
    }
}

/// Decodes a line that is taken to carry an event.
pub fn decode_line(line: &str) -> (r: Reading)
    ensures
        reading_view(r) == decoding(line@),
{
    reading_of(line, parse_build_line(line))
}

/// Reads one line of the stream: nothing for noise, else an event or a parse
/// error.
pub fn read_line(line: &str) -> (r: Option<Reading>)
    ensures
        r is Some == line_reading(line@) is Some,
        r is Some ==> Some(reading_view(r->Some_0)) == line_reading(line@),
{
    if is_noise_line(line) {
        None
    } else {
        Some(decode_line(line))
    }
}

/// Reads lines in order and gives what they hold: an event or a parse error
/// for each line that is not noise.
pub fn read_lines(lines: &Vec<String>) -> (readings: Vec<Reading>)
    ensures
        reading_views(readings@) == readings_of(texts(lines@)),
{
    let mut readings: Vec<Reading> = Vec::new();
    let mut i: usize = 0;
    assert(texts(lines@).take(0) =~= Seq::<Seq<char>>::empty());
    assert(reading_views(readings@) =~= Seq::empty());
    while i < lines.len()
        invariant
            i <= lines.len(),
            reading_views(readings@) == readings_of(texts(lines@).take(i as int)),
        decreases lines.len() - i,
    {
        let ghost seen = texts(lines@).take(i as int);
        let ghost next = texts(lines@).take(i + 1);
        assert(next.drop_last() =~= seen);
        assert(next.last() == lines@[i as int]@);
        let ghost before = readings@;
        match read_line(lines[i].as_str()) {
            Some(reading) => {
                readings.push(reading);
                assert(reading_views(readings@) =~= reading_views(before).push(
                    reading_view(reading),
                ));
            },
            None => {},
        }
        i = i + 1;
    }
    assert(texts(lines@).take(lines@.len() as int) =~= texts(lines@));
    readings
}

/// Reads the text of a build stream: splits it into lines and gives an event
/// or a parse error for each line that is not noise.
pub fn read_events(text: &str) -> (readings: Vec<Reading>)
    ensures
        reading_views(readings@) == readings_of(lines_of(text@)),
{
    let lines = split_lines(text);
    read_lines(&lines)
}

/// Decoding depends on the line alone: any two readings that decoding gives
/// for one line are equal in value.
pub proof fn lemma_decoding_is_repeatable(line: Seq<char>, first: Reading, second: Reading)
    requires
        reading_view(first) == decoding(line),
        reading_view(second) == decoding(line),
    ensures
        reading_view(first) == reading_view(second),
{
}

/// Noise gives no reading.
pub proof fn lemma_noise_gives_no_reading(line: Seq<char>)
    requires
        is_noise(line),
    ensures
        line_reading(line) is None,
{
}

/// The readings of two runs of lines, one after the other, are the readings
/// of the first followed by those of the second.
pub proof fn lemma_readings_of_concat(first: Seq<Seq<char>>, second: Seq<Seq<char>>)
    ensures
        readings_of(first + second) == readings_of(first) + readings_of(second),
    decreases second.len(),
{
    if second.len() == 0 {
        assert(first + second =~= first);
        assert(readings_of(first) + readings_of(second) =~= readings_of(first));
    } else {
        assert((first + second).drop_last() =~= first + second.drop_last());
        assert((first + second).last() == second.last());
        lemma_readings_of_concat(first, second.drop_last());
        assert(readings_of(first + second) =~= readings_of(first) + readings_of(second));
    }
}

/// Noise among the lines of a stream changes nothing of what is read from
/// it: with a noise line put in at any place, the readings are the same.
pub proof fn lemma_noise_is_skipped(before: Seq<Seq<char>>, noise: Seq<char>, after: Seq<Seq<char>>)
    requires
        is_noise(noise),
    ensures
        readings_of(before + seq![noise] + after) == readings_of(before + after),
{
    let single = seq![noise];
    assert(single.last() == noise);
    assert(readings_of(single.drop_last()) =~= Seq::empty());
    assert(readings_of(single) =~= Seq::empty());
    lemma_readings_of_concat(before, single);
    lemma_readings_of_concat(before + single, after);
    lemma_readings_of_concat(before, after);
    assert(readings_of(before) + readings_of(single) =~= readings_of(before));
}

} // verus!

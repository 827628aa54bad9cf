//! From the data service's response to the line that the bot posts.
//!
//! A response is judged by its status first. Only the body of a `200` is
//! decoded; an answer without entries is a miss; the first entry of any other
//! answer is projected into one display line.

use vstd::prelude::*;
use vstd::string::*;
use crate::json::{Json, JsonValue, json_parse, optional_value, parse};
use crate::model::{
    APIResponse, APIResponseView, ContentView, Suitability, SuitabilityView, suitability_views,
    texts,
};
use crate::schema::response_of;

verus! {

/// Why a lookup gave no display line.
#[derive(Debug, Clone, Copy, PartialEq, Eq, Structural)]
pub enum LookupError {
    /// The request did not complete.
    TransportFailure,
    /// The service answered `401`: the credential needs a refresh.
    AuthRequired,
    /// The service answered with a status other than `200` and `401`.
    UnexpectedStatus(u16),
    /// The body of a `200` is no answer of the expected shape.
    ShapeMismatch,
    /// The answer is well formed and holds no entry.
    NotFound,
}

/// The status of an answer that is decoded.
pub const STATUS_OK: u16 = 200;

/// The status that asks for a fresh credential.
pub const STATUS_UNAUTHORIZED: u16 = 401;

/// The error that a status stands for; `None` for the one status whose body
/// is decoded.
pub open spec fn status_error(status: u16) -> Option<LookupError> {
    if status == STATUS_OK {
        None
    } else if status == STATUS_UNAUTHORIZED {
        Some(LookupError::AuthRequired)
    } else {
        Some(LookupError::UnexpectedStatus(status))
    }
}

/// Judges a response by its status.
pub fn check_status(status: u16) -> (r: Result<(), LookupError>)
    ensures
        r == (match status_error(status) {
            Some(e) => Err::<(), LookupError>(e),
            None => Ok(()),
        }),
{
    if status == STATUS_OK {
        Ok(())
    } else if status == STATUS_UNAUTHORIZED {
        Err(LookupError::AuthRequired)
    } else {
        Err(LookupError::UnexpectedStatus(status))
    }
}

/// The parts of a list with a separator between each two neighbours.
pub open spec fn joined(parts: Seq<Seq<char>>, separator: Seq<char>) -> Seq<char>
    decreases parts.len(),
{
    if parts.len() == 0 {
        Seq::empty()
    } else if parts.len() == 1 {
        parts[0]
    } else {
        joined(parts.drop_last(), separator) + separator + parts.last()
    }
}

/// The kinds of work of a list of suitabilities, in order.
pub open spec fn work_kinds(list: Seq<SuitabilityView>) -> Seq<Seq<char>> {
    list.map_values(|s: SuitabilityView| s.type_field)
}

/// The display line of an entry: its name, its types and the kinds of work
/// it is suited for, both lists joined with a comma and a space.
pub open spec fn display_line(c: ContentView) -> Seq<char> {
    "Pal: "@ + c.name + ", Types: "@ + joined(c.types, ", "@) + ", Suitabilities: "@ + joined(
        work_kinds(c.suitability),
        ", "@,
    )
}

/// Appends the strings of a list to `out`, a separator between each two.
fn append_joined(out: &mut String, parts: &Vec<String>, separator: &str)
    ensures
        final(out)@ == old(out)@ + joined(texts(parts@), separator@),
{
    let ghost all = texts(parts@);
    let mut i: usize = 0;
    while i < parts.len()
        invariant
            i <= parts.len(),
            all == texts(parts@),
            out@ == old(out)@ + joined(all.take(i as int), separator@),
        decreases parts.len() - i,
    {
        proof {
            assert(all.take(i + 1).drop_last() =~= all.take(i as int));
        }
        if i > 0 {
            out.append(separator);
        }
        out.append(parts[i].as_str());
        i += 1;
    }
    proof {
        assert(all.take(parts.len() as int) =~= all);
    }
}

/// The kinds of work of a list of suitabilities.
fn kinds_of(list: &Vec<Suitability>) -> (kinds: Vec<String>)
    ensures
        texts(kinds@) == work_kinds(suitability_views(list@)),
{
    let mut kinds: Vec<String> = Vec::new();
    let mut i: usize = 0;
    while i < list.len()
        invariant
            i <= list.len(),
            kinds@.len() == i,
            forall|k: int| 0 <= k < i ==> (#[trigger] kinds@[k])@ == list@[k].type_field@,
        decreases list.len() - i,
    {
        kinds.push(list[i].type_field.clone());
        i += 1;
    }
    kinds
}

/// Writes the display line of the answer's first entry into `output`.
///
/// An answer without entries is a miss: it is reported as
/// [`LookupError::NotFound`], and `output` stays as it was.
pub fn format_output(parsed: &APIResponse, output: &mut String) -> (r: Result<(), LookupError>)
    ensures
        parsed@.content.len() == 0 ==> r == Err::<(), LookupError>(LookupError::NotFound)
            && final(output)@ == old(output)@,
        parsed@.content.len() > 0 ==> r == Ok::<(), LookupError>(()) && final(output)@
            == display_line(parsed@.content[0]),
{
    if parsed.content.len() == 0 {
        return Err(LookupError::NotFound);
    }
    let first = &parsed.content[0];
    let kinds = kinds_of(&first.suitability);
    let mut line = String::from_str("Pal: ");
    line.append(first.name.as_str());
    line.append(", Types: ");
    append_joined(&mut line, &first.types, ", ");
    line.append(", Suitabilities: ");
    append_joined(&mut line, &kinds, ", ");
    *output = line;
    Ok(())
}

/// What an answer yields: a miss where it holds no entry, else the display
/// line of its first entry.
pub open spec fn projection(r: APIResponseView) -> Result<Seq<char>, LookupError> {
    if r.content.len() == 0 {
        Err(LookupError::NotFound)
    } else {
        Ok(display_line(r.content[0]))
    }
}

/// The text of a result, with the error kept.
pub open spec fn text_result(r: Result<String, LookupError>) -> Result<Seq<char>, LookupError> {
    match r {
        Ok(s) => Ok(s@),
        Err(e) => Err(e),
    }
}

/// Projects an answer into its display line, or reports a miss.
pub fn project(parsed: &APIResponse) -> (r: Result<String, LookupError>)
    ensures
        text_result(r) == projection(parsed@),
{
    let mut line = String::new();
    match format_output(parsed, &mut line) {
        Ok(()) => Ok(line),
        Err(e) => Err(e),
    }
}

/// What a lookup yields for a status and for what the body parsed to. The
/// body counts only under status `200`; there a body that is no document, or
/// a document that is no answer, is a shape mismatch.
pub open spec fn outcome(status: u16, parsed: Option<JsonValue>) -> Result<Seq<char>, LookupError> {
    match status_error(status) {
        Some(e) => Err(e),
        None => match parsed {
            Some(v) => match response_of(v) {
                Some(r) => projection(r),
                None => Err(LookupError::ShapeMismatch),
            },
            None => Err(LookupError::ShapeMismatch),
        },
    }
}

/// Only the body of a `200` counts: under every other status the result is
/// the error of the status, whatever the body holds, and that error is
/// [`LookupError::AuthRequired`] for `401` and
/// [`LookupError::UnexpectedStatus`] with the status for all others.
pub proof fn lemma_status_decides(status: u16, parsed: Option<JsonValue>)
    requires
        status != STATUS_OK,
    ensures
        outcome(status, parsed) == Err::<Seq<char>, LookupError>(
            if status == STATUS_UNAUTHORIZED {
                LookupError::AuthRequired
            } else {
                LookupError::UnexpectedStatus(status)
            },
        ),
{
}

/// Under status `200` the body decides, and each result has its own cause: a
/// display line comes from an answer with an entry and is that of its first
/// entry, a miss from an answer without entries, a shape mismatch from a body
/// that is no document or no answer; no other error comes from there.
pub proof fn lemma_body_decides(parsed: Option<JsonValue>)
    ensures
        ({
            let answer = match parsed {
                Some(v) => response_of(v),
                None => None,
            };
            let result = outcome(STATUS_OK, parsed);
            &&& result is Ok <==> answer is Some && answer->0.content.len() > 0
            &&& result is Ok ==> result->Ok_0 == display_line(answer->0.content[0])
            &&& result == Err::<Seq<char>, LookupError>(LookupError::NotFound) <==> answer is Some
                && answer->0.content.len() == 0
            &&& result == Err::<Seq<char>, LookupError>(LookupError::ShapeMismatch) <==> answer
                is None
            &&& result is Ok || result == Err::<Seq<char>, LookupError>(LookupError::NotFound)
                || result == Err::<Seq<char>, LookupError>(LookupError::ShapeMismatch)
        }),
{
}

/// The result of a lookup, from the status of the response and the tree that
/// its body parsed to (`None` where it did not parse).
pub fn interpret(status: u16, parsed: Option<Json>) -> (r: Result<String, LookupError>)
    ensures
        text_result(r) == outcome(status, optional_value(parsed)),
{
    match check_status(status) {
        Err(e) => Err(e),
        Ok(()) => match parsed {
            Some(tree) => match APIResponse::from_json(&tree) {
                Some(answer) => project(&answer),
                None => Err(LookupError::ShapeMismatch),
            },
            None => Err(LookupError::ShapeMismatch),
        },
    }
}

/// The result of a lookup, from the status and the body of the response.
/// The body is parsed only under status `200`.
pub fn lookup_result(status: u16, body: &[u8]) -> (r: Result<String, LookupError>)
    ensures
        text_result(r) == outcome(status, json_parse(body@)),
{
    match check_status(status) {
        Err(e) => Err(e),
        Ok(()) => interpret(status, parse(body)),
    }
}

/// What the user reads for an error.
pub open spec fn error_text(e: LookupError) -> Seq<char> {
    match e {
        LookupError::TransportFailure => "The lookup failed: the data service could not be reached."@,
        LookupError::AuthRequired => "The lookup is temporarily unavailable."@,
        LookupError::UnexpectedStatus(_) => "The lookup failed: the data service gave an unexpected answer."@,
        LookupError::ShapeMismatch => "The answer of the data service could not be parsed."@,
        LookupError::NotFound => "No match."@,
    }
}

impl LookupError {
    /// The text that tells the user of this error.
    pub fn message(&self) -> (text: String)
        ensures
            text@ == error_text(*self),
    {
        match self {
            LookupError::TransportFailure => String::from_str(
                "The lookup failed: the data service could not be reached.",
            ),
            LookupError::AuthRequired => String::from_str("The lookup is temporarily unavailable."),
            LookupError::UnexpectedStatus(_) => String::from_str(
                "The lookup failed: the data service gave an unexpected answer.",
            ),
            LookupError::ShapeMismatch => String::from_str(
                "The answer of the data service could not be parsed.",
            ),
            LookupError::NotFound => String::from_str("No match."),
        }
    }
}

} // verus!

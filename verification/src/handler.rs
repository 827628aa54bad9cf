//! The handling of one message, as a machine that the caller drives.
//!
//! The caller starts at [`Stage::Waiting`] with the message as the first
//! event, performs the action that [`advance`] hands back, and reports what
//! came of it as the next event, until the action is [`Action::Nothing`] or
//! [`Action::ReportReplyFailure`]. Nothing is tried twice, and no event makes
//! the handling fail: an error of the lookup becomes a reply that names its
//! cause, and a reply that cannot be delivered is reported and dropped.

use vstd::prelude::*;
use vstd::string::*;
use crate::command::{Command, CommandView, classification, classify};
use crate::json::json_parse;
use crate::lookup::{
    LookupError, STATUS_OK, check_status, error_text, lookup_result, outcome, status_error,
    text_result,
};
use crate::query::{lookup_url, query_url};

verus! {

/// Where the handling of a message stands.
#[derive(Debug, Clone, Copy, PartialEq, Eq, Structural)]
pub enum Stage {
    /// The message has not been looked at.
    Waiting,
    /// The request is on its way.
    AwaitingStatus,
    /// The response has status `200`, and its body is being read.
    AwaitingBody,
    /// A reply is on its way.
    Replying,
    /// Nothing is left to do.
    Done,
}

/// What the caller reports.
#[derive(Debug, Clone, PartialEq, Eq)]
pub enum Event {
    /// A message with this text arrived.
    Message(String),
    /// The request, or the reading of the body, did not complete.
    TransportFailed,
    /// The response arrived with this status.
    Status(u16),
    /// The body of the response was read.
    Body(Vec<u8>),
    /// The reply was delivered.
    ReplySent,
    /// The reply could not be delivered.
    ReplyFailed,
}

/// What the caller does next.
#[derive(Debug, Clone, PartialEq, Eq)]
pub enum Action {
    /// Nothing: the handling is over.
    Nothing,
    /// Send a GET request to this URL, and report its status or its failure.
    Fetch(String),
    /// Read the body of the response, and report it.
    ReadBody,
    /// Post this text to the channel of the message, and report whether it
    /// was delivered. Where the text tells of an error, `cause` is that
    /// error, for the log.
    Reply { text: String, cause: Option<LookupError> },
    /// Log that the reply was not delivered: the handling is over.
    ReportReplyFailure,
}

/// The model of an [`Event`].
pub enum EventView {
    Message(Seq<char>),
    TransportFailed,
    Status(u16),
    Body(Seq<u8>),
    ReplySent,
    ReplyFailed,
}

/// The model of an [`Action`].
pub enum ActionView {
    Nothing,
    Fetch(Seq<char>),
    ReadBody,
    Reply { text: Seq<char>, cause: Option<LookupError> },
    ReportReplyFailure,
}

impl View for Event {
    type V = EventView;

    open spec fn view(&self) -> EventView {
        match self {
            Event::Message(text) => EventView::Message(text@),
            Event::TransportFailed => EventView::TransportFailed,
            Event::Status(status) => EventView::Status(*status),
            Event::Body(body) => EventView::Body(body@),
            Event::ReplySent => EventView::ReplySent,
            Event::ReplyFailed => EventView::ReplyFailed,
        }
    }
}

impl View for Action {
    type V = ActionView;

    open spec fn view(&self) -> ActionView {
        match self {
            Action::Nothing => ActionView::Nothing,
            Action::Fetch(url) => ActionView::Fetch(url@),
            Action::ReadBody => ActionView::ReadBody,
            Action::Reply { text, cause } => ActionView::Reply { text: text@, cause: *cause },
            Action::ReportReplyFailure => ActionView::ReportReplyFailure,
        }
    }
}

/// A reply that tells of no error.
pub open spec fn plain_reply(text: Seq<char>) -> ActionView {
    ActionView::Reply { text, cause: None }
}

/// The reply that tells of an error.
pub open spec fn error_reply(e: LookupError) -> ActionView {
    ActionView::Reply { text: error_text(e), cause: Some(e) }
}

/// The reply for the result of a lookup: the display line, or the text of
/// the error with the error as its cause.
pub open spec fn result_reply(r: Result<Seq<char>, LookupError>) -> ActionView {
    match r {
        Ok(line) => plain_reply(line),
        Err(e) => error_reply(e),
    }
}

/// What a message is answered with where no lookup is needed, and what is
/// fetched where one is.
pub open spec fn on_message(text: Seq<char>, base: Seq<char>) -> (Stage, ActionView) {
    match classification(text) {
        CommandView::Ping => (Stage::Replying, plain_reply("Pong!"@)),
        CommandView::PalLookup { name } => (
            Stage::AwaitingStatus,
            ActionView::Fetch(query_url(base, name)),
        ),
        CommandView::MissingArgument => (Stage::Replying, plain_reply("Usage: !pal <name>"@)),
        CommandView::Unrecognized => (Stage::Done, ActionView::Nothing),
    }
}

/// The stage and the action that follow an event. An event that the stage
/// does not await ends the handling.
pub open spec fn next(stage: Stage, event: EventView, base: Seq<char>) -> (Stage, ActionView) {
    match (stage, event) {
        (Stage::Waiting, EventView::Message(text)) => on_message(text, base),
        (Stage::AwaitingStatus, EventView::Status(status)) => match status_error(status) {
            None => (Stage::AwaitingBody, ActionView::ReadBody),
            Some(e) => (Stage::Replying, error_reply(e)),
        },
        (Stage::AwaitingStatus, EventView::TransportFailed) => (
            Stage::Replying,
            error_reply(LookupError::TransportFailure),
        ),
        (Stage::AwaitingBody, EventView::Body(body)) => (
            Stage::Replying,
            result_reply(outcome(STATUS_OK, json_parse(body))),
        ),
        (Stage::AwaitingBody, EventView::TransportFailed) => (
            Stage::Replying,
            error_reply(LookupError::TransportFailure),
        ),
        (Stage::Replying, EventView::ReplySent) => (Stage::Done, ActionView::Nothing),
        (Stage::Replying, EventView::ReplyFailed) => (Stage::Done, ActionView::ReportReplyFailure),
        _ => (Stage::Done, ActionView::Nothing),
    }
}

fn reply(text: &str) -> (action: Action)
    ensures
        action@ == plain_reply(text@),
{
    Action::Reply { text: String::from_str(text), cause: None }
}

fn reply_error(e: LookupError) -> (action: Action)
    ensures
        action@ == error_reply(e),
{
    Action::Reply { text: e.message(), cause: Some(e) }
}

fn reply_result(result: Result<String, LookupError>) -> (action: Action)
    ensures
        action@ == result_reply(text_result(result)),
{
    match result {
        Ok(line) => Action::Reply { text: line, cause: None },
        Err(e) => reply_error(e),
    }
}

/// Takes one step of the handling: the stage that follows `event` at
/// `stage`, and the action to perform. `base` is the URL of the data
/// service, without a trailing slash.
pub fn advance(stage: Stage, event: &Event, base: &str) -> (r: (Stage, Action))
    ensures
        (r.0, r.1@) == next(stage, event@, base@),
{
    match (stage, event) {
        (Stage::Waiting, Event::Message(text)) => match classify(text.as_str()) {
            Command::Ping => (Stage::Replying, reply("Pong!")),
            Command::PalLookup { name } => (
                Stage::AwaitingStatus,
                Action::Fetch(lookup_url(base, name.as_str())),
            ),
            Command::MissingArgument => (Stage::Replying, reply("Usage: !pal <name>")),
            Command::Unrecognized => (Stage::Done, Action::Nothing),
        },
        (Stage::AwaitingStatus, Event::Status(status)) => match check_status(*status) {
            Ok(()) => (Stage::AwaitingBody, Action::ReadBody),
            Err(e) => (Stage::Replying, reply_error(e)),
        },
        (Stage::AwaitingStatus, Event::TransportFailed) => (
            Stage::Replying,
            reply_error(LookupError::TransportFailure),
        ),
        (Stage::AwaitingBody, Event::Body(body)) => (
            Stage::Replying,
            reply_result(lookup_result(STATUS_OK, body.as_slice())),
        ),
        (Stage::AwaitingBody, Event::TransportFailed) => (
            Stage::Replying,
            reply_error(LookupError::TransportFailure),
        ),
        (Stage::Replying, Event::ReplySent) => (Stage::Done, Action::Nothing),
        (Stage::Replying, Event::ReplyFailed) => (Stage::Done, Action::ReportReplyFailure),
        _ => (Stage::Done, Action::Nothing),
    }
}

/// How many events a stage can still take before the handling is over.
pub open spec fn steps_left(stage: Stage) -> nat {
    match stage {
        Stage::Waiting => 4,
        Stage::AwaitingStatus => 3,
        Stage::AwaitingBody => 2,
        Stage::Replying => 1,
        Stage::Done => 0,
    }
}

/// Every event brings the handling nearer to its end: no stage is entered
/// twice, so nothing is retried and the handling of a message is over after
/// four events at most.
pub proof fn lemma_progress(stage: Stage, event: EventView, base: Seq<char>)
    requires
        stage != Stage::Done,
    ensures
        steps_left(next(stage, event, base).0) < steps_left(stage),
{
}

/// The stage that a run of events leads to.
pub open spec fn stage_after(stage: Stage, events: Seq<EventView>, base: Seq<char>) -> Stage
    decreases events.len(),
{
    if events.len() == 0 {
        stage
    } else {
        stage_after(next(stage, events[0], base).0, events.drop_first(), base)
    }
}

/// The handling of a message ends: after as many events as the stage can
/// still take, whatever they are, nothing is left to do.
pub proof fn lemma_handling_ends(stage: Stage, events: Seq<EventView>, base: Seq<char>)
    requires
        events.len() >= steps_left(stage),
    ensures
        stage_after(stage, events, base) == Stage::Done,
    decreases events.len(),
{
    if events.len() > 0 {
        if stage != Stage::Done {
            lemma_progress(stage, events[0], base);
        }
        lemma_handling_ends(next(stage, events[0], base).0, events.drop_first(), base);
    }
}

/// Once the handling is over, every event leaves it so and asks for nothing.
pub proof fn lemma_done_stays(event: EventView, base: Seq<char>)
    ensures
        next(Stage::Done, event, base) == (Stage::Done, ActionView::Nothing),
{
}

/// A body is read for a response with status `200` and for no other: no
/// other status, and no failure, leads to an attempt to decode.
pub proof fn lemma_body_read_only_after_ok(stage: Stage, event: EventView, base: Seq<char>)
    ensures
        next(stage, event, base).1 is ReadBody <==> stage == Stage::AwaitingStatus && event
            == EventView::Status(STATUS_OK),
        next(stage, event, base).0 == Stage::AwaitingBody <==> next(stage, event, base).1
            is ReadBody,
{
}

/// A request is sent for a message that asks for a lookup, and for nothing
/// else.
pub proof fn lemma_fetch_only_for_lookup(stage: Stage, event: EventView, base: Seq<char>)
    ensures
        next(stage, event, base).1 is Fetch <==> stage == Stage::Waiting && event is Message
            && classification(event->Message_0) is PalLookup,
{
}

/// An error of the lookup is told to the user and named for the log: a
/// response with a status other than `200`, a request that failed, and a body
/// that holds no entry to show each lead to one reply with the error as its
/// cause, and to the stage that awaits its delivery.
pub proof fn lemma_errors_are_answered(stage: Stage, event: EventView, base: Seq<char>)
    ensures
        stage == Stage::AwaitingStatus && event is Status && event->Status_0 != STATUS_OK ==> next(
            stage,
            event,
            base,
        ) == (Stage::Replying, error_reply(status_error(event->Status_0)->0)),
        (stage == Stage::AwaitingStatus || stage == Stage::AwaitingBody) && event
            is TransportFailed ==> next(stage, event, base) == (
            Stage::Replying,
            error_reply(LookupError::TransportFailure),
        ),
        stage == Stage::AwaitingBody && event is Body && outcome(
            STATUS_OK,
            json_parse(event->Body_0),
        ) is Err ==> next(stage, event, base) == (
            Stage::Replying,
            error_reply(outcome(STATUS_OK, json_parse(event->Body_0))->Err_0),
        ),
{
}

} // verus!

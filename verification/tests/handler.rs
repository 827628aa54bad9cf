use palbot::{advance, Action, Event, LookupError, Stage};

const BASE: &str = "http://localhost:8080";

const LAMBALL: &[u8] = br#"{"content":[{"id":1,"key":"001","image":"i","name":"Lamball","wiki":"w","types":["Normal"],"imageWiki":"iw","suitability":[{"type":"Handiwork","level":1},{"type":"Farming","level":2}],"drops":["Wool"],"aura":{"name":"Fluffy Shield","description":"d"},"description":"x"}],"page":1,"limit":1,"count":1,"total":1}"#;

fn message(text: &str) -> Event {
    Event::Message(text.to_string())
}

fn reply(text: &str) -> Action {
    Action::Reply { text: text.to_string(), cause: None }
}

fn error_reply(text: &str, cause: LookupError) -> Action {
    Action::Reply { text: text.to_string(), cause: Some(cause) }
}

/// Drives the machine with the given events and returns every action.
fn run(events: Vec<Event>) -> (Stage, Vec<Action>) {
    let mut stage = Stage::Waiting;
    let mut actions = Vec::new();
    for event in &events {
        let (next, action) = advance(stage, event, BASE);
        stage = next;
        actions.push(action);
    }
    (stage, actions)
}

#[test]
fn ping_is_answered_with_pong() {
    let (stage, actions) = run(vec![message("!ping"), Event::ReplySent]);
    assert_eq!(stage, Stage::Done);
    assert_eq!(actions, vec![reply("Pong!"), Action::Nothing]);
}

#[test]
fn other_text_gets_no_reply() {
    assert_eq!(advance(Stage::Waiting, &message("hello"), BASE), (Stage::Done, Action::Nothing));
    assert_eq!(advance(Stage::Waiting, &message(""), BASE), (Stage::Done, Action::Nothing));
}

#[test]
fn a_lookup_without_a_name_is_answered_with_the_usage() {
    assert_eq!(
        advance(Stage::Waiting, &message("!pal"), BASE),
        (Stage::Replying, reply("Usage: !pal <name>"))
    );
}

#[test]
fn a_lookup_runs_from_message_to_reply() {
    let (stage, actions) = run(vec![
        message("!pal Lamball"),
        Event::Status(200),
        Event::Body(LAMBALL.to_vec()),
        Event::ReplySent,
    ]);
    assert_eq!(stage, Stage::Done);
    assert_eq!(
        actions,
        vec![
            Action::Fetch("http://localhost:8080/?name=Lamball".to_string()),
            Action::ReadBody,
            reply("Pal: Lamball, Types: Normal, Suitabilities: Handiwork, Farming"),
            Action::Nothing,
        ]
    );
}

#[test]
fn the_name_is_escaped_in_the_request() {
    assert_eq!(
        advance(Stage::Waiting, &message("!pal a&b=c more"), "https://pals.example"),
        (Stage::AwaitingStatus, Action::Fetch("https://pals.example/?name=a%26b%3Dc".to_string()))
    );
}

#[test]
fn status_401_is_answered_without_reading_the_body() {
    assert_eq!(
        advance(Stage::AwaitingStatus, &Event::Status(401), BASE),
        (
            Stage::Replying,
            error_reply("The lookup is temporarily unavailable.", LookupError::AuthRequired)
        )
    );
}

#[test]
fn status_500_is_answered_and_handling_goes_on() {
    let (stage, actions) = run(vec![message("!pal Lamball"), Event::Status(500), Event::ReplySent]);
    assert_eq!(stage, Stage::Done);
    assert_eq!(
        actions[1],
        error_reply(
            "The lookup failed: the data service gave an unexpected answer.",
            LookupError::UnexpectedStatus(500)
        )
    );
    assert_eq!(
        advance(Stage::Waiting, &message("!ping"), BASE),
        (Stage::Replying, reply("Pong!"))
    );
}

#[test]
fn a_failed_request_is_answered() {
    for stage in [Stage::AwaitingStatus, Stage::AwaitingBody] {
        assert_eq!(
            advance(stage, &Event::TransportFailed, BASE),
            (
                Stage::Replying,
                error_reply(
                    "The lookup failed: the data service could not be reached.",
                    LookupError::TransportFailure
                )
            )
        );
    }
}

#[test]
fn a_body_of_another_shape_is_answered() {
    assert_eq!(
        advance(Stage::AwaitingBody, &Event::Body(b"{}".to_vec()), BASE),
        (
            Stage::Replying,
            error_reply(
                "The answer of the data service could not be parsed.",
                LookupError::ShapeMismatch
            )
        )
    );
    let empty = br#"{"content":[],"page":1,"limit":1,"count":0,"total":0}"#;
    assert_eq!(
        advance(Stage::AwaitingBody, &Event::Body(empty.to_vec()), BASE),
        (Stage::Replying, error_reply("No match.", LookupError::NotFound))
    );
}

#[test]
fn a_reply_that_fails_is_reported_once() {
    let (stage, actions) = run(vec![message("!ping"), Event::ReplyFailed, Event::ReplyFailed]);
    assert_eq!(stage, Stage::Done);
    assert_eq!(actions, vec![reply("Pong!"), Action::ReportReplyFailure, Action::Nothing]);
}

fn every_event() -> Vec<Event> {
    vec![
        message("!ping"),
        message("!pal Lamball"),
        message("hello"),
        Event::TransportFailed,
        Event::Status(200),
        Event::Status(401),
        Event::Status(500),
        Event::Body(LAMBALL.to_vec()),
        Event::Body(vec![]),
        Event::ReplySent,
        Event::ReplyFailed,
    ]
}

fn rank(stage: Stage) -> u8 {
    match stage {
        Stage::Waiting => 4,
        Stage::AwaitingStatus => 3,
        Stage::AwaitingBody => 2,
        Stage::Replying => 1,
        Stage::Done => 0,
    }
}

#[test]
fn every_event_brings_the_end_nearer() {
    for stage in [Stage::Waiting, Stage::AwaitingStatus, Stage::AwaitingBody, Stage::Replying] {
        for event in every_event() {
            let (next, _) = advance(stage, &event, BASE);
            assert!(rank(next) < rank(stage));
        }
    }
}

#[test]
fn nothing_happens_after_the_end() {
    for event in every_event() {
        assert_eq!(advance(Stage::Done, &event, BASE), (Stage::Done, Action::Nothing));
    }
}

#[test]
fn a_body_is_read_after_status_200_only() {
    for stage in
        [Stage::Waiting, Stage::AwaitingStatus, Stage::AwaitingBody, Stage::Replying, Stage::Done]
    {
        for event in every_event() {
            let (next, action) = advance(stage, &event, BASE);
            let expected = stage == Stage::AwaitingStatus && event == Event::Status(200);
            assert_eq!(action == Action::ReadBody, expected);
            assert_eq!(next == Stage::AwaitingBody, expected);
        }
    }
}

#[test]
fn an_event_out_of_turn_ends_the_handling() {
    assert_eq!(advance(Stage::Waiting, &Event::Status(200), BASE), (Stage::Done, Action::Nothing));
    assert_eq!(
        advance(Stage::AwaitingStatus, &Event::Body(LAMBALL.to_vec()), BASE),
        (Stage::Done, Action::Nothing)
    );
    assert_eq!(
        advance(Stage::AwaitingBody, &Event::Status(200), BASE),
        (Stage::Done, Action::Nothing)
    );
    assert_eq!(advance(Stage::Replying, &message("!ping"), BASE), (Stage::Done, Action::Nothing));
}

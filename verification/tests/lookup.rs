use palbot::{
    check_status, format_output, interpret, lookup_result, project, APIResponse, Aura, Content,
    Json, LookupError, Suitability,
};

fn entry(name: &str, types: &[&str], kinds: &[&str]) -> Content {
    Content {
        id: 7,
        key: "007".to_string(),
        image: "i".to_string(),
        name: name.to_string(),
        wiki: "w".to_string(),
        types: types.iter().map(|t| t.to_string()).collect(),
        image_wiki: "iw".to_string(),
        suitability: kinds
            .iter()
            .map(|k| Suitability { type_field: k.to_string(), level: 1 })
            .collect(),
        drops: vec![],
        aura: Aura { name: "a".to_string(), description: "d".to_string() },
        description: "x".to_string(),
    }
}

fn answer(content: Vec<Content>) -> APIResponse {
    APIResponse { content, page: 1, limit: 1, count: 1, total: 1 }
}

const LAMBALL: &[u8] = br#"{"content":[{"id":1,"key":"001","image":"i","name":"Lamball","wiki":"w","types":["Normal"],"imageWiki":"iw","suitability":[{"type":"Handiwork","level":1},{"type":"Farming","level":2}],"drops":["Wool"],"aura":{"name":"Fluffy Shield","description":"d"},"description":"x"}],"page":1,"limit":1,"count":1,"total":1}"#;

#[test]
fn a_found_entry_gives_its_display_line() {
    assert_eq!(
        lookup_result(200, LAMBALL),
        Ok("Pal: Lamball, Types: Normal, Suitabilities: Handiwork, Farming".to_string())
    );
}

#[test]
fn an_empty_answer_is_a_miss() {
    let body = br#"{"content":[],"page":1,"limit":1,"count":0,"total":0}"#;
    assert_eq!(lookup_result(200, body), Err(LookupError::NotFound));
    assert_eq!(project(&answer(vec![])), Err(LookupError::NotFound));
}

#[test]
fn status_401_asks_for_a_credential() {
    assert_eq!(lookup_result(401, b""), Err(LookupError::AuthRequired));
    assert_eq!(lookup_result(401, LAMBALL), Err(LookupError::AuthRequired));
    assert_eq!(check_status(401), Err(LookupError::AuthRequired));
}

#[test]
fn another_status_is_reported_with_its_code() {
    assert_eq!(lookup_result(500, b""), Err(LookupError::UnexpectedStatus(500)));
    assert_eq!(lookup_result(500, LAMBALL), Err(LookupError::UnexpectedStatus(500)));
    for status in [0u16, 100, 199, 201, 204, 301, 400, 403, 404, 418, 503, u16::MAX] {
        assert_eq!(check_status(status), Err(LookupError::UnexpectedStatus(status)));
        assert_eq!(lookup_result(status, LAMBALL), Err(LookupError::UnexpectedStatus(status)));
    }
    assert_eq!(check_status(200), Ok(()));
}

#[test]
fn a_first_entry_without_id_is_a_shape_mismatch() {
    let body = String::from_utf8(LAMBALL.to_vec()).unwrap().replace("\"id\":1,", "");
    assert_eq!(lookup_result(200, body.as_bytes()), Err(LookupError::ShapeMismatch));
}

#[test]
fn a_body_that_is_no_json_is_a_shape_mismatch() {
    assert_eq!(lookup_result(200, b""), Err(LookupError::ShapeMismatch));
    assert_eq!(lookup_result(200, b"Service Unavailable"), Err(LookupError::ShapeMismatch));
    assert_eq!(lookup_result(200, &LAMBALL[..LAMBALL.len() - 1]), Err(LookupError::ShapeMismatch));
}

#[test]
fn only_the_first_entry_is_shown() {
    let two = answer(vec![entry("Cattiva", &["Normal"], &["Mining"]), entry("Lamball", &[], &[])]);
    assert_eq!(project(&two), Ok("Pal: Cattiva, Types: Normal, Suitabilities: Mining".to_string()));
}

#[test]
fn lists_are_joined_with_comma_and_space() {
    let parsed = answer(vec![entry("Jetragon", &["Dragon", "Fire", "Ice"], &["Gathering"])]);
    let mut output = String::from("temp");
    assert_eq!(format_output(&parsed, &mut output), Ok(()));
    assert_eq!(output, "Pal: Jetragon, Types: Dragon, Fire, Ice, Suitabilities: Gathering");
}

#[test]
fn empty_lists_leave_nothing_behind_their_label() {
    let parsed = answer(vec![entry("Egg", &[], &[])]);
    let mut output = String::new();
    assert_eq!(format_output(&parsed, &mut output), Ok(()));
    assert_eq!(output, "Pal: Egg, Types: , Suitabilities: ");
    let blanks = answer(vec![entry("", &["", ""], &["", "", ""])]);
    assert_eq!(format_output(&blanks, &mut output), Ok(()));
    assert_eq!(output, "Pal: , Types: , , Suitabilities: , , ");
}

#[test]
fn formatting_an_answer_without_entries_is_a_miss() {
    let empty = APIResponse { content: vec![], page: 1, limit: 1, count: 0, total: 0 };
    let mut output = String::from("temp");
    assert_eq!(format_output(&empty, &mut output), Err(LookupError::NotFound));
    assert_eq!(output, "temp");
    let mut blank = String::new();
    assert_eq!(format_output(&APIResponse::default(), &mut blank), Err(LookupError::NotFound));
    assert_eq!(blank, "");
}

#[test]
fn only_a_missing_entry_is_a_miss() {
    let mut odd = answer(vec![entry("", &[], &[])]);
    odd.page = 0;
    odd.limit = -1;
    odd.count = 0;
    odd.total = i64::MIN;
    let mut output = String::new();
    assert_eq!(format_output(&odd, &mut output), Ok(()));
    assert_eq!(output, "Pal: , Types: , Suitabilities: ");
    assert_eq!(project(&odd), Ok("Pal: , Types: , Suitabilities: ".to_string()));
    odd.content.clear();
    assert_eq!(format_output(&odd, &mut output), Err(LookupError::NotFound));
    assert_eq!(project(&odd), Err(LookupError::NotFound));
}

#[test]
fn a_parsed_tree_is_interpreted_like_its_text() {
    let tree = answer(vec![entry("Lamball", &["Normal"], &["Handiwork", "Farming"])]).to_json();
    assert_eq!(
        interpret(200, Some(tree)),
        Ok("Pal: Lamball, Types: Normal, Suitabilities: Handiwork, Farming".to_string())
    );
    assert_eq!(interpret(200, None), Err(LookupError::ShapeMismatch));
    assert_eq!(interpret(200, Some(Json::Array(vec![]))), Err(LookupError::ShapeMismatch));
    assert_eq!(interpret(200, Some(answer(vec![]).to_json())), Err(LookupError::NotFound));
    assert_eq!(interpret(401, Some(answer(vec![]).to_json())), Err(LookupError::AuthRequired));
    assert_eq!(interpret(404, None), Err(LookupError::UnexpectedStatus(404)));
}

#[test]
fn every_error_has_its_own_text() {
    let errors = [
        LookupError::TransportFailure,
        LookupError::AuthRequired,
        LookupError::UnexpectedStatus(500),
        LookupError::ShapeMismatch,
        LookupError::NotFound,
    ];
    for (i, a) in errors.iter().enumerate() {
        assert!(!a.message().is_empty());
        for b in &errors[i + 1..] {
            assert_ne!(a.message(), b.message());
        }
    }
    assert_eq!(LookupError::AuthRequired.message(), "The lookup is temporarily unavailable.");
    assert_eq!(LookupError::NotFound.message(), "No match.");
    assert_eq!(
        LookupError::ShapeMismatch.message(),
        "The answer of the data service could not be parsed."
    );
    assert_eq!(
        LookupError::TransportFailure.message(),
        "The lookup failed: the data service could not be reached."
    );
    assert_eq!(
        LookupError::UnexpectedStatus(502).message(),
        "The lookup failed: the data service gave an unexpected answer."
    );
}

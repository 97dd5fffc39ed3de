use bakeit::json::{try_parse_response, ResponseBody};
use bakeit::response::{interpret_response, upload_outcome, UploadError, SERVER_ERROR, TOO_LARGE};

fn body(url: Option<&str>, error_msg: Option<&str>) -> ResponseBody {
    ResponseBody { url: url.map(String::from), error_msg: error_msg.map(String::from) }
}

#[test]
fn parse_reads_the_url_of_an_object() {
    let parsed = try_parse_response("{\"url\": \"https://www.pastery.net/abcdef/\"}");
    assert_eq!(parsed, Some(body(Some("https://www.pastery.net/abcdef/"), None)));
}

#[test]
fn parse_reads_the_error_message_of_an_object() {
    let parsed = try_parse_response("{\"error_msg\":\"bad language\"}");
    assert_eq!(parsed, Some(body(None, Some("bad language"))));
}

#[test]
fn parse_reads_both_members_among_others() {
    let text = "{\"id\": \"abc\", \"duration\": 60, \"url\": \"u\", \"error_msg\": \"e\", \"x\": [1, 2]}";
    assert_eq!(try_parse_response(text), Some(body(Some("u"), Some("e"))));
}

#[test]
fn parse_of_an_empty_object_finds_nothing() {
    assert_eq!(try_parse_response("{}"), Some(body(None, None)));
}

#[test]
fn parse_unescapes_strings() {
    let parsed = try_parse_response("{\"error_msg\": \"a \\\"b\\\" \\u00e9\\n\"}");
    assert_eq!(parsed, Some(body(None, Some("a \"b\" \u{e9}\n"))));
}

#[test]
fn parse_passes_over_members_that_are_no_strings() {
    assert_eq!(try_parse_response("{\"url\": 5, \"error_msg\": null}"), Some(body(None, None)));
    assert_eq!(try_parse_response("{\"url\": {\"url\": \"nested\"}}"), Some(body(None, None)));
}

#[test]
fn parse_refuses_what_is_no_json() {
    assert_eq!(try_parse_response(""), None);
    assert_eq!(try_parse_response("<html>"), None);
    assert_eq!(try_parse_response("{\"url\": "), None);
    assert_eq!(try_parse_response("{\"url\": \"u\"} trailing"), None);
}

#[test]
fn parse_refuses_json_that_is_no_object() {
    assert_eq!(try_parse_response("[1, 2]"), None);
    assert_eq!(try_parse_response("\"url\""), None);
    assert_eq!(try_parse_response("null"), None);
    assert_eq!(try_parse_response("42"), None);
}

#[test]
fn server_errors_are_reported_for_500_to_599() {
    for status in vec![500, 501, 503, 550, 599] {
        assert_eq!(upload_outcome(status, None), Err(UploadError::ServerError));
        assert_eq!(interpret_response(status, "not json".as_bytes()), Some(Err(UploadError::ServerError)));
        assert_eq!(
            interpret_response(status, "{\"url\": \"u\"}".as_bytes()),
            Some(Err(UploadError::ServerError))
        );
    }
}

#[test]
fn statuses_next_to_the_server_errors_read_the_body() {
    assert_eq!(interpret_response(499, "{\"url\": \"u\"}".as_bytes()), Some(Ok(body(Some("u"), None))));
    assert_eq!(interpret_response(600, "{\"url\": \"u\"}".as_bytes()), Some(Ok(body(Some("u"), None))));
    assert_eq!(interpret_response(499, "nothing".as_bytes()), None);
    assert_eq!(interpret_response(600, "nothing".as_bytes()), None);
}

#[test]
fn too_large_is_reported_whatever_the_body_holds() {
    let bodies =
        vec!["", "not json", "{\"error_msg\":\"other\"}", "{\"url\":\"u\"}", "[]", "\u{0}"];
    for text in bodies {
        let outcome = interpret_response(413, text.as_bytes());
        assert_eq!(outcome, Some(Err(UploadError::TooLarge)));
        assert_eq!(
            outcome.unwrap().unwrap_err().message(),
            "The chosen file was rejected by the server because it was too large, please try a smaller file."
        );
    }
    assert_eq!(upload_outcome(413, None), Err(UploadError::TooLarge));
    assert_eq!(upload_outcome(413, Some(body(Some("u"), Some("e")))), Err(UploadError::TooLarge));
}

#[test]
fn rejection_reports_the_servers_words() {
    let outcome = interpret_response(422, "{\"error_msg\":\"bad language\"}".as_bytes());
    assert_eq!(outcome, Some(Err(UploadError::Rejected(String::from("bad language")))));
    assert_eq!(outcome.unwrap().unwrap_err().message(), "bad language");
}

#[test]
fn rejection_without_a_reason_cannot_be_read() {
    assert_eq!(interpret_response(422, "{}".as_bytes()), None);
    assert_eq!(interpret_response(422, "{\"url\": \"u\"}".as_bytes()), None);
    assert_eq!(interpret_response(422, "{\"error_msg\": 7}".as_bytes()), None);
    assert_eq!(interpret_response(422, "not json".as_bytes()), None);
    assert_eq!(interpret_response(422, "[\"error_msg\"]".as_bytes()), None);
}

#[test]
fn success_hands_out_the_body() {
    let outcome = interpret_response(200, "{\"url\": \"https://www.pastery.net/xyz/\"}".as_bytes());
    assert_eq!(outcome, Some(Ok(body(Some("https://www.pastery.net/xyz/"), None))));
    let created = interpret_response(201, "{\"url\": \"u\", \"error_msg\": \"e\"}".as_bytes());
    assert_eq!(created, Some(Ok(body(Some("u"), Some("e")))));
}

#[test]
fn success_without_a_url_is_still_a_body() {
    assert_eq!(interpret_response(200, "{}".as_bytes()), Some(Ok(body(None, None))));
}

#[test]
fn other_statuses_are_read_like_success() {
    for status in vec![0, 100, 204, 301, 400, 404, 412, 414, 421, 423] {
        assert_eq!(
            interpret_response(status, "{\"url\": \"u\"}".as_bytes()),
            Some(Ok(body(Some("u"), None)))
        );
        assert_eq!(interpret_response(status, "<h1>Not found</h1>".as_bytes()), None);
    }
}

#[test]
fn outcome_of_a_body_that_was_read() {
    assert_eq!(upload_outcome(200, Some(body(Some("u"), None))), Ok(body(Some("u"), None)));
    assert_eq!(upload_outcome(404, Some(body(None, None))), Ok(body(None, None)));
    assert_eq!(
        upload_outcome(422, Some(body(Some("u"), Some("bad language")))),
        Err(UploadError::Rejected(String::from("bad language")))
    );
    assert_eq!(upload_outcome(599, Some(body(Some("u"), None))), Err(UploadError::ServerError));
}

#[test]
fn messages_of_the_errors() {
    assert_eq!(
        UploadError::ServerError.message(),
        "There was a server error, please try again later."
    );
    assert_eq!(UploadError::ServerError.message(), SERVER_ERROR);
    assert_eq!(UploadError::TooLarge.message(), TOO_LARGE);
    assert_eq!(UploadError::Rejected(String::from("why")).message(), "why");
    assert_eq!(UploadError::Rejected(String::new()).message(), "");
}

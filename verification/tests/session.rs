use bakeit::request::PostRequest;
use bakeit::session::{step, Action, Args, Event, State, VERSION};

fn args(filename: Option<&str>) -> Args {
    Args {
        filename: filename.map(String::from),
        title: None,
        lang: None,
        duration: 60,
        max_views: 0,
        open_browser: false,
        version: false,
    }
}

fn exit(line: &str, code: i32) -> Option<Action> {
    Some(Action::Exit { line: String::from(line), code })
}

fn answered(status: u32, body: &str) -> Event {
    Event::Answered { status, body: Vec::from(body.as_bytes()) }
}

#[test]
fn version_is_printed_before_anything_is_read() {
    let mut asked = args(Some("paste.txt"));
    asked.version = true;
    let (state, action) = step(State::Start { args: asked }, Event::Begin);
    assert_eq!(state, State::End);
    assert_eq!(action, exit("bakeit 0.1.0", 0));
    assert_eq!(VERSION, "0.1.0");
}

#[test]
fn version_wins_over_every_other_flag() {
    let asked = Args {
        filename: None,
        title: Some(String::from("t")),
        lang: Some(String::from("rust")),
        duration: -3,
        max_views: 9,
        open_browser: true,
        version: true,
    };
    let (state, action) = step(State::Start { args: asked }, Event::Begin);
    assert_eq!(state, State::End);
    assert_eq!(action, exit("bakeit 0.1.0", 0));
}

#[test]
fn a_named_file_is_read_first() {
    let (state, action) = step(State::Start { args: args(Some("paste.txt")) }, Event::Begin);
    assert_eq!(state, State::ReadInput { args: args(Some("paste.txt")) });
    assert_eq!(action, Some(Action::ReadFile { name: String::from("paste.txt") }));
}

#[test]
fn standard_input_is_read_where_no_file_is_named() {
    let (state, action) = step(State::Start { args: args(None) }, Event::Begin);
    assert_eq!(state, State::ReadInput { args: args(None) });
    assert_eq!(
        action,
        Some(Action::ReadStdin {
            prompt: String::from("Type your paste and press end-of-input to upload.")
        })
    );
}

#[test]
fn the_configuration_is_read_after_the_text() {
    let (state, action) =
        step(State::ReadInput { args: args(None) }, Event::InputRead(String::from("hello")));
    assert_eq!(state, State::LoadConfig { args: args(None), text: String::from("hello") });
    assert_eq!(action, Some(Action::ReadConfig { path: String::from(".config/bakeit.cfg") }));
}

#[test]
fn a_read_error_ends_the_run_with_its_message() {
    let failed = Event::InputFailed(String::from("No such file or directory (os error 2)"));
    let (state, action) = step(State::ReadInput { args: args(Some("missing.txt")) }, failed);
    assert_eq!(state, State::End);
    assert_eq!(action, exit("No such file or directory (os error 2)", 1));
}

#[test]
fn a_missing_configuration_ends_the_run_with_guidance() {
    let waiting = State::LoadConfig { args: args(None), text: String::from("hello") };
    let (state, action) = step(waiting, Event::ConfigMissing);
    assert_eq!(state, State::End);
    assert_eq!(
        action,
        exit(
            "Config file not found. Make sure you have a config file at ~/.config/bakeit.cfg with a [pastery] section containing your Pastery API key, which you can get from your https://www.pastery.net account page.",
            1
        )
    );
}

#[test]
fn a_configuration_without_the_section_ends_the_run_with_guidance() {
    let waiting = State::LoadConfig { args: args(None), text: String::from("hello") };
    let (state, action) = step(waiting, Event::ConfigRead(String::from("[server]\nkey = 1\n")));
    assert_eq!(state, State::End);
    match action {
        Some(Action::Exit { line, code }) => {
            assert!(line.contains("[pastery] section"));
            assert_ne!(code, 0);
            assert_eq!(code, 1);
        }
        other => panic!("unexpected action {:?}", other),
    }
}

#[test]
fn a_configuration_without_the_key_ends_the_run_with_guidance() {
    let waiting = State::LoadConfig { args: args(None), text: String::from("hello") };
    let (state, action) = step(waiting, Event::ConfigRead(String::from("[pastery]\n")));
    assert_eq!(state, State::End);
    assert_eq!(
        action,
        exit(
            "No api_key entry found. Please add an api_key entry to the [pastery] section with your API key in it. You can find the latter on your account page on https://www.pastery.net.",
            1
        )
    );
}

#[test]
fn the_upload_follows_the_configuration() {
    let asked = Args {
        filename: Some(String::from("main.rs")),
        title: Some(String::from("T1")),
        lang: Some(String::from("rust")),
        duration: 30,
        max_views: 5,
        open_browser: true,
        version: false,
    };
    let waiting = State::LoadConfig { args: asked, text: String::from("fn main() {}") };
    let (state, action) =
        step(waiting, Event::ConfigRead(String::from("[pastery]\napi_key = KEY\n")));
    assert_eq!(state, State::Upload);
    assert_eq!(
        action,
        Some(Action::Post {
            notice: String::from("Uploading to Pastery..."),
            request: PostRequest {
                url: String::from(
                    "https://www.pastery.net/api/paste/?api_key=KEY&title=T1&language=rust&duration=30&max_views=5"
                ),
                header: String::from("User-Agent: 'Mozilla/5.0 (Rust) bakeit library"),
                body: String::from("fn main() {}"),
            },
        })
    );
}

#[test]
fn a_configuration_behind_a_byte_order_mark_is_read() {
    let waiting = State::LoadConfig { args: args(None), text: String::from("x") };
    let marked = Event::ConfigRead(String::from("\u{feff}[pastery]\napi_key = K\n"));
    let (state, action) = step(waiting, marked);
    assert_eq!(state, State::Upload);
    assert!(matches!(action, Some(Action::Post { .. })));
}

#[test]
fn the_default_duration_is_sent() {
    let waiting = State::LoadConfig { args: args(None), text: String::from("x") };
    let (_, action) = step(waiting, Event::ConfigRead(String::from("[pastery]\napi_key = K\n")));
    match action {
        Some(Action::Post { request, .. }) => {
            assert_eq!(request.url, "https://www.pastery.net/api/paste/?api_key=K&duration=60");
        }
        other => panic!("unexpected action {:?}", other),
    }
}

#[test]
fn success_prints_the_address_of_the_paste() {
    let body = "{\"url\": \"https://www.pastery.net/abcdef/\", \"id\": \"abcdef\"}";
    let (state, action) = step(State::Upload, answered(200, body));
    assert_eq!(state, State::End);
    assert_eq!(action, exit("Paste URL: https://www.pastery.net/abcdef/", 0));
}

#[test]
fn a_server_error_ends_the_run_with_its_line() {
    let (state, action) = step(State::Upload, answered(502, "<html>Bad gateway</html>"));
    assert_eq!(state, State::End);
    assert_eq!(action, exit("There was a server error, please try again later.", 1));
}

#[test]
fn a_text_too_large_ends_the_run_with_its_line() {
    let (state, action) = step(State::Upload, answered(413, "{\"url\": \"u\"}"));
    assert_eq!(state, State::End);
    assert_eq!(
        action,
        exit(
            "The chosen file was rejected by the server because it was too large, please try a smaller file.",
            1
        )
    );
}

#[test]
fn a_rejection_ends_the_run_with_the_servers_words() {
    let (state, action) = step(State::Upload, answered(422, "{\"error_msg\":\"bad language\"}"));
    assert_eq!(state, State::End);
    assert_eq!(action, exit("bad language", 1));
}

#[test]
fn an_answer_without_an_address_stops_the_run() {
    let (state, action) = step(State::Upload, answered(200, "{\"id\": \"abcdef\"}"));
    assert_eq!(state, State::End);
    assert_eq!(
        action,
        Some(Action::Abort { diagnostic: String::from("URL not found in response.") })
    );
}

#[test]
fn an_answer_that_is_no_json_object_stops_the_run() {
    for (status, body) in vec![(200, "<html>"), (200, "[1]"), (422, "{}"), (404, "")] {
        let (state, action) = step(State::Upload, answered(status, body));
        assert_eq!(state, State::End);
        assert!(matches!(action, Some(Action::Abort { .. })));
    }
}

#[test]
fn a_fixed_failure_is_reported_whatever_bytes_came() {
    let garbage = Event::Answered { status: 413, body: vec![0xff, 0xfe, 0x00] };
    let (state, action) = step(State::Upload, garbage);
    assert_eq!(state, State::End);
    assert_eq!(
        action,
        exit(
            "The chosen file was rejected by the server because it was too large, please try a smaller file.",
            1
        )
    );
    let failed = Event::Answered { status: 503, body: vec![0x80] };
    let (_, action) = step(State::Upload, failed);
    assert_eq!(action, exit("There was a server error, please try again later.", 1));
}

#[test]
fn bytes_that_are_no_text_stop_the_run_where_the_body_is_read() {
    for status in vec![200, 404, 422] {
        let (state, action) =
            step(State::Upload, Event::Answered { status, body: vec![0xff, 0xfe] });
        assert_eq!(state, State::End);
        assert!(matches!(action, Some(Action::Abort { .. })));
    }
}

#[test]
fn a_body_beyond_the_bounds_of_the_parser_stops_the_run() {
    let (state, action) = step(State::Upload, answered(200, "[{\"x\":{\"a\":1,},\"y\":2}]"));
    assert_eq!(state, State::End);
    assert!(matches!(action, Some(Action::Abort { .. })));
    let deep = "[".repeat(100000);
    let (_, action) = step(State::Upload, answered(200, &deep));
    assert!(matches!(action, Some(Action::Abort { .. })));
}

#[test]
fn an_event_that_is_no_answer_changes_nothing() {
    let (state, action) = step(State::Start { args: args(None) }, Event::ConfigMissing);
    assert_eq!(state, State::Start { args: args(None) });
    assert_eq!(action, None);
    let (state, action) = step(State::ReadInput { args: args(None) }, Event::Begin);
    assert_eq!(state, State::ReadInput { args: args(None) });
    assert_eq!(action, None);
    let waiting = State::LoadConfig { args: args(None), text: String::from("t") };
    let (state, action) = step(waiting.clone(), answered(200, "{}"));
    assert_eq!(state, waiting);
    assert_eq!(action, None);
    let (state, action) = step(State::Upload, Event::InputRead(String::from("t")));
    assert_eq!(state, State::Upload);
    assert_eq!(action, None);
}

#[test]
fn nothing_follows_the_end() {
    let events = vec![
        Event::Begin,
        Event::InputRead(String::from("t")),
        Event::InputFailed(String::from("e")),
        Event::ConfigRead(String::from("[pastery]\napi_key = k\n")),
        Event::ConfigMissing,
        answered(200, "{\"url\": \"u\"}"),
    ];
    for event in events {
        let (state, action) = step(State::End, event);
        assert_eq!(state, State::End);
        assert_eq!(action, None);
    }
}

#[test]
fn a_whole_run_prints_one_result() {
    let mut state = State::Start { args: args(Some("notes.txt")) };
    let answers = vec![
        Event::Begin,
        Event::InputRead(String::from("some notes")),
        Event::ConfigRead(String::from("[pastery]\napi_key = secret\n")),
        answered(200, "{\"url\": \"https://www.pastery.net/qwerty/\"}"),
    ];
    let mut last = Vec::new();
    for event in answers {
        let (next, action) = step(state, event);
        state = next;
        match action {
            Some(Action::Exit { line, code }) => last.push((line, code)),
            Some(Action::Abort { diagnostic }) => panic!("aborted: {}", diagnostic),
            Some(_) => assert_ne!(state, State::End),
            None => panic!("an answer was not taken"),
        }
    }
    assert_eq!(state, State::End);
    assert_eq!(last, vec![(String::from("Paste URL: https://www.pastery.net/qwerty/"), 0)]);
}

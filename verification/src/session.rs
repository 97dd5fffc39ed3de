//! The command-line front end as a state machine: each step takes what the
//! outside world answered and decides what is done next.

use crate::config::{
    credential_of, read_config, unmarked, ConfigError, CONFIG_PATH, NOT_FOUND,
};
use crate::request::{
    request_pairs, request_url, text_of, PostRequest, UploadRequest, USER_AGENT,
};
use crate::response::{
    answer_body, interpret_response, is_server_error, readable, reads_body, SERVER_ERROR,
    TOO_LARGE,
};
use vstd::prelude::*;

verus! {

/// The version that `--version` reports.
pub const VERSION: &'static str = "0.1.0";

/// What stands before the version in the line that `--version` prints.
pub const VERSION_PREFIX: &'static str = "bakeit ";

/// The line that asks for a paste on standard input.
pub const PROMPT: &'static str = "Type your paste and press end-of-input to upload.";

/// The line that is printed before the upload starts.
pub const NOTICE: &'static str = "Uploading to Pastery...";

/// What stands before the address in the last line of a successful run.
pub const URL_PREFIX: &'static str = "Paste URL: ";

/// The diagnostic for an answer without an address.
pub const URL_MISSING: &'static str = "URL not found in response.";

/// The diagnostic for an answer whose body cannot be interpreted.
pub const UNREADABLE: &'static str = "The response is not the JSON object that was expected.";

/// What the command line asked for.
#[derive(Clone, Debug, PartialEq, Eq)]
pub struct Args {
    /// The file to upload; standard input where there is none.
    pub filename: Option<String>,
    pub title: Option<String>,
    pub lang: Option<String>,
    pub duration: i32,
    pub max_views: i32,
    /// Accepted, and without effect.
    pub open_browser: bool,
    pub version: bool,
}

/// Where a run stands.
#[derive(Clone, Debug, PartialEq, Eq)]
pub enum State {
    /// Nothing has been done yet.
    Start { args: Args },
    /// The text of the paste is being read.
    ReadInput { args: Args },
    /// The configuration file is being read; `text` is the paste.
    LoadConfig { args: Args, text: String },
    /// The request has been sent.
    Upload,
    /// The run is over.
    End,
}

/// What the outside world answered to the last action.
#[derive(Clone, Debug, PartialEq, Eq)]
pub enum Event {
    /// The run begins.
    Begin,
    /// The text of the paste, from the file or from standard input.
    InputRead(String),
    /// The text could not be read; the message of the I/O error.
    InputFailed(String),
    /// The text of the configuration file.
    ConfigRead(String),
    /// There is no configuration file that can be read.
    ConfigMissing,
    /// The server's answer: the status and the bytes of the body.
    Answered { status: u32, body: Vec<u8> },
}

/// What the front end does next.
#[derive(Clone, Debug, PartialEq, Eq)]
pub enum Action {
    /// Read the named file as the text of the paste.
    ReadFile { name: String },
    /// Print the prompt and read standard input to its end.
    ReadStdin { prompt: String },
    /// Read the configuration file at `path` below the home directory.
    ReadConfig { path: String },
    /// Print the notice and send the request.
    Post { notice: String, request: PostRequest },
    /// Print the line and leave with the exit code.
    Exit { line: String, code: i32 },
    /// Stop at once with the diagnostic.
    Abort { diagnostic: String },
}

/// The line that `--version` prints.
pub open spec fn version_line() -> Seq<char> {
    VERSION_PREFIX@ + VERSION@
}

/// The last line of a successful run.
pub open spec fn url_line(url: Seq<char>) -> Seq<char> {
    URL_PREFIX@ + url
}

/// Whether the action prints `line` and leaves with `code`.
pub open spec fn exits(action: Option<Action>, line: Seq<char>, code: int) -> bool {
    action matches Some(Action::Exit { line: l, code: c }) && l@ == line && c == code
}

/// Whether the action stops the run with `diagnostic`.
pub open spec fn aborts(action: Option<Action>, diagnostic: Seq<char>) -> bool {
    action matches Some(Action::Abort { diagnostic: d }) && d@ == diagnostic
}

/// Whether the action sends the paste `text` with the credential and what
/// the command line gave.
pub open spec fn posts(action: Option<Action>, args: Args, text: Seq<char>, api_key: Seq<char>) -> bool {
    &&& action matches Some(Action::Post { notice, request })
    &&& notice@ == NOTICE@
    &&& request.url@ == request_url(
        request_pairs(
            api_key,
            text_of(args.title),
            text_of(args.lang),
            args.duration as int,
            args.max_views as int,
        ),
    )
    &&& request.header@ == USER_AGENT@
    &&& request.body@ == text
}

/// What the first step does: `--version` ends the run before anything is
/// read; otherwise the paste is read from the file, or from standard input
/// where no file is named.
pub open spec fn begins(args: Args, out: (State, Option<Action>)) -> bool {
    if args.version {
        out.0 is End && exits(out.1, version_line(), 0)
    } else {
        &&& out.0 == (State::ReadInput { args })
        &&& match args.filename {
            Some(name) => out.1 == Some(Action::ReadFile { name }),
            None => out.1 matches Some(Action::ReadStdin { prompt }) && prompt@ == PROMPT@,
        }
    }
}

/// What follows the configuration text: the guidance for what is missing
/// in it, or the upload.
pub open spec fn configured(
    args: Args,
    text: String,
    config: Seq<char>,
    out: (State, Option<Action>),
) -> bool {
    match credential_of(unmarked(config)) {
        Ok(api_key) => out.0 is Upload && posts(out.1, args, text@, api_key),
        Err(error) => out.0 is End && exits(out.1, error.message_text(), 1),
    }
}

/// What follows the server's answer: the address of the paste, the line of
/// the failure, or the diagnostic where the answer is not what it must be.
pub open spec fn reported(status: u32, body: Seq<u8>, out: (State, Option<Action>)) -> bool {
    &&& out.0 is End
    &&& if !readable(status, answer_body(body)) {
        aborts(out.1, UNREADABLE@)
    } else if is_server_error(status) {
        exits(out.1, SERVER_ERROR@, 1)
    } else if status == 413 {
        exits(out.1, TOO_LARGE@, 1)
    } else if status == 422 {
        exits(out.1, answer_body(body)->0.error_msg->0, 1)
    } else {
        match answer_body(body)->0.url {
            Some(url) => exits(out.1, url_line(url), 0),
            None => aborts(out.1, URL_MISSING@),
        }
    }
}

/// Whether the event is an answer to what the state waits for.
pub open spec fn fits(state: State, event: Event) -> bool {
    match state {
        State::Start { .. } => event is Begin,
        State::ReadInput { .. } => event is InputRead || event is InputFailed,
        State::LoadConfig { .. } => event is ConfigRead || event is ConfigMissing,
        State::Upload => event is Answered,
        State::End => false,
    }
}

/// Whether the action ends the run.
pub open spec fn is_last(action: Action) -> bool {
    action is Exit || action is Abort
}

fn exit_with(line: String, code: i32) -> (out: (State, Option<Action>))
    ensures
        out.0 is End,
        exits(out.1, line@, code as int),
{
    (State::End, Some(Action::Exit { line, code }))
}

fn abort_with(diagnostic: &str) -> (out: (State, Option<Action>))
    ensures
        out.0 is End,
        aborts(out.1, diagnostic@),
{
    (State::End, Some(Action::Abort { diagnostic: String::from_str(diagnostic) }))
}

fn begin(args: Args) -> (out: (State, Option<Action>))
    ensures
        begins(args, out),
{
    if args.version {
        let mut line = String::from_str(VERSION_PREFIX);
        line.append(VERSION);
        exit_with(line, 0)
    } else {
        let action = match &args.filename {
            Some(name) => Action::ReadFile { name: name.clone() },
            None => Action::ReadStdin { prompt: String::from_str(PROMPT) },
        };
        (State::ReadInput { args }, Some(action))
    }
}

fn configure(args: Args, text: String, config: &str) -> (out: (State, Option<Action>))
    ensures
        configured(args, text, config@, out),
{
    match read_config(config) {
        Ok(found) => {
            let request = UploadRequest {
                text,
                api_key: found.api_key,
                title: args.title,
                language: args.lang,
                duration: args.duration,
                max_views: args.max_views,
            };
            let post = request.into_post();
            (State::Upload, Some(Action::Post { notice: String::from_str(NOTICE), request: post }))
        },
        Err(error) => exit_with(String::from_str(error.message()), 1),
    }
}

fn report(status: u32, body: &[u8]) -> (out: (State, Option<Action>))
    ensures
        reported(status, body@, out),
{
    match interpret_response(status, body) {
        None => abort_with(UNREADABLE),
        Some(Err(error)) => exit_with(error.message(), 1),
        Some(Ok(found)) => match found.url {
            Some(url) => {
                let mut line = String::from_str(URL_PREFIX);
                line.append(url.as_str());
                exit_with(line, 0)
            },
            None => abort_with(URL_MISSING),
        },
    }
}

/// What one step makes of a state and an event. An event that is no answer
/// to what the state waits for changes nothing and asks for nothing. Every
/// other step asks for one action, and the run is over exactly when that
/// action is the last one.
pub open spec fn steps(state: State, event: Event, out: (State, Option<Action>)) -> bool {
    &&& !fits(state, event) ==> out == (state, None::<Action>)
    &&& fits(state, event) ==> out.1 is Some && (out.0 is End <==> is_last(out.1->0))
    &&& match (state, event) {
        (State::Start { args }, Event::Begin) => begins(args, out),
        (State::ReadInput { args }, Event::InputRead(text)) => {
            &&& out.0 == (State::LoadConfig { args, text })
            &&& out.1 matches Some(Action::ReadConfig { path })
            &&& path@ == CONFIG_PATH@
        },
        (State::ReadInput { .. }, Event::InputFailed(message)) => {
            &&& out.0 is End
            &&& exits(out.1, message@, 1)
        },
        (State::LoadConfig { args, text }, Event::ConfigRead(config)) => configured(
            args,
            text,
            config@,
            out,
        ),
        (State::LoadConfig { .. }, Event::ConfigMissing) => {
            &&& out.0 is End
            &&& exits(out.1, NOT_FOUND@, 1)
        },
        (State::Upload, Event::Answered { status, body }) => reported(status, body@, out),
        _ => true,
    }
}

/// One step of a run: takes the answer to the last action and decides the
/// next one.
pub fn step(state: State, event: Event) -> (out: (State, Option<Action>))
    ensures
        steps(state, event, out),
{
    match state {
        State::Start { args } => match event {
            Event::Begin => begin(args),
            _ => (State::Start { args }, None),
        },
        State::ReadInput { args } => match event {
            Event::InputRead(text) => (
                State::LoadConfig { args, text },
                Some(Action::ReadConfig { path: String::from_str(CONFIG_PATH) }),
            ),
            Event::InputFailed(message) => exit_with(message, 1),
            _ => (State::ReadInput { args }, None),
        },
        State::LoadConfig { args, text } => match event {
            Event::ConfigRead(config) => configure(args, text, config.as_str()),
            Event::ConfigMissing => exit_with(String::from_str(ConfigError::NotFound.message()), 1),
            _ => (State::LoadConfig { args, text }, None),
        },
        State::Upload => match event {
            Event::Answered { status, body } => report(status, body.as_slice()),
            _ => (State::Upload, None),
        },
        State::End => (State::End, None),
    }
}

/// A step leaves with exit code zero in two cases only: at the start with
/// `--version`, where it prints the version, and on an answer whose status
/// is no failure and whose body holds an address, where it prints
/// `Paste URL: ` and that address.
pub proof fn lemma_success(state: State, event: Event, out: (State, Option<Action>))
    requires
        steps(state, event, out),
        out.1 matches Some(Action::Exit { code, .. }) && code == 0,
    ensures
        out.0 is End,
        match state {
            State::Start { args } => args.version && exits(out.1, version_line(), 0),
            State::Upload => {
                &&& event matches Event::Answered { status, body }
                &&& reads_body(status) && status != 422
                &&& answer_body(body@) matches Some(found)
                &&& found.url matches Some(url)
                &&& exits(out.1, url_line(url), 0)
            },
            _ => false,
        },
{
}

/// Whether the states, events and actions are those of a run: each state
/// with its event steps to the next state and the action.
pub open spec fn is_run(
    states: Seq<State>,
    events: Seq<Event>,
    actions: Seq<Option<Action>>,
) -> bool {
    &&& states.len() == events.len() + 1
    &&& actions.len() == events.len()
    &&& forall|i: int|
        0 <= i < events.len() ==> steps(states[i], #[trigger] events[i], (states[i + 1], actions[i]))
}

/// How many of the actions end a run.
pub open spec fn results(actions: Seq<Option<Action>>) -> nat
    decreases actions.len(),
{
    if actions.len() == 0 {
        0
    } else {
        results(actions.drop_last()) + if actions.last() matches Some(action) && is_last(action) {
            1nat
        } else {
            0nat
        }
    }
}

/// A run produces at most one result, whatever the outside world answers:
/// it has produced one exactly when it did not begin at the end and has come
/// to the end.
pub proof fn lemma_one_result(
    states: Seq<State>,
    events: Seq<Event>,
    actions: Seq<Option<Action>>,
)
    requires
        is_run(states, events, actions),
    ensures
        results(actions) <= 1,
        results(actions) == 1 <==> states.last() is End && !(states[0] is End),
        states[0] is End ==> states.last() is End,
    decreases events.len(),
{
    if events.len() > 0 {
        let n = events.len() - 1;
        let before = states.drop_last();
        assert forall|i: int| 0 <= i < n implies steps(
            before[i],
            #[trigger] events.drop_last()[i],
            (before[i + 1], actions.drop_last()[i]),
        ) by {
            assert(steps(states[i], events[i], (states[i + 1], actions[i])));
        }
        lemma_one_result(before, events.drop_last(), actions.drop_last());
        assert(steps(states[n], events[n], (states[n + 1], actions[n])));
        assert(before.last() == states[n]);
        assert(before[0] == states[0]);
    }
}

} // verus!

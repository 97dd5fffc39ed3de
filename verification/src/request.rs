//! The upload request: its query parameters, its URL and what is posted.

use crate::decimal::{decimal, decimal_string, lemma_decimal_digits};
use crate::form::{kept_text, lemma_kept_pair, pair_views, query_string, query_text, with_pair};
use vstd::prelude::*;

verus! {

/// The address that pastes are posted to.
pub const ENDPOINT: &'static str = "https://www.pastery.net/api/paste/";

/// The header line by which the client names itself.
pub const USER_AGENT: &'static str = "User-Agent: 'Mozilla/5.0 (Rust) bakeit library";

/// The view of an optional text.
pub open spec fn text_of(text: Option<String>) -> Option<Seq<char>> {
    match text {
        Some(t) => Some(t@),
        None => None,
    }
}

/// The pair of a parameter that is sent only where it has a value.
pub open spec fn optional_pair(name: Seq<char>, value: Option<Seq<char>>) -> Seq<(Seq<char>, Seq<char>)> {
    match value {
        Some(v) => seq![(name, v)],
        None => Seq::empty(),
    }
}

/// The value of a count that is sent only where it is positive.
pub open spec fn positive_decimal(n: int) -> Option<Seq<char>> {
    if n > 0 {
        Some(decimal(n))
    } else {
        None
    }
}

/// Whether some pair of the list has the given name.
pub open spec fn has_parameter(pairs: Seq<(Seq<char>, Seq<char>)>, name: Seq<char>) -> bool {
    exists|i: int| 0 <= i < pairs.len() && (#[trigger] pairs[i]).0 == name
}

/// Whether exactly one pair of the list has the given name, and that pair
/// the given value.
pub open spec fn sole_parameter(
    pairs: Seq<(Seq<char>, Seq<char>)>,
    name: Seq<char>,
    value: Seq<char>,
) -> bool {
    exists|i: int|
        {
            &&& 0 <= i < pairs.len()
            &&& #[trigger] pairs[i] == (name, value)
            &&& forall|j: int| 0 <= j < pairs.len() && (#[trigger] pairs[j]).0 == name ==> j == i
        }
}

/// Whether the list sends the parameter once with the given value, or, where
/// there is no value, not at all.
pub open spec fn parameter_is(
    pairs: Seq<(Seq<char>, Seq<char>)>,
    name: Seq<char>,
    value: Option<Seq<char>>,
) -> bool {
    match value {
        Some(v) => sole_parameter(pairs, name, v),
        None => !has_parameter(pairs, name),
    }
}

/// One paste to upload, with the credential and the optional metadata.
#[derive(Clone, Debug, PartialEq, Eq)]
pub struct UploadRequest {
    /// The text of the paste.
    pub text: String,
    /// The credential of the account.
    pub api_key: String,
    pub title: Option<String>,
    pub language: Option<String>,
    /// Minutes that the paste lives; zero or less leaves it to the server.
    pub duration: i32,
    /// Views after which the paste expires; zero or less means no limit.
    pub max_views: i32,
}

/// What goes over the wire: a POST of `body` to `url` with one header line.
#[derive(Clone, Debug, PartialEq, Eq)]
pub struct PostRequest {
    pub url: String,
    pub header: String,
    pub body: String,
}

/// The query parameters of a request in the order in which they are sent:
/// the credential always, the title and the language where given, the
/// duration and the view limit where positive.
pub open spec fn request_pairs(
    api_key: Seq<char>,
    title: Option<Seq<char>>,
    language: Option<Seq<char>>,
    duration: int,
    max_views: int,
) -> Seq<(Seq<char>, Seq<char>)> {
    seq![("api_key"@, api_key)] + optional_pair("title"@, title) + optional_pair(
        "language"@,
        language,
    ) + optional_pair("duration"@, positive_decimal(duration)) + optional_pair(
        "max_views"@,
        positive_decimal(max_views),
    )
}

/// The address of a request: the endpoint, `?` and the query string of the
/// parameters.
pub open spec fn request_url(pairs: Seq<(Seq<char>, Seq<char>)>) -> Seq<char> {
    ENDPOINT@ + seq!['?'] + query_text(pairs)
}

impl UploadRequest {
    /// The query parameters in the order in which they are sent.
    pub open spec fn pairs(&self) -> Seq<(Seq<char>, Seq<char>)> {
        request_pairs(
            self.api_key@,
            text_of(self.title),
            text_of(self.language),
            self.duration as int,
            self.max_views as int,
        )
    }

    /// The address of the request.
    pub open spec fn url_text(&self) -> Seq<char> {
        request_url(self.pairs())
    }

    /// The query parameters: the credential always, the title and the
    /// language where given, the duration and the view limit where positive.
    pub fn query_pairs(&self) -> (out: Vec<(String, String)>)
        ensures
            pair_views(out@) == self.pairs(),
    {
        let mut out: Vec<(String, String)> = Vec::new();
        out.push((String::from_str("api_key"), self.api_key.clone()));
        if let Some(title) = &self.title {
            out.push((String::from_str("title"), title.clone()));
        }
        if let Some(language) = &self.language {
            out.push((String::from_str("language"), language.clone()));
        }
        if self.duration > 0 {
            out.push((String::from_str("duration"), decimal_string(self.duration)));
        }
        if self.max_views > 0 {
            out.push((String::from_str("max_views"), decimal_string(self.max_views)));
        }
        assert(pair_views(out@) =~= self.pairs());
        out
    }

    /// The address to post to.
    pub fn url(&self) -> (out: String)
        ensures
            out@ == self.url_text(),
    {
        let pairs = self.query_pairs();
        let query = query_string(&pairs);
        let mut out = String::from_str(ENDPOINT);
        out.append("?");
        out.append(query.as_str());
        proof {
            reveal_strlit("?");
            assert(out@ =~= self.url_text());
        }
        out
    }

    /// The request as it is posted: the text is the body, as it stands.
    pub fn into_post(self) -> (out: PostRequest)
        ensures
            out.url@ == self.url_text(),
            out.header@ == USER_AGENT@,
            out.body@ == self.text@,
    {
        let url = self.url();
        PostRequest { url, header: String::from_str(USER_AGENT), body: self.text }
    }
}

proof fn lemma_names_differ()
    ensures
        "api_key"@ != "title"@,
        "api_key"@ != "language"@,
        "api_key"@ != "duration"@,
        "api_key"@ != "max_views"@,
        "title"@ != "language"@,
        "title"@ != "duration"@,
        "title"@ != "max_views"@,
        "language"@ != "duration"@,
        "language"@ != "max_views"@,
        "duration"@ != "max_views"@,
{
    reveal_strlit("api_key");
    reveal_strlit("title");
    reveal_strlit("language");
    reveal_strlit("duration");
    reveal_strlit("max_views");
    assert("api_key"@[0] == 'a');
    assert("title"@[0] == 't');
    assert("language"@[0] == 'l');
    assert("duration"@[0] == 'd');
    assert("max_views"@[0] == 'm');
}

proof fn lemma_optional_pair(part_name: Seq<char>, value: Option<Seq<char>>, name: Seq<char>)
    ensures
        part_name != name ==> !has_parameter(optional_pair(part_name, value), name),
        parameter_is(optional_pair(part_name, value), part_name, value),
{
    let part = optional_pair(part_name, value);
    if value is Some {
        assert(part[0] == (part_name, value->0));
    }
}

proof fn lemma_joined(
    front: Seq<(Seq<char>, Seq<char>)>,
    back: Seq<(Seq<char>, Seq<char>)>,
    name: Seq<char>,
    value: Option<Seq<char>>,
)
    requires
        parameter_is(front, name, value) || !has_parameter(front, name),
        parameter_is(back, name, value) || !has_parameter(back, name),
        !has_parameter(front, name) || !has_parameter(back, name),
        has_parameter(front, name) || has_parameter(back, name) || value is None,
    ensures
        parameter_is(front + back, name, value),
        value is None ==> !has_parameter(front + back, name),
{
    let all = front + back;
    assert forall|j: int| 0 <= j < all.len() && (#[trigger] all[j]).0 == name implies (if j
        < front.len() {
        has_parameter(front, name)
    } else {
        has_parameter(back, name)
    }) by {
        if j < front.len() {
            assert(front[j].0 == name);
        } else {
            assert(back[j - front.len()].0 == name);
        }
    }
    if value is Some {
        if has_parameter(front, name) {
            let i = choose|i: int|
                {
                    &&& 0 <= i < front.len()
                    &&& #[trigger] front[i] == (name, value->0)
                    &&& forall|j: int|
                        0 <= j < front.len() && (#[trigger] front[j]).0 == name ==> j == i
                };
            assert(all[i] == (name, value->0));
            assert forall|j: int| 0 <= j < all.len() && (#[trigger] all[j]).0 == name implies j
                == i by {
                assert(j < front.len());
                assert(front[j].0 == name);
            }
        } else {
            let i = choose|i: int|
                {
                    &&& 0 <= i < back.len()
                    &&& #[trigger] back[i] == (name, value->0)
                    &&& forall|j: int|
                        0 <= j < back.len() && (#[trigger] back[j]).0 == name ==> j == i
                };
            let at = front.len() + i;
            assert(all[at] == (name, value->0));
            assert forall|j: int| 0 <= j < all.len() && (#[trigger] all[j]).0 == name implies j
                == at by {
                assert(j >= front.len());
                assert(back[j - front.len()].0 == name);
            }
        }
    }
}

proof fn lemma_parameter(
    api_key: Seq<char>,
    title: Option<Seq<char>>,
    language: Option<Seq<char>>,
    duration: Option<Seq<char>>,
    max_views: Option<Seq<char>>,
    name: Seq<char>,
    value: Option<Seq<char>>,
)
    requires
        name == "api_key"@ ==> value == Some(api_key),
        name == "title"@ ==> value == title,
        name == "language"@ ==> value == language,
        name == "duration"@ ==> value == duration,
        name == "max_views"@ ==> value == max_views,
        name == "api_key"@ || name == "title"@ || name == "language"@ || name == "duration"@
            || name == "max_views"@,
    ensures
        parameter_is(
            optional_pair("api_key"@, Some(api_key)) + optional_pair("title"@, title)
                + optional_pair("language"@, language) + optional_pair("duration"@, duration)
                + optional_pair("max_views"@, max_views),
            name,
            value,
        ),
{
    lemma_names_differ();
    let key_part = optional_pair("api_key"@, Some(api_key));
    let title_part = optional_pair("title"@, title);
    let language_part = optional_pair("language"@, language);
    let duration_part = optional_pair("duration"@, duration);
    let views_part = optional_pair("max_views"@, max_views);
    lemma_optional_pair("api_key"@, Some(api_key), name);
    lemma_optional_pair("title"@, title, name);
    lemma_optional_pair("language"@, language, name);
    lemma_optional_pair("duration"@, duration, name);
    lemma_optional_pair("max_views"@, max_views, name);
    let seen1 = if name == "api_key"@ || name == "title"@ {
        value
    } else {
        None
    };
    let seen2 = if name == "language"@ {
        value
    } else {
        seen1
    };
    let seen3 = if name == "duration"@ {
        value
    } else {
        seen2
    };
    lemma_joined(key_part, title_part, name, seen1);
    lemma_joined(key_part + title_part, language_part, name, seen2);
    lemma_joined(key_part + title_part + language_part, duration_part, name, seen3);
    lemma_joined(key_part + title_part + language_part + duration_part, views_part, name, value);
}

/// Every request sends each of its five parameters at most once: the
/// credential always, the title and the language exactly where they are
/// given, the duration and the view limit exactly where they are positive,
/// and then in decimal notation.
pub proof fn lemma_request_parameters(request: UploadRequest)
    ensures
        parameter_is(request.pairs(), "api_key"@, Some(request.api_key@)),
        parameter_is(request.pairs(), "title"@, text_of(request.title)),
        parameter_is(request.pairs(), "language"@, text_of(request.language)),
        parameter_is(request.pairs(), "duration"@, positive_decimal(request.duration as int)),
        parameter_is(request.pairs(), "max_views"@, positive_decimal(request.max_views as int)),
{
    let api_key = request.api_key@;
    let title = text_of(request.title);
    let language = text_of(request.language);
    let duration = positive_decimal(request.duration as int);
    let max_views = positive_decimal(request.max_views as int);
    assert(seq![("api_key"@, api_key)] =~= optional_pair("api_key"@, Some(api_key)));
    lemma_names_differ();
    lemma_parameter(api_key, title, language, duration, max_views, "api_key"@, Some(api_key));
    lemma_parameter(api_key, title, language, duration, max_views, "title"@, title);
    lemma_parameter(api_key, title, language, duration, max_views, "language"@, language);
    lemma_parameter(api_key, title, language, duration, max_views, "duration"@, duration);
    lemma_parameter(api_key, title, language, duration, max_views, "max_views"@, max_views);
}

/// A duration of zero or less sends no `duration` parameter; a positive one
/// sends it once, as the decimal notation of the number.
pub proof fn lemma_duration_parameter(request: UploadRequest)
    ensures
        request.duration <= 0 ==> !has_parameter(request.pairs(), "duration"@),
        request.duration > 0 ==> sole_parameter(
            request.pairs(),
            "duration"@,
            decimal(request.duration as int),
        ),
{
    lemma_request_parameters(request);
}

/// A view limit of zero or less sends no `max_views` parameter; a positive
/// one sends it once, as the decimal notation of the number.
pub proof fn lemma_max_views_parameter(request: UploadRequest)
    ensures
        request.max_views <= 0 ==> !has_parameter(request.pairs(), "max_views"@),
        request.max_views > 0 ==> sole_parameter(
            request.pairs(),
            "max_views"@,
            decimal(request.max_views as int),
        ),
{
    lemma_request_parameters(request);
}

/// On the wire a positive count reads as its name, `=` and its decimal
/// digits, after `&` where other parameters stand before it.
pub proof fn lemma_count_on_wire(query: Seq<char>, name: Seq<char>, count: int)
    requires
        kept_text(name),
        count > 0,
    ensures
        query.len() == 0 ==> with_pair(query, name, decimal(count)) == name + seq!['=']
            + decimal(count),
        query.len() > 0 ==> with_pair(query, name, decimal(count)) == query + seq!['&'] + name
            + seq!['='] + decimal(count),
{
    lemma_decimal_digits(count as nat);
    lemma_kept_pair(query, name, decimal(count));
}

} // verus!

//! The assertion engine: a tally of passed and failed assertions, with one
//! diagnostic line for each failure.
use vstd::prelude::*;
use vstd::string::*;
use crate::json::{
    debug_text, json_array, json_debug, json_document, json_i64, json_member, json_str, member,
    parse_document,
};
use crate::status::{show_status, status_text};
use crate::text::{
    contains, contains_seq, join, join_seq, lemma_split_nonempty, lower_of, lowercase, opt_view,
    split, split_seq, strings_view, strs_view,
};

verus! {

/// The HTTP methods that the engine sends.
#[derive(PartialEq, Eq, Structural, Clone, Copy, Debug)]
pub enum HttpMethod {
    Get,
    Post,
    Delete,
}

impl HttpMethod {
    /// The method's token on the request line.
    pub open spec fn token(self) -> Seq<char> {
        match self {
            HttpMethod::Get => "GET"@,
            HttpMethod::Post => "POST"@,
            HttpMethod::Delete => "DELETE"@,
        }
    }

    pub fn as_str(&self) -> (r: &'static str)
        ensures
            r@ == self.token(),
    {
        match self {
            HttpMethod::Get => "GET",
            HttpMethod::Post => "POST",
            HttpMethod::Delete => "DELETE",
        }
    }
}

/// The state of a `Checker` as the contracts see it.
pub struct Tally {
    pub passed: nat,
    pub failed: nat,
    /// Diagnostic lines not yet taken out with `Checker::take_log`.
    pub log: Seq<Seq<char>>,
    pub method: HttpMethod,
    pub path: Seq<char>,
    pub group: Seq<char>,
    pub base_url: Seq<char>,
    pub expect_json: bool,
}

impl Tally {
    /// Both counters can still take `passes` more passes and `fails` more failures.
    pub open spec fn room(self, passes: nat, fails: nat) -> bool {
        self.passed + passes <= u16::MAX && self.failed + fails <= u16::MAX
    }

    /// The diagnostic line of a failure: method, path, group and description.
    pub open spec fn line(self, description: Seq<char>) -> Seq<char> {
        "Failed: "@ + self.method.token() + " "@ + self.path + " - "@ + self.group + " - "@
            + description
    }

    pub open spec fn pass(self, count: nat) -> Tally {
        Tally { passed: self.passed + count, ..self }
    }

    pub open spec fn fail(self, description: Seq<char>) -> Tally {
        Tally { failed: self.failed + 1, log: self.log.push(self.line(description)), ..self }
    }

    pub open spec fn check(self, cond: bool, description: Seq<char>) -> Tally {
        if cond {
            self.pass(1)
        } else {
            self.fail(description)
        }
    }

    /// The status assertion: the observed status against the expected one.
    pub open spec fn check_status(self, status: u16, expected: u16) -> Tally {
        self.check(status == expected, status_message(expected, status))
    }

    /// The content-type and body assertions on a response that should be JSON,
    /// with the document read from the body where they reach that far.
    pub open spec fn json_content_type(self, content_type: Option<Seq<char>>, body: Seq<u8>) -> (
        Tally,
        Option<serde_json::Value>,
    ) {
        match content_type {
            None => (self.fail("missing content-type"@), None),
            Some(ct) => {
                let t = self.pass(1).check(is_json_media_type(ct), wrong_type_message(ct));
                if !is_json_media_type(ct) {
                    (t, None)
                } else {
                    let t = t.check(has_utf8_charset(ct), charset_message());
                    match json_document(body) {
                        Some(v) => (t.pass(1), Some(v)),
                        None => (t.fail("could not parse response as json"@), None),
                    }
                }
            },
        }
    }

    /// All the assertions on one response: its status, then, where JSON is
    /// expected, its content type and body.
    pub open spec fn response(
        self,
        status: u16,
        content_type: Option<Seq<char>>,
        body: Seq<u8>,
        expected: u16,
    ) -> (Tally, Option<serde_json::Value>) {
        let t = self.check_status(status, expected);
        if t.expect_json {
            t.json_content_type(content_type, body)
        } else {
            (t, None)
        }
    }

    /// Reading the string member `name` of `json`: no assertion where it is
    /// there, one failure where it is missing or not a string.
    pub open spec fn property_string(self, json: serde_json::Value, name: Seq<char>) -> (
        Tally,
        Option<Seq<char>>,
    ) {
        match json_member(json, name) {
            None => (self.fail(missing_message(name, json)), None),
            Some(m) => match json_str(m) {
                Some(s) => (self, Some(s)),
                None => (self.fail("json '"@ + name + "' property is not a string"@), None),
            },
        }
    }

    /// Reading the integer member `name` of `json`, as `property_string` does.
    pub open spec fn property_i64(self, json: serde_json::Value, name: Seq<char>) -> (
        Tally,
        Option<i64>,
    ) {
        match json_member(json, name) {
            None => (self.fail(missing_message(name, json)), None),
            Some(m) => match json_i64(m) {
                Some(i) => (self, Some(i)),
                None => (self.fail("json '"@ + name + "' property is not an integer"@), None),
            },
        }
    }

    /// Reading the array member `name` of `json`, as `property_string` does.
    pub open spec fn property_array(self, json: serde_json::Value, name: Seq<char>) -> (
        Tally,
        Option<Seq<serde_json::Value>>,
    ) {
        match json_member(json, name) {
            None => (self.fail(missing_message(name, json)), None),
            Some(m) => match json_array(m) {
                Some(a) => (self, Some(a)),
                None => (self.fail("json '"@ + name + "' property is not an array"@), None),
            },
        }
    }

    /// The containment assertion: the lower-cased `haystack` mentions one of `needles`.
    pub open spec fn contains_one(
        self,
        prefix: Seq<char>,
        haystack: Seq<char>,
        needles: Seq<Seq<char>>,
    ) -> (Tally, bool) {
        let h = lower_of(haystack);
        let found = mentions_any(h, needles);
        (self.check(found, unmentioned_message(prefix, needles, h)), found)
    }

    /// The assertion that a response explains itself with one of `needles`:
    /// in the `error` member of a JSON body, or else in the fallback body.
    pub open spec fn error_response(self, response: Outcome, needles: Seq<Seq<char>>) -> Tally {
        match response {
            Outcome::Json(v) => {
                let (t, e) = self.property_string(v, "error"@);
                match e {
                    Some(error) => t.contains_one("json 'error' property"@, error, needles).0,
                    None => t,
                }
            },
            Outcome::RawBody(s) => self.contains_one("body"@, s@, needles).0,
            Outcome::Empty => self.fail("no body in response"@),
        }
    }

    /// The labels of a call that is about to be sent.
    pub open spec fn dispatch(self, method: HttpMethod, group: Seq<char>) -> Tally {
        Tally { method, group, ..self }
    }
}

/// The description of a status mismatch, naming both codes.
pub open spec fn status_message(expected: u16, status: u16) -> Seq<char> {
    "should have returned '"@ + status_text(expected) + "' but returned '"@ + status_text(status)
        + "'"@
}

/// The first `;`-delimited segment of a content type is exactly `application/json`.
pub open spec fn is_json_media_type(ct: Seq<char>) -> bool {
    split_seq(ct, ';')[0] == "application/json"@
}

/// A content type has exactly two `;`-delimited segments, the second `charset=utf-8`.
pub open spec fn has_utf8_charset(ct: Seq<char>) -> bool {
    let parts = split_seq(ct, ';');
    parts.len() == 2 && parts[1] == "charset=utf-8"@
}

pub open spec fn wrong_type_message(ct: Seq<char>) -> Seq<char> {
    "content-type is '"@ + ct + "' instead of application/json"@
}

pub open spec fn charset_message() -> Seq<char> {
    "content-type missing 'charset=utf-8' or has too many parts"@
}

pub open spec fn missing_message(name: Seq<char>, json: serde_json::Value) -> Seq<char> {
    "json does not have a '"@ + name + "' property: "@ + json_debug(json)
}

/// Some needle occurs in `haystack`.
pub open spec fn mentions_any(haystack: Seq<char>, needles: Seq<Seq<char>>) -> bool {
    exists|i: int| 0 <= i < needles.len() && #[trigger] contains_seq(haystack, needles[i])
}

/// The description of a failed containment assertion, naming the needles and the haystack.
pub open spec fn unmentioned_message(
    prefix: Seq<char>,
    needles: Seq<Seq<char>>,
    haystack: Seq<char>,
) -> Seq<char> {
    if needles.len() == 1 {
        prefix + " does not mention '"@ + needles[0] + "': '"@ + haystack + "'"@
    } else {
        prefix + " does not mention one of '"@ + join_seq(needles, ", "@) + "': '"@ + haystack
            + "'"@
    }
}

/// What a call hands back for the error-message assertions: the JSON
/// document, a fallback body, or nothing.
#[derive(Debug, PartialEq)]
pub enum Outcome {
    Json(serde_json::Value),
    RawBody(String),
    Empty,
}

/// A response as it came off the wire: its status, its `content-type`
/// header if it had one, and its whole body.
#[derive(Debug)]
pub struct Reply {
    pub status: u16,
    pub content_type: Option<String>,
    pub body: Vec<u8>,
}

/// A request for the transport to send.
#[derive(Debug)]
pub struct Request {
    pub method: HttpMethod,
    pub url: String,
    pub headers: Vec<(String, String)>,
    /// `None` sends an empty body.
    pub body: Option<String>,
}

/// The views of request headers.
pub open spec fn headers_view(h: Seq<(String, String)>) -> Seq<(Seq<char>, Seq<char>)> {
    h.map_values(|p: (String, String)| (p.0@, p.1@))
}

impl Request {
    /// The request has these method, URL, headers and body.
    pub open spec fn is(
        self,
        method: HttpMethod,
        url: Seq<char>,
        headers: Seq<(Seq<char>, Seq<char>)>,
        body: Option<Seq<char>>,
    ) -> bool {
        &&& self.method == method
        &&& self.url@ == url
        &&& headers_view(self.headers@) == headers
        &&& opt_view(self.body) == body
    }
}

/// The `cookie` header that carries a session token.
pub open spec fn cookie(secret: Seq<char>) -> (Seq<char>, Seq<char>) {
    ("cookie"@, "token="@ + secret)
}

/// A `content-type` header.
pub open spec fn content_type_header(value: Seq<char>) -> (Seq<char>, Seq<char>) {
    ("content-type"@, value)
}

/// The engine: counters, the labels of the call under way, and the base URL
/// that every request path is appended to.
pub struct Checker {
    pub passed: u16,
    pub failed: u16,
    group: &'static str,
    base_url: String,
    pub path: &'static str,
    method: HttpMethod,
    expect_json: bool,
    log: Vec<String>,
}

impl View for Checker {
    type V = Tally;

    closed spec fn view(&self) -> Tally {
        Tally {
            passed: self.passed as nat,
            failed: self.failed as nat,
            log: strings_view(self.log@),
            method: self.method,
            path: self.path@,
            group: self.group@,
            base_url: self.base_url@,
            expect_json: self.expect_json,
        }
    }
}

impl Checker {
    /// A fresh engine for the API at `base_url`: no assertion yet, path `/`,
    /// and every response expected to be JSON.
    pub fn new(base_url: String) -> (r: Checker)
        ensures
            r@.passed == 0,
            r@.failed == 0,
            r@.log == Seq::<Seq<char>>::empty(),
            r@.base_url == base_url@,
            r@.path == "/"@,
            r@.group == ""@,
            r@.method == HttpMethod::Get,
            r@.expect_json,
    {
        let r = Checker {
            passed: 0,
            failed: 0,
            group: "",
            base_url,
            path: "/",
            method: HttpMethod::Get,
            expect_json: true,
            log: Vec::new(),
        };
        proof {
            assert(strings_view(r.log@) =~= Seq::<Seq<char>>::empty());
        }
        r
    }

    /// Whether the counters can take `passes` more passes and `fails` more failures.
    pub fn has_room(&self, passes: u16, fails: u16) -> (r: bool)
        ensures
            r == self@.room(passes as nat, fails as nat),
    {
        passes <= u16::MAX - self.passed && fails <= u16::MAX - self.failed
    }

    /// Takes out the diagnostic lines written since the last call.
    pub fn take_log(&mut self) -> (r: Vec<String>)
        ensures
            strings_view(r@) == old(self)@.log,
            final(self)@ == (Tally { log: Seq::empty(), ..old(self)@ }),
    {
        let mut r: Vec<String> = Vec::new();
        std::mem::swap(&mut r, &mut self.log);
        proof {
            assert(strings_view(self.log@) =~= Seq::<Seq<char>>::empty());
        }
        r
    }

    /// Counts `count` passed assertions, with no diagnostic.
    pub fn pass(&mut self, count: u16)
        requires
            old(self)@.room(count as nat, 0),
        ensures
            final(self)@ == old(self)@.pass(count as nat),
    {
        self.passed = self.passed + count;
    }

    /// Counts one failed assertion and writes its diagnostic line.
    pub fn fail(&mut self, description: String)
        requires
            old(self)@.room(0, 1),
        ensures
            final(self)@ == old(self)@.fail(description@),
    {
        self.failed = self.failed + 1;
        let line = String::from_str("Failed: ").concat(self.method.as_str()).concat(" ").concat(
            self.path,
        ).concat(" - ").concat(self.group).concat(" - ").concat(description.as_str());
        let ghost pre = self.log@;
        self.log.push(line);
        proof {
            assert(strings_view(self.log@) =~= strings_view(pre).push(line@));
        }
    }

    /// Counts a pass where `check` holds and a failure described by
    /// `description` where it does not; returns `check`.
    pub fn check(&mut self, check: bool, description: String) -> (r: bool)
        requires
            old(self)@.room(1, 1),
        ensures
            r == check,
            final(self)@ == old(self)@.check(check, description@),
    {
        if check {
            self.pass(1);
        } else {
            self.fail(description);
        }
        check
    }

    /// The string member `name` of `json`. A missing member, or one that is
    /// not a string, is a failed assertion; a present one records nothing.
    pub fn get_property_string(&mut self, json: &serde_json::Value, name: &str) -> (r: Option<
        String,
    >)
        requires
            old(self)@.room(0, 1),
        ensures
            (final(self)@, opt_view(r)) == old(self)@.property_string(*json, name@),
    {
        match member(json, name) {
            Some(property_value) => match property_value.as_str() {
                Some(value) => Some(String::from_str(value)),
                None => {
                    self.fail(
                        String::from_str("json '").concat(name).concat(
                            "' property is not a string",
                        ),
                    );
                    None
                },
            },
            None => {
                let shown = debug_text(json);
                self.fail(
                    String::from_str("json does not have a '").concat(name).concat(
                        "' property: ",
                    ).concat(shown.as_str()),
                );
                None
            },
        }
    }

    /// The integer member `name` of `json`, as `get_property_string` reads a string.
    pub fn get_property_i64(&mut self, json: &serde_json::Value, name: &str) -> (r: Option<i64>)
        requires
            old(self)@.room(0, 1),
        ensures
            (final(self)@, r) == old(self)@.property_i64(*json, name@),
    {
        match member(json, name) {
            Some(property_value) => match property_value.as_i64() {
                Some(value) => Some(value),
                None => {
                    self.fail(
                        String::from_str("json '").concat(name).concat(
                            "' property is not an integer",
                        ),
                    );
                    None
                },
            },
            None => {
                let shown = debug_text(json);
                self.fail(
                    String::from_str("json does not have a '").concat(name).concat(
                        "' property: ",
                    ).concat(shown.as_str()),
                );
                None
            },
        }
    }

    /// The array member `name` of `json`, as `get_property_string` reads a string.
    pub fn get_property_array<'a>(&mut self, json: &'a serde_json::Value, name: &str) -> (r: Option<
        &'a Vec<serde_json::Value>,
    >)
        requires
            old(self)@.room(0, 1),
        ensures
            final(self)@ == old(self)@.property_array(*json, name@).0,
            match r {
                Some(a) => old(self)@.property_array(*json, name@).1 == Some(a@),
                None => old(self)@.property_array(*json, name@).1 is None,
            },
    {
        match member(json, name) {
            Some(property_value) => match property_value.as_array() {
                Some(value) => Some(value),
                None => {
                    self.fail(
                        String::from_str("json '").concat(name).concat(
                            "' property is not an array",
                        ),
                    );
                    None
                },
            },
            None => {
                let shown = debug_text(json);
                self.fail(
                    String::from_str("json does not have a '").concat(name).concat(
                        "' property: ",
                    ).concat(shown.as_str()),
                );
                None
            },
        }
    }

    /// Asserts that the lower-cased `haystack` contains one of `needles`;
    /// `prefix` names the haystack in the diagnostic.
    pub fn check_contains_one(&mut self, prefix: &str, haystack: String, needles: Vec<&str>) -> (r:
        bool)
        requires
            old(self)@.room(1, 1),
        ensures
            (final(self)@, r) == old(self)@.contains_one(prefix@, haystack@, strs_view(needles@)),
    {
        let ghost nv = strs_view(needles@);
        let ghost given = haystack@;
        let lowered = lowercase(haystack.as_str());
        if needles.len() == 1 {
            let found = contains(lowered.as_str(), needles[0]);
            proof {
                assert(nv[0] == needles@[0]@);
                if found {
                    assert(contains_seq(lowered@, nv[0]));
                }
            }
            return self.check(
                found,
                String::from_str(prefix).concat(" does not mention '").concat(needles[0]).concat(
                    "': '",
                ).concat(lowered.as_str()).concat("'"),
            );
        }
        let mut i: usize = 0;
        while i < needles.len()
            invariant
                nv == strs_view(needles@),
                i <= needles.len(),
                self@ == old(self)@,
                old(self)@.room(1, 1),
                lowered@ == lower_of(given),
                given == haystack@,
                forall|k: int| 0 <= k < i ==> !#[trigger] contains_seq(lowered@, nv[k]),
            decreases needles.len() - i,
        {
            let found = contains(lowered.as_str(), needles[i]);
            proof {
                assert(nv[i as int] == needles@[i as int]@);
            }
            if found {
                proof {
                    assert(contains_seq(lowered@, nv[i as int]));
                    assert(mentions_any(lower_of(given), nv));
                }
                self.pass(1);
                return true;
            }
            i = i + 1;
        }
        let joined = join(&needles, ", ");
        self.fail(
            String::from_str(prefix).concat(" does not mention one of '").concat(
                joined.as_str(),
            ).concat("': '").concat(lowered.as_str()).concat("'"),
        );
        false
    }

    /// Asserts that `response` explains itself with one of `needles`.
    pub fn check_error_response_multi(&mut self, response: Outcome, needles: Vec<&str>)
        requires
            old(self)@.room(1, 1),
        ensures
            final(self)@ == old(self)@.error_response(response, strs_view(needles@)),
    {
        match response {
            Outcome::Json(json_response) => {
                if let Some(error) = self.get_property_string(&json_response, "error") {
                    self.check_contains_one("json 'error' property", error, needles);
                }
            },
            Outcome::RawBody(other_response) => {
                self.check_contains_one("body", other_response, needles);
            },
            Outcome::Empty => {
                self.fail(String::from_str("no body in response"));
            },
        }
    }

    /// Asserts that `response` explains itself with `needle`.
    pub fn check_error_response(&mut self, response: Outcome, needle: &str)
        requires
            old(self)@.room(1, 1),
        ensures
            final(self)@ == old(self)@.error_response(response, seq![needle@]),
    {
        let needles = vec![needle];
        proof {
            assert(strs_view(needles@) =~= seq![needle@]);
        }
        self.check_error_response_multi(response, needles)
    }

    /// The content-type and body assertions on a response that should be
    /// JSON; the document, where the body holds one and the checks reach it.
    pub fn check_json_content_type(&mut self, response: &Reply) -> (r: Option<serde_json::Value>)
        requires
            old(self)@.room(4, 2),
        ensures
            (final(self)@, r) == old(self)@.json_content_type(
                opt_view(response.content_type),
                response.body@,
            ),
    {
        match &response.content_type {
            None => {
                self.fail(String::from_str("missing content-type"));
                None
            },
            Some(content_type) => {
                self.pass(1);
                let parts = split(content_type.as_str(), ';');
                proof {
                    lemma_split_nonempty(content_type@, ';');
                    assert(parts@[0]@ == split_seq(content_type@, ';')[0]);
                }
                let is_json = parts[0] == String::from_str("application/json");
                if !self.check(
                    is_json,
                    String::from_str("content-type is '").concat(content_type.as_str()).concat(
                        "' instead of application/json",
                    ),
                ) {
                    return None;
                }
                let charset = parts.len() == 2 && parts[1] == String::from_str("charset=utf-8");
                proof {
                    if parts.len() == 2 {
                        assert(parts@[1]@ == split_seq(content_type@, ';')[1]);
                    }
                }
                self.check(
                    charset,
                    String::from_str("content-type missing 'charset=utf-8' or has too many parts"),
                );
                match parse_document(response.body.as_slice()) {
                    Some(json) => {
                        self.pass(1);
                        Some(json)
                    },
                    None => {
                        self.fail(String::from_str("could not parse response as json"));
                        None
                    },
                }
            },
        }
    }

    /// All the assertions on one response: the status against
    /// `expected_status`, then, where JSON is expected, the content type and
    /// the body. The outcome holds the document where one was read, and the
    /// fallback marker `body` otherwise.
    pub fn check_response(&mut self, response: Reply, expected_status: u16) -> (r: Outcome)
        requires
            old(self)@.room(5, 3),
        ensures
            final(self)@ == old(self)@.response(
                response.status,
                opt_view(response.content_type),
                response.body@,
                expected_status,
            ).0,
            match r {
                Outcome::Json(v) => old(self)@.response(
                    response.status,
                    opt_view(response.content_type),
                    response.body@,
                    expected_status,
                ).1 == Some(v),
                Outcome::RawBody(s) => old(self)@.response(
                    response.status,
                    opt_view(response.content_type),
                    response.body@,
                    expected_status,
                ).1 is None && s@ == "body"@,
                Outcome::Empty => false,
            },
    {
        let status = response.status;
        let description = String::from_str("should have returned '").concat(
            show_status(expected_status).as_str(),
        ).concat("' but returned '").concat(show_status(status).as_str()).concat("'");
        self.check(status == expected_status, description);
        let json = if self.expect_json {
            self.check_json_content_type(&response)
        } else {
            None
        };
        match json {
            Some(json) => Outcome::Json(json),
            None => Outcome::RawBody(String::from_str("body")),
        }
    }

    /// Records the labels of a call and gives the URL it goes to.
    fn start(&mut self, method: HttpMethod, group: &'static str) -> (url: String)
        ensures
            final(self)@ == old(self)@.dispatch(method, group@),
            url@ == old(self)@.base_url + old(self)@.path,
    {
        self.group = group;
        self.method = method;
        self.base_url.clone().concat(self.path)
    }

    /// A `GET` of the current path.
    pub fn get(&mut self, group: &'static str) -> (r: Request)
        ensures
            final(self)@ == old(self)@.dispatch(HttpMethod::Get, group@),
            r.is(
                HttpMethod::Get,
                old(self)@.base_url + old(self)@.path,
                seq![],
                None,
            ),
    {
        let url = self.start(HttpMethod::Get, group);
        let r = Request { method: HttpMethod::Get, url, headers: Vec::new(), body: None };
        proof {
            assert(headers_view(r.headers@) =~= seq![]);
        }
        r
    }

    /// A `GET` of the current path in the session of `token_secret`.
    pub fn get_with_token(&mut self, group: &'static str, token_secret: String) -> (r: Request)
        ensures
            final(self)@ == old(self)@.dispatch(HttpMethod::Get, group@),
            r.is(
                HttpMethod::Get,
                old(self)@.base_url + old(self)@.path,
                seq![cookie(token_secret@)],
                None,
            ),
    {
        let url = self.start(HttpMethod::Get, group);
        let headers = vec![
            (String::from_str("cookie"), String::from_str("token=").concat(token_secret.as_str())),
        ];
        let r = Request { method: HttpMethod::Get, url, headers, body: None };
        proof {
            assert(headers_view(r.headers@) =~= seq![cookie(token_secret@)]);
        }
        r
    }

    /// A `DELETE` of the current path.
    pub fn delete(&mut self, group: &'static str) -> (r: Request)
        ensures
            final(self)@ == old(self)@.dispatch(HttpMethod::Delete, group@),
            r.is(
                HttpMethod::Delete,
                old(self)@.base_url + old(self)@.path,
                seq![],
                None,
            ),
    {
        let url = self.start(HttpMethod::Delete, group);
        let headers = Vec::new();
        let r = Request { method: HttpMethod::Delete, url, headers, body: None };
        proof {
            assert(headers_view(r.headers@) =~= seq![]);
        }
        r
    }

    /// A `DELETE` of the current path in the session of `token_secret`.
    pub fn delete_with_token(&mut self, group: &'static str, token_secret: String) -> (r: Request)
        ensures
            final(self)@ == old(self)@.dispatch(HttpMethod::Delete, group@),
            r.is(
                HttpMethod::Delete,
                old(self)@.base_url + old(self)@.path,
                seq![cookie(token_secret@)],
                None,
            ),
    {
        let url = self.start(HttpMethod::Delete, group);
        let headers = vec![
            (String::from_str("cookie"), String::from_str("token=").concat(token_secret.as_str())),
        ];
        let r = Request { method: HttpMethod::Delete, url, headers, body: None };
        proof {
            assert(headers_view(r.headers@) =~= seq![cookie(token_secret@)]);
        }
        r
    }

    /// A `POST` with neither body nor `content-type`.
    pub fn post_no_body(&mut self, group: &'static str) -> (r: Request)
        ensures
            final(self)@ == old(self)@.dispatch(HttpMethod::Post, group@),
            r.is(
                HttpMethod::Post,
                old(self)@.base_url + old(self)@.path,
                seq![],
                None,
            ),
    {
        let url = self.start(HttpMethod::Post, group);
        let headers = Vec::new();
        let r = Request { method: HttpMethod::Post, url, headers, body: None };
        proof {
            assert(headers_view(r.headers@) =~= seq![]);
        }
        r
    }

    /// A `POST` without body in the session of `token_secret`.
    pub fn post_with_token(&mut self, group: &'static str, token_secret: String) -> (r: Request)
        ensures
            final(self)@ == old(self)@.dispatch(HttpMethod::Post, group@),
            r.is(
                HttpMethod::Post,
                old(self)@.base_url + old(self)@.path,
                seq![cookie(token_secret@)],
                None,
            ),
    {
        let url = self.start(HttpMethod::Post, group);
        let headers = vec![
            (String::from_str("cookie"), String::from_str("token=").concat(token_secret.as_str())),
        ];
        let r = Request { method: HttpMethod::Post, url, headers, body: None };
        proof {
            assert(headers_view(r.headers@) =~= seq![cookie(token_secret@)]);
        }
        r
    }

    /// A `POST` without body that claims an image type (`image/png`).
    pub fn post_bad_content_type(&mut self, group: &'static str) -> (r: Request)
        ensures
            final(self)@ == old(self)@.dispatch(HttpMethod::Post, group@),
            r.is(
                HttpMethod::Post,
                old(self)@.base_url + old(self)@.path,
                seq![content_type_header("image/png"@)],
                None,
            ),
    {
        let url = self.start(HttpMethod::Post, group);
        let headers = vec![
            (String::from_str("content-type"), String::from_str("image/png")),
        ];
        let r = Request { method: HttpMethod::Post, url, headers, body: None };
        proof {
            assert(headers_view(r.headers@) =~= seq![content_type_header("image/png"@)]);
        }
        r
    }

    /// A `POST` of a JSON `body`, labelled `application/json`.
    pub fn post(&mut self, group: &'static str, body: String) -> (r: Request)
        ensures
            final(self)@ == old(self)@.dispatch(HttpMethod::Post, group@),
            r.is(
                HttpMethod::Post,
                old(self)@.base_url + old(self)@.path,
                seq![content_type_header("application/json"@)],
                Some(body@),
            ),
    {
        let url = self.start(HttpMethod::Post, group);
        let headers = vec![
            (String::from_str("content-type"), String::from_str("application/json")),
        ];
        let r = Request { method: HttpMethod::Post, url, headers, body: Some(body) };
        proof {
            assert(headers_view(r.headers@) =~= seq![content_type_header("application/json"@)]);
        }
        r
    }

    /// A `POST` of `body` labelled with the given `content_type`.
    pub fn post_content_type(
        &mut self,
        group: &'static str,
        content_type: &'static str,
        body: String,
    ) -> (r: Request)
        ensures
            final(self)@ == old(self)@.dispatch(HttpMethod::Post, group@),
            r.is(
                HttpMethod::Post,
                old(self)@.base_url + old(self)@.path,
                seq![content_type_header(content_type@)],
                Some(body@),
            ),
    {
        let url = self.start(HttpMethod::Post, group);
        let headers = vec![
            (String::from_str("content-type"), String::from_str(content_type)),
        ];
        let r = Request { method: HttpMethod::Post, url, headers, body: Some(body) };
        proof {
            assert(headers_view(r.headers@) =~= seq![content_type_header(content_type@)]);
        }
        r
    }

    /// A `POST` of `body` with no `content-type` header.
    pub fn post_no_content_type(&mut self, group: &'static str, body: String) -> (r: Request)
        ensures
            final(self)@ == old(self)@.dispatch(HttpMethod::Post, group@),
            r.is(
                HttpMethod::Post,
                old(self)@.base_url + old(self)@.path,
                seq![],
                Some(body@),
            ),
    {
        let url = self.start(HttpMethod::Post, group);
        let headers = Vec::new();
        let r = Request { method: HttpMethod::Post, url, headers, body: Some(body) };
        proof {
            assert(headers_view(r.headers@) =~= seq![]);
        }
        r
    }
}

} // verus!

use api_checker::checker::{Checker, HttpMethod, Outcome, Reply};

fn fresh() -> Checker {
    Checker::new(String::from("http://localhost:3000"))
}

fn json(text: &str) -> serde_json::Value {
    serde_json::from_str(text).unwrap()
}

fn reply(status: u16, content_type: Option<&str>, body: &str) -> Reply {
    Reply {
        status,
        content_type: content_type.map(String::from),
        body: body.as_bytes().to_vec(),
    }
}

#[test]
fn new_checker_starts_empty() {
    let mut c = fresh();
    assert_eq!(c.passed, 0);
    assert_eq!(c.failed, 0);
    assert_eq!(c.path, "/");
    assert!(c.take_log().is_empty());
}

#[test]
fn check_counts_pass_and_failure() {
    let mut c = fresh();
    assert!(c.check(true, String::from("unused")));
    assert!(!c.check(false, String::from("went wrong")));
    assert_eq!(c.passed, 1);
    assert_eq!(c.failed, 1);
    assert_eq!(c.take_log(), vec![String::from("Failed: GET / -  - went wrong")]);
}

#[test]
fn pass_adds_count_without_log() {
    let mut c = fresh();
    c.pass(3);
    assert_eq!(c.passed, 3);
    assert_eq!(c.failed, 0);
    assert!(c.take_log().is_empty());
}

#[test]
fn take_log_empties_the_log() {
    let mut c = fresh();
    c.fail(String::from("one"));
    c.fail(String::from("two"));
    assert_eq!(c.take_log().len(), 2);
    assert!(c.take_log().is_empty());
    assert_eq!(c.failed, 2);
}

#[test]
fn has_room_at_the_counter_limit() {
    let mut c = fresh();
    assert!(c.has_room(5, 3));
    c.pass(u16::MAX - 1);
    assert!(c.has_room(1, 0));
    assert!(!c.has_room(2, 0));
}

#[test]
fn failure_line_names_method_path_and_group() {
    let mut c = fresh();
    c.path = "/users";
    let _ = c.post("missing email", String::from("{}"));
    c.fail(String::from("bad"));
    assert_eq!(c.take_log(), vec![String::from("Failed: POST /users - missing email - bad")]);
}

#[test]
fn matching_status_and_json_response_pass_five() {
    let mut c = fresh();
    let r = reply(200, Some("application/json;charset=utf-8"), r#"{"email":"a@b.c"}"#);
    let outcome = c.check_response(r, 200);
    assert_eq!(outcome, Outcome::Json(json(r#"{"email":"a@b.c"}"#)));
    assert_eq!(c.passed, 5);
    assert_eq!(c.failed, 0);
}

#[test]
fn status_mismatch_names_both_codes() {
    let mut c = fresh();
    let r = reply(404, Some("application/json;charset=utf-8"), r#"{"error":"x"}"#);
    c.check_response(r, 200);
    assert_eq!(c.failed, 1);
    assert_eq!(c.passed, 4);
    assert_eq!(
        c.take_log(),
        vec![String::from(
            "Failed: GET / -  - should have returned '200 OK' but returned '404 Not Found'"
        )]
    );
}

#[test]
fn status_without_reason_phrase() {
    let mut c = fresh();
    c.check_response(reply(299, None, ""), 405);
    let log = c.take_log();
    assert_eq!(
        log[0],
        "Failed: GET / -  - should have returned '405 Method Not Allowed' but returned '299 <unknown status code>'"
    );
}

#[test]
fn missing_content_type_gives_fallback() {
    let mut c = fresh();
    let outcome = c.check_response(reply(400, None, r#"{"error":"x"}"#), 400);
    assert_eq!(outcome, Outcome::RawBody(String::from("body")));
    assert_eq!(c.passed, 1);
    assert_eq!(c.failed, 1);
    assert_eq!(c.take_log(), vec![String::from("Failed: GET / -  - missing content-type")]);
}

#[test]
fn other_media_type_stops_the_checks() {
    let mut c = fresh();
    let outcome = c.check_response(reply(200, Some("text/html"), r#"{"a":1}"#), 200);
    assert_eq!(outcome, Outcome::RawBody(String::from("body")));
    assert_eq!(c.passed, 2);
    assert_eq!(c.failed, 1);
    assert_eq!(
        c.take_log(),
        vec![String::from(
            "Failed: GET / -  - content-type is 'text/html' instead of application/json"
        )]
    );
}

#[test]
fn media_type_is_case_sensitive() {
    let mut c = fresh();
    c.check_response(reply(200, Some("Application/JSON;charset=utf-8"), "{}"), 200);
    assert_eq!(c.failed, 1);
    assert_eq!(c.passed, 2);
}

#[test]
fn charset_missing_is_advisory() {
    let mut c = fresh();
    let outcome = c.check_response(reply(200, Some("application/json"), r#"{"a":1}"#), 200);
    assert_eq!(outcome, Outcome::Json(json(r#"{"a":1}"#)));
    assert_eq!(c.passed, 4);
    assert_eq!(c.failed, 1);
    assert_eq!(
        c.take_log(),
        vec![String::from(
            "Failed: GET / -  - content-type missing 'charset=utf-8' or has too many parts"
        )]
    );
}

#[test]
fn charset_with_space_or_extra_part_fails() {
    let mut c = fresh();
    c.check_response(reply(200, Some("application/json; charset=utf-8"), "{}"), 200);
    assert_eq!(c.failed, 1);
    c.check_response(reply(200, Some("application/json;charset=utf-8;q=1"), "{}"), 200);
    assert_eq!(c.failed, 2);
    assert_eq!(c.passed, 8);
}

#[test]
fn unparseable_body_is_one_failure() {
    let mut c = fresh();
    let outcome = c.check_response(reply(400, Some("application/json;charset=utf-8"), "not json"), 400);
    assert_eq!(outcome, Outcome::RawBody(String::from("body")));
    assert_eq!(c.passed, 4);
    assert_eq!(c.failed, 1);
    assert_eq!(
        c.take_log(),
        vec![String::from("Failed: GET / -  - could not parse response as json")]
    );
}

#[test]
fn json_content_type_alone() {
    let mut c = fresh();
    let r = reply(200, Some("application/json;charset=utf-8"), "[1,2]");
    assert_eq!(c.check_json_content_type(&r), Some(json("[1,2]")));
    assert_eq!(c.passed, 4);
}

#[test]
fn string_property_present() {
    let mut c = fresh();
    let v = json(r#"{"email":"a@b.c","id":7}"#);
    assert_eq!(c.get_property_string(&v, "email"), Some(String::from("a@b.c")));
    assert_eq!(c.passed, 0);
    assert_eq!(c.failed, 0);
}

#[test]
fn string_property_missing_echoes_document() {
    let mut c = fresh();
    let v = json(r#"{"id":7}"#);
    assert_eq!(c.get_property_string(&v, "email"), None);
    assert_eq!(c.failed, 1);
    let expected = format!("Failed: GET / -  - json does not have a 'email' property: {:?}", v);
    assert_eq!(c.take_log(), vec![expected]);
}

#[test]
fn string_property_of_other_type() {
    let mut c = fresh();
    let v = json(r#"{"email":123}"#);
    assert_eq!(c.get_property_string(&v, "email"), None);
    assert_eq!(
        c.take_log(),
        vec![String::from("Failed: GET / -  - json 'email' property is not a string")]
    );
}

#[test]
fn integer_property_present_and_negative() {
    let mut c = fresh();
    let v = json(r#"{"id":7,"created":-5}"#);
    assert_eq!(c.get_property_i64(&v, "id"), Some(7));
    assert_eq!(c.get_property_i64(&v, "created"), Some(-5));
    assert_eq!(c.failed, 0);
}

#[test]
fn integer_property_of_other_kinds() {
    let mut c = fresh();
    let v = json(r#"{"a":"7","b":1.5,"c":18446744073709551615}"#);
    assert_eq!(c.get_property_i64(&v, "a"), None);
    assert_eq!(c.get_property_i64(&v, "b"), None);
    assert_eq!(c.get_property_i64(&v, "c"), None);
    assert_eq!(c.failed, 3);
    assert_eq!(c.take_log()[0], "Failed: GET / -  - json 'a' property is not an integer");
}

#[test]
fn property_of_non_object() {
    let mut c = fresh();
    let v = json("[1]");
    assert_eq!(c.get_property_i64(&v, "id"), None);
    assert_eq!(c.failed, 1);
}

#[test]
fn reading_twice_fails_twice() {
    let mut c = fresh();
    let v = json(r#"{"id":"x"}"#);
    let first = c.get_property_i64(&v, "id");
    let second = c.get_property_i64(&v, "id");
    assert_eq!(first, second);
    assert_eq!(c.failed, 2);
    let log = c.take_log();
    assert_eq!(log.len(), 2);
    assert_eq!(log[0], log[1]);
}

#[test]
fn reading_twice_succeeds_twice() {
    let mut c = fresh();
    let v = json(r#"{"secret":"s"}"#);
    let first = c.get_property_string(&v, "secret");
    let second = c.get_property_string(&v, "secret");
    assert_eq!(first, Some(String::from("s")));
    assert_eq!(first, second);
    assert_eq!(c.failed, 0);
}

#[test]
fn contains_one_folds_the_haystack() {
    let mut c = fresh();
    assert!(c.check_contains_one("body", String::from("Email Is REQUIRED"), vec!["email"]));
    assert_eq!(c.passed, 1);
}

#[test]
fn contains_one_does_not_fold_needles() {
    let mut c = fresh();
    assert!(!c.check_contains_one("body", String::from("email is required"), vec!["Email"]));
    assert_eq!(
        c.take_log(),
        vec![String::from("Failed: GET / -  - body does not mention 'Email': 'email is required'")]
    );
}

#[test]
fn any_of_several_needles() {
    let mut c = fresh();
    assert!(c.check_contains_one("body", String::from("Missing Content-Length"), vec!["body", "content-length"]));
    assert_eq!(c.passed, 1);
    assert!(!c.check_contains_one("body", String::from("Nope"), vec!["body", "content-length"]));
    assert_eq!(
        c.take_log(),
        vec![String::from(
            "Failed: GET / -  - body does not mention one of 'body, content-length': 'nope'"
        )]
    );
}

#[test]
fn no_needles_never_pass() {
    let mut c = fresh();
    assert!(!c.check_contains_one("body", String::from("anything"), vec![]));
    assert_eq!(c.failed, 1);
}

#[test]
fn single_needle_same_as_list_of_one() {
    let mut a = fresh();
    let mut b = fresh();
    a.check_error_response(Outcome::Json(json(r#"{"error":"Email in use"}"#)), "in use");
    b.check_error_response_multi(Outcome::Json(json(r#"{"error":"Email in use"}"#)), vec!["in use"]);
    assert_eq!((a.passed, a.failed), (b.passed, b.failed));
    assert_eq!(a.passed, 1);
}

#[test]
fn error_response_from_json_error_member() {
    let mut c = fresh();
    c.check_error_response(Outcome::Json(json(r#"{"error":"Invalid credentials"}"#)), "invalid");
    assert_eq!((c.passed, c.failed), (1, 0));
    c.check_error_response(Outcome::Json(json(r#"{"error":"Method not allowed"}"#)), "email");
    assert_eq!(
        c.take_log(),
        vec![String::from(
            "Failed: GET / -  - json 'error' property does not mention 'email': 'method not allowed'"
        )]
    );
}

#[test]
fn error_response_without_error_member() {
    let mut c = fresh();
    c.check_error_response(Outcome::Json(json(r#"{"message":"x"}"#)), "x");
    assert_eq!((c.passed, c.failed), (0, 1));
}

#[test]
fn error_response_from_fallback_body() {
    let mut c = fresh();
    c.check_error_response(Outcome::RawBody(String::from("body")), "body");
    assert_eq!((c.passed, c.failed), (1, 0));
    c.check_error_response(Outcome::RawBody(String::from("body")), "parse");
    assert_eq!((c.passed, c.failed), (1, 1));
}

#[test]
fn error_response_with_nothing() {
    let mut c = fresh();
    c.check_error_response_multi(Outcome::Empty, vec!["a", "b"]);
    assert_eq!(c.failed, 1);
    assert_eq!(c.take_log(), vec![String::from("Failed: GET / -  - no body in response")]);
}

#[test]
fn get_request_has_no_headers() {
    let mut c = fresh();
    c.path = "/tokens/current";
    let r = c.get("inspect");
    assert_eq!(r.method, HttpMethod::Get);
    assert_eq!(r.url, "http://localhost:3000/tokens/current");
    assert!(r.headers.is_empty());
    assert_eq!(r.body, None);
}

#[test]
fn token_requests_carry_cookie() {
    let mut c = fresh();
    c.path = "/tokens/current";
    let cookie = vec![(String::from("cookie"), String::from("token=abc"))];
    let r = c.get_with_token("g", String::from("abc"));
    assert_eq!((r.method, r.headers.clone()), (HttpMethod::Get, cookie.clone()));
    let r = c.delete_with_token("g", String::from("abc"));
    assert_eq!((r.method, r.headers.clone()), (HttpMethod::Delete, cookie.clone()));
    let r = c.post_with_token("g", String::from("abc"));
    assert_eq!((r.method, r.headers.clone(), r.body), (HttpMethod::Post, cookie, None));
}

#[test]
fn delete_request() {
    let mut c = fresh();
    c.path = "/tokens";
    let r = c.delete("method not allowed");
    assert_eq!(r.method, HttpMethod::Delete);
    assert_eq!(r.url, "http://localhost:3000/tokens");
    c.fail(String::from("x"));
    assert_eq!(c.take_log(), vec![String::from("Failed: DELETE /tokens - method not allowed - x")]);
}

#[test]
fn post_variants_set_content_type() {
    let mut c = fresh();
    let json_type = vec![(String::from("content-type"), String::from("application/json"))];
    let r = c.post("g", String::from("{}"));
    assert_eq!((r.headers.clone(), r.body.clone()), (json_type, Some(String::from("{}"))));
    let r = c.post_content_type("g", "application/json;encoding=utf8", String::from("{}"));
    assert_eq!(r.headers[0].1, "application/json;encoding=utf8");
    let r = c.post_bad_content_type("g");
    assert_eq!(r.headers[0].1, "image/png");
    assert_eq!(r.body, None);
    let r = c.post_no_content_type("g", String::from("{}"));
    assert!(r.headers.is_empty());
    assert_eq!(r.body, Some(String::from("{}")));
    let r = c.post_no_body("g");
    assert!(r.headers.is_empty());
    assert_eq!(r.body, None);
    assert_eq!(r.method, HttpMethod::Post);
}

#[test]
fn array_property_present() {
    let mut c = fresh();
    let v = json(r#"{"tokens":[{"id":"a"},{"id":"b"}]}"#);
    let tokens = c.get_property_array(&v, "tokens").unwrap();
    assert_eq!(tokens.len(), 2);
    assert_eq!(tokens[1], json(r#"{"id":"b"}"#));
    assert_eq!(c.failed, 0);
}

#[test]
fn array_property_of_other_type_or_missing() {
    let mut c = fresh();
    let v = json(r#"{"tokens":{"id":"a"}}"#);
    assert!(c.get_property_array(&v, "tokens").is_none());
    assert!(c.get_property_array(&v, "list").is_none());
    assert_eq!(c.failed, 2);
    let log = c.take_log();
    assert_eq!(log[0], "Failed: GET / -  - json 'tokens' property is not an array");
    assert!(log[1].starts_with("Failed: GET / -  - json does not have a 'list' property: "));
}

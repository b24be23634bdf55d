//! Properties that hold of the engine for every input.
use vstd::prelude::*;
use crate::checker::{
    has_utf8_charset, is_json_media_type, mentions_any, status_message, unmentioned_message,
    wrong_type_message, Tally,
};
use crate::json::json_document;
use crate::status::status_text;
use crate::text::{contains_seq, decimal, lemma_split_pair, lemma_split_plain, lower_of};

verus! {

/// The status assertion passes exactly when the observed status equals the
/// expected one; on a mismatch its description names both codes.
pub proof fn lemma_status_assertion(t: Tally, status: u16, expected: u16)
    ensures
        t.check_status(status, expected).passed == t.passed + 1 <==> status == expected,
        t.check_status(status, expected).failed == t.failed + 1 <==> status != expected,
        status == expected ==> t.check_status(status, expected) == t.pass(1),
        status != expected ==> t.check_status(status, expected) == t.fail(
            status_message(expected, status),
        ),
        contains_seq(status_message(expected, status), decimal(expected as nat)),
        contains_seq(status_message(expected, status), decimal(status as nat)),
{
    let a = "should have returned '"@;
    let b = "' but returned '"@;
    let e = status_text(expected);
    let s = status_text(status);
    let m = status_message(expected, status);
    let de = decimal(expected as nat);
    let ds = decimal(status as nat);
    assert(m =~= a + e + b + s + "'"@);
    assert(e =~= de + (e.subrange(de.len() as int, e.len() as int)));
    assert(s =~= ds + (s.subrange(ds.len() as int, s.len() as int)));
    let i = a.len() as int;
    assert(m.subrange(i, i + de.len()) =~= de);
    let j = (a.len() + e.len() + b.len()) as int;
    assert(m.subrange(j, j + ds.len()) =~= ds);
}

/// With a `content-type` header present, the media-type assertion passes
/// exactly when the first `;`-delimited segment is `application/json`, and
/// then stops the checks where it fails; past it, the charset assertion
/// passes exactly when there are two segments, the second `charset=utf-8`,
/// and the body assertion exactly when the body holds a document.
pub proof fn lemma_content_type_assertions(t: Tally, ct: Seq<char>, body: Seq<u8>)
    ensures
        !is_json_media_type(ct) ==> t.json_content_type(Some(ct), body) == (
            t.pass(1).fail(wrong_type_message(ct)),
            None::<serde_json::Value>,
        ),
        is_json_media_type(ct) ==> t.json_content_type(Some(ct), body).1 == json_document(body),
        is_json_media_type(ct) ==> t.json_content_type(Some(ct), body).0.passed == t.passed + 2
            + (if has_utf8_charset(ct) {
            1int
        } else {
            0int
        }) + (if json_document(body) is Some {
            1int
        } else {
            0int
        }),
        is_json_media_type(ct) ==> t.json_content_type(Some(ct), body).0.failed == t.failed + (
        if has_utf8_charset(ct) {
            0int
        } else {
            1int
        }) + (if json_document(body) is Some {
            0int
        } else {
            1int
        }),
{
}

/// A content type without `;` is JSON exactly when it is `application/json`,
/// and never carries the charset.
pub proof fn lemma_single_segment_content_type(ct: Seq<char>)
    requires
        !ct.contains(';'),
    ensures
        is_json_media_type(ct) <==> ct == "application/json"@,
        !has_utf8_charset(ct),
{
    lemma_split_plain(ct, ';');
}

/// A content type `a;b`, with no other `;`, is JSON exactly when `a` is
/// `application/json`, and carries the charset exactly when `b` is `charset=utf-8`.
pub proof fn lemma_two_segment_content_type(a: Seq<char>, b: Seq<char>)
    requires
        !a.contains(';'),
        !b.contains(';'),
    ensures
        is_json_media_type(a + seq![';'] + b) <==> a == "application/json"@,
        has_utf8_charset(a + seq![';'] + b) <==> b == "charset=utf-8"@,
{
    lemma_split_pair(a, b, ';');
}

/// The containment assertion passes exactly when some needle occurs in the
/// case-folded haystack, counting one pass, or else one failure that names
/// the needles and the haystack; with a single needle it passes exactly when
/// that needle occurs.
pub proof fn lemma_any_needle(
    t: Tally,
    prefix: Seq<char>,
    haystack: Seq<char>,
    needles: Seq<Seq<char>>,
)
    ensures
        t.contains_one(prefix, haystack, needles).1 <==> exists|i: int|
            0 <= i < needles.len() && #[trigger] contains_seq(lower_of(haystack), needles[i]),
        t.contains_one(prefix, haystack, needles).1 ==> t.contains_one(prefix, haystack, needles).0
            == t.pass(1),
        !t.contains_one(prefix, haystack, needles).1 ==> t.contains_one(
            prefix,
            haystack,
            needles,
        ).0 == t.fail(unmentioned_message(prefix, needles, lower_of(haystack))),
        needles.len() == 1 ==> (t.contains_one(prefix, haystack, needles).1 <==> contains_seq(
            lower_of(haystack),
            needles[0],
        )),
{
    if needles.len() == 1 && contains_seq(lower_of(haystack), needles[0]) {
        assert(mentions_any(lower_of(haystack), needles));
    }
}

/// Reading a string member twice from one document gives the same result
/// both times; where it fails, each read counts and logs its own failure.
pub proof fn lemma_string_read_repeats(t: Tally, json: serde_json::Value, name: Seq<char>)
    ensures
        t.property_string(json, name).0.property_string(json, name).1 == t.property_string(
            json,
            name,
        ).1,
        t.property_string(json, name).1 is Some ==> t.property_string(json, name).0.property_string(
            json,
            name,
        ).0 == t,
        t.property_string(json, name).1 is None ==> {
            let twice = t.property_string(json, name).0.property_string(json, name).0;
            &&& twice.failed == t.failed + 2
            &&& twice.passed == t.passed
            &&& twice.log.len() == t.log.len() + 2
            &&& twice.log[t.log.len() as int] == twice.log[t.log.len() + 1int]
        },
{
}

/// Reading an integer member twice from one document gives the same result
/// both times; where it fails, each read counts and logs its own failure.
pub proof fn lemma_integer_read_repeats(t: Tally, json: serde_json::Value, name: Seq<char>)
    ensures
        t.property_i64(json, name).0.property_i64(json, name).1 == t.property_i64(json, name).1,
        t.property_i64(json, name).1 is Some ==> t.property_i64(json, name).0.property_i64(
            json,
            name,
        ).0 == t,
        t.property_i64(json, name).1 is None ==> {
            let twice = t.property_i64(json, name).0.property_i64(json, name).0;
            &&& twice.failed == t.failed + 2
            &&& twice.passed == t.passed
            &&& twice.log.len() == t.log.len() + 2
            &&& twice.log[t.log.len() as int] == twice.log[t.log.len() + 1int]
        },
{
}

} // verus!

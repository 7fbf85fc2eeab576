//! Building JSON values, and the request frames of the gateway protocol.
use vstd::prelude::*;
use crate::json::{JsonValue, JsonView, get_str, lemma_view_items, lemma_view_members, view_items, view_members};
use crate::text::{decimal, i64_to_decimal, int_text, u64_to_decimal};

verus! {

pub open spec fn jstr(s: Seq<char>) -> JsonView {
    JsonView::Str(s)
}

/// A JSON number for a non-negative integer.
pub open spec fn jnat(n: nat) -> JsonView {
    JsonView::Number(decimal(n))
}

/// A JSON number for an integer.
pub open spec fn jint(n: int) -> JsonView {
    JsonView::Number(int_text(n))
}

pub open spec fn str_views(v: Seq<String>) -> Seq<Seq<char>> {
    v.map_values(|s: String| s@)
}

/// A JSON array of strings.
pub open spec fn jstrs(v: Seq<Seq<char>>) -> JsonView {
    JsonView::Array(v.map_values(|s: Seq<char>| JsonView::Str(s)))
}

/// A string, or `null` where there is none.
pub open spec fn jopt_str(o: Option<Seq<char>>) -> JsonView {
    match o {
        Some(s) => JsonView::Str(s),
        None => JsonView::Null,
    }
}

/// Appends a member to an object under construction.
pub fn push_member(ms: &mut Vec<(String, JsonValue)>, key: &str, v: JsonValue)
    ensures
        view_members(final(ms)@) == view_members(old(ms)@).push((key@, v@)),
{
    let ghost vv = v@;
    ms.push((String::from_str(key), v));
    proof {
        lemma_view_members(ms@);
        lemma_view_members(old(ms)@);
        assert(view_members(ms@) =~= view_members(old(ms)@).push((key@, vv)));
    }
}

pub fn new_members() -> (r: Vec<(String, JsonValue)>)
    ensures
        view_members(r@) == Seq::<(Seq<char>, JsonView)>::empty(),
{
    let r: Vec<(String, JsonValue)> = Vec::new();
    assert(view_members(r@) =~= Seq::empty());
    r
}

pub fn json_string(s: &str) -> (r: JsonValue)
    ensures
        r@ == jstr(s@),
{
    JsonValue::Str(String::from_str(s))
}

pub fn json_nat(n: u64) -> (r: JsonValue)
    ensures
        r@ == jnat(n as nat),
{
    JsonValue::Number(u64_to_decimal(n))
}

pub fn json_int(n: i64) -> (r: JsonValue)
    ensures
        r@ == jint(n as int),
{
    JsonValue::Number(i64_to_decimal(n))
}

pub fn json_opt_string(o: Option<&str>) -> (r: JsonValue)
    ensures
        r@ == jopt_str(
            match o {
                Some(s) => Some(s@),
                None => None,
            },
        ),
{
    match o {
        Some(s) => json_string(s),
        None => JsonValue::Null,
    }
}

/// A JSON array of the strings, in order.
pub fn json_strings(v: &Vec<String>) -> (r: JsonValue)
    ensures
        r@ == jstrs(str_views(v@)),
{
    let mut items: Vec<JsonValue> = Vec::new();
    let mut i: usize = 0;
    while i < v.len()
        invariant
            i <= v@.len(),
            view_items(items@) == str_views(v@.take(i as int)).map_values(|s: Seq<char>| JsonView::Str(s)),
        decreases v@.len() - i,
    {
        let ghost before = items@;
        items.push(JsonValue::Str(v[i].clone()));
        proof {
            lemma_view_items(items@);
            lemma_view_items(before);
            assert(view_items(items@) =~= view_items(before).push(JsonView::Str(v@[i as int]@)));
            assert(str_views(v@.take(i + 1)).map_values(|s: Seq<char>| JsonView::Str(s)) =~= str_views(
                v@.take(i as int),
            ).map_values(|s: Seq<char>| JsonView::Str(s)).push(JsonView::Str(v@[i as int]@)));
        }
        i = i + 1;
    }
    proof {
        lemma_view_items(items@);
        assert(v@.take(v@.len() as int) =~= v@);
        if v@.len() == 0 {
            assert(view_items(items@) =~= Seq::empty());
        }
    }
    JsonValue::Array(items)
}

/// A request frame: `{"type": "req", "id": id, "method": method}`, with
/// `params` where there are any.
pub open spec fn request_frame(id: Seq<char>, method: Seq<char>, params: Option<JsonView>) -> JsonView {
    let base = seq![("type"@, jstr("req"@)), ("id"@, jstr(id)), ("method"@, jstr(method))];
    match params {
        Some(p) => JsonView::Object(base.push(("params"@, p))),
        None => JsonView::Object(base),
    }
}

pub fn build_request_frame(id: &str, method: &str, params: Option<JsonValue>) -> (r: JsonValue)
    ensures
        r@ == request_frame(
            id@,
            method@,
            match params {
                Some(p) => Some(p@),
                None => None,
            },
        ),
{
    proof {
        reveal_strlit("req");
    }
    let mut ms = new_members();
    push_member(&mut ms, "type", json_string("req"));
    push_member(&mut ms, "id", json_string(id));
    push_member(&mut ms, "method", json_string(method));
    let ghost base = seq![("type"@, jstr("req"@)), ("id"@, jstr(id@)), ("method"@, jstr(method@))];
    assert(view_members(ms@) =~= base);
    match params {
        Some(p) => push_member(&mut ms, "params", p),
        None => {},
    }
    JsonValue::Object(ms)
}

/// The `message` string of a response's `error`, else `fallback`.
pub open spec fn error_message(error: Option<JsonView>, fallback: Seq<char>) -> Seq<char> {
    match error {
        Some(e) => match get_str(e, "message"@) {
            Some(m) => m,
            None => fallback,
        },
        None => fallback,
    }
}

pub fn response_error_message(error: Option<&JsonValue>, fallback: &str) -> (r: String)
    ensures
        r@ == error_message(
            match error {
                Some(e) => Some(e@),
                None => None,
            },
            fallback@,
        ),
{
    proof {
        reveal_strlit("message");
    }
    match error {
        Some(e) => match e.get("message") {
            Some(m) => match m.as_str() {
                Some(s) => s.clone(),
                None => String::from_str(fallback),
            },
            None => String::from_str(fallback),
        },
        None => String::from_str(fallback),
    }
}

} // verus!

//! JSON values as the library reads and writes them.
use vstd::prelude::*;
use crate::text::{parse_u64_digits, parse_u64_spec, str_eq};

verus! {

/// A JSON document. Numbers keep the text that `serde_json` prints for them;
/// an object keeps its members in order, and a lookup finds the first member
/// with the key.
#[derive(Debug, PartialEq)]
pub enum JsonValue {
    Null,
    Bool(bool),
    Number(String),
    Str(String),
    Array(Vec<JsonValue>),
    Object(Vec<(String, JsonValue)>),
}

/// The mathematical model of a [`JsonValue`].
pub enum JsonView {
    Null,
    Bool(bool),
    Number(Seq<char>),
    Str(Seq<char>),
    Array(Seq<JsonView>),
    Object(Seq<(Seq<char>, JsonView)>),
}

pub open spec fn view_items(items: Seq<JsonValue>) -> Seq<JsonView>
    decreases items,
{
    if items.len() == 0 {
        Seq::empty()
    } else {
        view_items(items.drop_last()).push(view_value(items.last()))
    }
}

pub open spec fn view_members(members: Seq<(String, JsonValue)>) -> Seq<(Seq<char>, JsonView)>
    decreases members,
{
    if members.len() == 0 {
        Seq::empty()
    } else {
        view_members(members.drop_last()).push(
            (members.last().0@, view_value(members.last().1)),
        )
    }
}

pub open spec fn view_value(v: JsonValue) -> JsonView
    decreases v,
{
    match v {
        JsonValue::Null => JsonView::Null,
        JsonValue::Bool(b) => JsonView::Bool(b),
        JsonValue::Number(t) => JsonView::Number(t@),
        JsonValue::Str(s) => JsonView::Str(s@),
        JsonValue::Array(items) => JsonView::Array(view_items(items@)),
        JsonValue::Object(members) => JsonView::Object(view_members(members@)),
    }
}

impl View for JsonValue {
    type V = JsonView;

    open spec fn view(&self) -> JsonView {
        view_value(*self)
    }
}


pub proof fn lemma_view_items(items: Seq<JsonValue>)
    ensures
        view_items(items).len() == items.len(),
        forall|i: int| 0 <= i < items.len() ==> #[trigger] view_items(items)[i] == view_value(items[i]),
    decreases items.len(),
{
    if items.len() > 0 {
        lemma_view_items(items.drop_last());
    }
}

pub proof fn lemma_view_members(ms: Seq<(String, JsonValue)>)
    ensures
        view_members(ms).len() == ms.len(),
        forall|i: int|
            0 <= i < ms.len() ==> #[trigger] view_members(ms)[i] == (ms[i].0@, view_value(ms[i].1)),
    decreases ms.len(),
{
    if ms.len() > 0 {
        lemma_view_members(ms.drop_last());
    }
}

/// The index of the first member whose key is `key`, or -1.
pub open spec fn find_key(ms: Seq<(Seq<char>, JsonView)>, key: Seq<char>) -> int
    decreases ms.len(),
{
    if ms.len() == 0 {
        -1
    } else if ms[0].0 == key {
        0
    } else {
        let r = find_key(ms.drop_first(), key);
        if r < 0 {
            -1
        } else {
            r + 1
        }
    }
}

pub proof fn lemma_find_key(ms: Seq<(Seq<char>, JsonView)>, key: Seq<char>)
    ensures
        -1 <= find_key(ms, key) < ms.len(),
        find_key(ms, key) >= 0 ==> ms[find_key(ms, key)].0 == key,
        forall|j: int| 0 <= j < ms.len() && (find_key(ms, key) < 0 || j < find_key(ms, key))
            ==> #[trigger] ms[j].0 != key,
    decreases ms.len(),
{
    if ms.len() > 0 {
        lemma_find_key(ms.drop_first(), key);
        assert forall|j: int| 0 <= j < ms.len() && (find_key(ms, key) < 0 || j < find_key(ms, key))
            implies #[trigger] ms[j].0 != key by {
            if j > 0 {
                assert(ms.drop_first()[j - 1] == ms[j]);
            }
        }
    }
}

/// Members with `key` set to `v`: in place of the first member with that
/// key, or appended.
pub open spec fn members_insert(ms: Seq<(Seq<char>, JsonView)>, key: Seq<char>, v: JsonView) -> Seq<(Seq<char>, JsonView)> {
    let i = find_key(ms, key);
    if i >= 0 {
        ms.update(i, (key, v))
    } else {
        ms.push((key, v))
    }
}

/// Members without any member whose key is `key`.
pub open spec fn members_remove(ms: Seq<(Seq<char>, JsonView)>, key: Seq<char>) -> Seq<(Seq<char>, JsonView)>
    decreases ms.len(),
{
    if ms.len() == 0 {
        ms
    } else if ms.last().0 == key {
        members_remove(ms.drop_last(), key)
    } else {
        members_remove(ms.drop_last(), key).push(ms.last())
    }
}

impl JsonView {
    pub open spec fn members(self) -> Seq<(Seq<char>, JsonView)> {
        match self {
            JsonView::Object(ms) => ms,
            _ => Seq::empty(),
        }
    }

    /// `Value::get` with a string key: the member's value in an object.
    pub open spec fn get(self, key: Seq<char>) -> Option<JsonView> {
        match self {
            JsonView::Object(ms) => {
                let i = find_key(ms, key);
                if i >= 0 {
                    Some(ms[i].1)
                } else {
                    None
                }
            },
            _ => None,
        }
    }

    /// `Value::as_str`.
    pub open spec fn as_str(self) -> Option<Seq<char>> {
        match self {
            JsonView::Str(s) => Some(s),
            _ => None,
        }
    }

    /// `Value::as_bool`.
    pub open spec fn as_bool(self) -> Option<bool> {
        match self {
            JsonView::Bool(b) => Some(b),
            _ => None,
        }
    }

    /// The value itself where it is an object, else an empty object.
    pub open spec fn as_object(self) -> JsonView {
        JsonView::Object(self.members())
    }

    /// The object with `key` set to `v` (a non-object counts as empty).
    pub open spec fn insert(self, key: Seq<char>, v: JsonView) -> JsonView {
        JsonView::Object(members_insert(self.members(), key, v))
    }

    /// The object without `key` (a non-object counts as empty).
    pub open spec fn remove(self, key: Seq<char>) -> JsonView {
        JsonView::Object(members_remove(self.members(), key))
    }

    /// The member `key` as an object, as `entry(key).or_insert_with(empty)`
    /// followed by normalising it to an object gives it.
    pub open spec fn child_object(self, key: Seq<char>) -> JsonView {
        match self.get(key) {
            Some(c) => c.as_object(),
            None => JsonView::Object(Seq::empty()),
        }
    }
}

/// `Value::get(key).and_then(Value::as_str)`.
pub open spec fn get_str(v: JsonView, key: Seq<char>) -> Option<Seq<char>> {
    match v.get(key) {
        Some(c) => c.as_str(),
        None => None,
    }
}

/// The view of an optional borrowed value.
pub open spec fn opt_view(o: Option<&JsonValue>) -> Option<JsonView> {
    match o {
        Some(v) => Some(v@),
        None => None,
    }
}

/// The view of an optional value.
pub open spec fn opt_value_view(o: Option<JsonValue>) -> Option<JsonView> {
    match o {
        Some(v) => Some(v@),
        None => None,
    }
}

/// The index of the first member of `ms` with key `key`, if any.
fn find_member(ms: &Vec<(String, JsonValue)>, key: &str) -> (r: Option<usize>)
    ensures
        match r {
            Some(i) => find_key(view_members(ms@), key@) == i as int,
            None => find_key(view_members(ms@), key@) < 0,
        },
{
    proof {
        lemma_view_members(ms@);
        lemma_find_key(view_members(ms@), key@);
    }
    let k = String::from_str(key);
    let mut i: usize = 0;
    while i < ms.len()
        invariant
            k@ == key@,
            i <= ms@.len(),
            view_members(ms@).len() == ms@.len(),
            forall|j: int| 0 <= j < i ==> #[trigger] ms@[j].0@ != key@,
            forall|j: int|
                0 <= j < ms@.len() ==> #[trigger] view_members(ms@)[j] == (
                    ms@[j].0@,
                    view_value(ms@[j].1),
                ),
            -1 <= find_key(view_members(ms@), key@) < ms@.len(),
            find_key(view_members(ms@), key@) >= 0 ==> view_members(ms@)[find_key(
                view_members(ms@),
                key@,
            )].0 == key@,
            forall|j: int|
                0 <= j < ms@.len() && (find_key(view_members(ms@), key@) < 0 || j < find_key(
                    view_members(ms@),
                    key@,
                )) ==> #[trigger] view_members(ms@)[j].0 != key@,
        decreases ms@.len() - i,
    {
        if ms[i].0 == k {
            assert(view_members(ms@)[i as int].0 == key@);
            return Some(i);
        }
        i = i + 1;
    }
    proof {
        let f = find_key(view_members(ms@), key@);
        if f >= 0 {
            assert(ms@[f].0@ != key@);
        }
    }
    None
}

impl JsonValue {
    /// `Value::get` with a string key.
    pub fn get(&self, key: &str) -> (r: Option<&JsonValue>)
        ensures
            opt_view(r) == self@.get(key@),
    {
        match self {
            JsonValue::Object(ms) => {
                proof {
                    lemma_view_members(ms@);
                    lemma_find_key(view_members(ms@), key@);
                }
                match find_member(ms, key) {
                    Some(i) => Some(&ms[i].1),
                    None => None,
                }
            },
            _ => None,
        }
    }

    /// `Value::as_str`.
    pub fn as_str(&self) -> (r: Option<&String>)
        ensures
            match r {
                Some(s) => self@.as_str() == Some(s@),
                None => self@.as_str() is None,
            },
    {
        match self {
            JsonValue::Str(s) => Some(s),
            _ => None,
        }
    }

    /// `Value::as_bool`.
    pub fn as_bool(&self) -> (r: Option<bool>)
        ensures
            r == self@.as_bool(),
    {
        match self {
            JsonValue::Bool(b) => Some(*b),
            _ => None,
        }
    }
}


impl JsonValue {
    /// A copy of the value, member by member.
    pub fn deep_copy(&self) -> (r: JsonValue)
        ensures
            r@ == self@,
        decreases self,
    {
        match self {
            JsonValue::Null => JsonValue::Null,
            JsonValue::Bool(b) => JsonValue::Bool(*b),
            JsonValue::Number(t) => JsonValue::Number(t.clone()),
            JsonValue::Str(t) => JsonValue::Str(t.clone()),
            JsonValue::Array(items) => {
                let mut out: Vec<JsonValue> = Vec::new();
                let mut i: usize = 0;
                proof {
                    lemma_view_items(items@);
                    assert(decreases_to!(*self => *items));
                    assert(decreases_to!(*items => items@));
                    assert forall|j: int| 0 <= j < items@.len() implies decreases_to!(*self => #[trigger] items@[j]) by {
                        assert(decreases_to!(items@ => items@[j]));
                    }
                }
                while i < items.len()
                    invariant
                        i <= items@.len(),
                        out@.len() == i,
                        view_items(items@).len() == items@.len(),
                        forall|j: int|
                            0 <= j < items@.len() ==> #[trigger] view_items(items@)[j]
                                == view_value(items@[j]),
                        forall|j: int|
                            0 <= j < i ==> #[trigger] view_value(out@[j]) == view_value(
                                items@[j],
                            ),
                        forall|j: int| 0 <= j < items@.len() ==> decreases_to!(*self => #[trigger] items@[j]),
                    decreases items@.len() - i,
                {
                    let c = items[i].deep_copy();
                    out.push(c);
                    i = i + 1;
                }
                proof {
                    lemma_view_items(out@);
                    assert(view_items(out@) =~= view_items(items@));
                }
                JsonValue::Array(out)
            },
            JsonValue::Object(ms) => {
                let mut out: Vec<(String, JsonValue)> = Vec::new();
                let mut i: usize = 0;
                proof {
                    lemma_view_members(ms@);
                    assert(decreases_to!(*self => *ms));
                    assert(decreases_to!(*ms => ms@));
                    assert forall|j: int| 0 <= j < ms@.len() implies decreases_to!(*self => #[trigger] ms@[j].1) by {
                        assert(decreases_to!(ms@ => ms@[j]));
                        assert(decreases_to!(ms@[j] => ms@[j].1));
                    }
                }
                while i < ms.len()
                    invariant
                        i <= ms@.len(),
                        out@.len() == i,
                        view_members(ms@).len() == ms@.len(),
                        forall|j: int|
                            0 <= j < ms@.len() ==> #[trigger] view_members(ms@)[j] == (
                                ms@[j].0@,
                                view_value(ms@[j].1),
                            ),
                        forall|j: int|
                            0 <= j < i ==> #[trigger] out@[j].0@ == ms@[j].0@ && view_value(
                                out@[j].1,
                            ) == view_value(ms@[j].1),
                        forall|j: int| 0 <= j < ms@.len() ==> decreases_to!(*self => #[trigger] ms@[j].1),
                    decreases ms@.len() - i,
                {
                    let c = ms[i].1.deep_copy();
                    let k = ms[i].0.clone();
                    out.push((k, c));
                    i = i + 1;
                }
                proof {
                    lemma_view_members(out@);
                    assert(view_members(out@) =~= view_members(ms@));
                }
                JsonValue::Object(out)
            },
        }
    }

    /// The members of an object; a non-object has none.
    pub fn into_members(self) -> (r: Vec<(String, JsonValue)>)
        ensures
            view_members(r@) == self@.members(),
    {
        match self {
            JsonValue::Object(ms) => ms,
            _ => {
                let r: Vec<(String, JsonValue)> = Vec::new();
                assert(view_members(r@) =~= Seq::empty());
                r
            },
        }
    }
}

/// Sets member `key` to `v`, in place of the first member with that key or
/// at the end (`Map::insert`).
pub fn insert_member(ms: &mut Vec<(String, JsonValue)>, key: &str, v: JsonValue)
    ensures
        view_members(final(ms)@) == members_insert(view_members(old(ms)@), key@, v@),
{
    proof {
        lemma_view_members(old(ms)@);
        lemma_find_key(view_members(old(ms)@), key@);
    }
    let ghost v_view = v@;
    match find_member(ms, key) {
        Some(i) => {
            let _old = ms.remove(i);
            ms.insert(i, (String::from_str(key), v));
            proof {
                lemma_view_members(ms@);
                assert(view_members(ms@) =~= view_members(old(ms)@).update(i as int, (key@, v_view)));
            }
        },
        None => {
            ms.push((String::from_str(key), v));
            proof {
                lemma_view_members(ms@);
                assert(view_members(ms@) =~= view_members(old(ms)@).push((key@, v_view)));
            }
        },
    }
}

/// Removes every member with key `key` (`Map::remove`).
pub fn remove_member(ms: &mut Vec<(String, JsonValue)>, key: &str)
    ensures
        view_members(final(ms)@) == members_remove(view_members(old(ms)@), key@),
{
    let k = String::from_str(key);
    let mut kept: Vec<(String, JsonValue)> = Vec::new();
    let ghost orig = view_members(ms@);
    proof {
        lemma_view_members(ms@);
        lemma_view_members(kept@);
        assert(orig.take(0) =~= Seq::empty());
    }
    while ms.len() > 0
        invariant
            k@ == key@,
            orig.len() == kept@.len() + 0 + (orig.len() - kept@.len()),
            view_members(ms@) == orig.skip(orig.len() - ms@.len()),
            ms@.len() <= orig.len(),
            view_members(kept@) == members_remove(orig.take(orig.len() - ms@.len()), key@),
        decreases ms@.len(),
    {
        let ghost done = orig.len() - ms@.len();
        proof {
            lemma_view_members(ms@);
            assert(orig[done] == view_members(ms@)[0]);
        }
        let m = ms.remove(0);
        proof {
            lemma_view_members(ms@);
            assert(view_members(ms@) =~= orig.skip(done + 1)) by {
                assert forall|j: int| 0 <= j < ms@.len() implies view_members(ms@)[j] == orig.skip(done + 1)[j] by {
                    assert(orig.skip(done)[j + 1] == orig.skip(done + 1)[j]);
                }
            }
            assert(orig.take(done + 1).drop_last() =~= orig.take(done));
        }
        let ghost before = kept@;
        if !(m.0 == k) {
            kept.push(m);
            proof {
                lemma_view_members(kept@);
                lemma_view_members(before);
                assert(view_members(kept@) =~= view_members(before).push(orig[done]));
            }
        }
        proof {
            assert(orig.take(done + 1).last() == orig[done]);
        }
    }
    proof {
        assert(orig.take(orig.len() as int) =~= orig);
    }
    *ms = kept;
}

/// Sets `key` to `v` in the object `obj`; a non-object becomes an empty
/// object first.
pub fn object_insert(obj: &mut JsonValue, key: &str, v: JsonValue)
    ensures
        final(obj)@ == old(obj)@.insert(key@, v@),
{
    let mut tmp = JsonValue::Null;
    std::mem::swap(&mut tmp, obj);
    let mut ms = tmp.into_members();
    insert_member(&mut ms, key, v);
    *obj = JsonValue::Object(ms);
}

/// Removes `key` from the object `obj`; a non-object becomes an empty
/// object.
pub fn object_remove(obj: &mut JsonValue, key: &str)
    ensures
        final(obj)@ == old(obj)@.remove(key@),
{
    let mut tmp = JsonValue::Null;
    std::mem::swap(&mut tmp, obj);
    let mut ms = tmp.into_members();
    remove_member(&mut ms, key);
    *obj = JsonValue::Object(ms);
}

/// A copy of member `key` as an object, as `entry(key).or_insert_with(empty)`
/// followed by normalising it to an object gives it.
pub fn child_object(obj: &JsonValue, key: &str) -> (r: JsonValue)
    ensures
        r@ == obj@.child_object(key@),
{
    match obj.get(key) {
        Some(c) => {
            let copy = c.deep_copy();
            JsonValue::Object(copy.into_members())
        },
        None => {
            let ms: Vec<(String, JsonValue)> = Vec::new();
            assert(view_members(ms@) =~= Seq::empty());
            JsonValue::Object(ms)
        },
    }
}


/// `overlay` laid over `base`. Where both are objects, each
/// member of the overlay, in order, is merged into the base's member with
/// that key or appended; otherwise the overlay replaces the base.
pub open spec fn merge(base: JsonView, overlay: JsonView) -> JsonView
    decreases overlay,
{
    match overlay {
        JsonView::Object(oms) => match base {
            JsonView::Object(bms) => JsonView::Object(merge_members(bms, oms)),
            _ => overlay,
        },
        _ => overlay,
    }
}

/// Folds the overlay members `oms`, first to last, into `acc`.
pub open spec fn merge_members(
    acc: Seq<(Seq<char>, JsonView)>,
    oms: Seq<(Seq<char>, JsonView)>,
) -> Seq<(Seq<char>, JsonView)>
    decreases oms,
{
    if oms.len() == 0 {
        acc
    } else {
        let k = oms[0].0;
        let i = find_key(acc, k);
        proof {
            assert(decreases_to!(oms => oms[0]));
        }
        let v = oms[0].1;
        let acc2 = if 0 <= i < acc.len() {
            acc.update(i, (k, merge(acc[i].1, v)))
        } else {
            acc.push((k, v))
        };
        merge_members(acc2, oms.drop_first())
    }
}

/// Lays `overlay` over `base`, as [`merge`] states.
pub fn merge_into(base: &mut JsonValue, overlay: JsonValue)
    ensures
        final(base)@ == merge(old(base)@, overlay@),
    decreases overlay,
{
    let ghost ov = overlay;
    match overlay {
        JsonValue::Object(oms) => {
            let base_is_object = match base {
                JsonValue::Object(_) => true,
                _ => false,
            };
            if !base_is_object {
                *base = JsonValue::Object(oms);
                return ;
            }
            let mut tmp = JsonValue::Null;
            std::mem::swap(&mut tmp, base);
            let mut acc = tmp.into_members();
            let ghost goal = merge_members(view_members(acc@), view_members(oms@));
            let ghost oms0 = oms@;
            proof {
                assert(decreases_to!(ov => oms));
                assert(decreases_to!(oms => oms@));
                assert forall|j: int| 0 <= j < oms0.len() implies decreases_to!(ov => #[trigger] oms0[j].1) by {
                    assert(decreases_to!(oms@ => oms@[j]));
                    assert(decreases_to!(oms@[j] => oms@[j].1));
                }
            }
            let mut rest = oms;
            let mut done: usize = 0;
            while rest.len() > 0
                invariant
                    ov == overlay,
                    done <= oms0.len(),
                    oms0.len() <= usize::MAX,
                    rest@ == oms0.skip(done as int),
                    merge_members(view_members(acc@), view_members(rest@)) == goal,
                    forall|j: int| 0 <= j < oms0.len() ==> decreases_to!(ov => #[trigger] oms0[j].1),
                decreases rest@.len(),
            {
                proof {
                    lemma_view_members(rest@);
                    lemma_view_members(acc@);
                }
                let ghost acc_v = view_members(acc@);
                let ghost rest_v = view_members(rest@);
                let (k, v) = rest.remove(0);
                done = done + 1;
                proof {
                    assert(rest@ =~= oms0.skip(done as int));
                    assert(v == oms0[done - 1].1);
                    lemma_view_members(rest@);
                    assert(view_members(rest@) =~= rest_v.drop_first());
                    assert(rest_v[0] == (k@, v@));
                }
                match find_member(&acc, k.as_str()) {
                    Some(i) => {
                        proof {
                            lemma_find_key(acc_v, k@);
                        }
                        let (bk, mut bv) = acc.remove(i);
                        let ghost bv0 = bv@;
                        merge_into(&mut bv, v);
                        acc.insert(i, (bk, bv));
                        proof {
                            lemma_view_members(acc@);
                            assert(acc_v[i as int].1 == bv0);
                            assert(view_members(acc@) =~= acc_v.update(
                                i as int,
                                (k@, merge(acc_v[i as int].1, rest_v[0].1)),
                            ));
                        }
                    },
                    None => {
                        acc.push((k, v));
                        proof {
                            lemma_view_members(acc@);
                            assert(view_members(acc@) =~= acc_v.push((rest_v[0].0, rest_v[0].1)));
                        }
                    },
                }
            }
            proof {
                lemma_view_members(rest@);
                assert(view_members(rest@) =~= Seq::empty());
            }
            *base = JsonValue::Object(acc);
        },
        other => {
            *base = other;
        },
    }
}


impl JsonView {
    /// `Value::as_u64`: a number that `serde_json` prints as plain digits is
    /// a non-negative integer; negative integers print with `-` and floats
    /// with `.` or an exponent.
    pub open spec fn as_u64(self) -> Option<u64> {
        match self {
            JsonView::Number(t) => parse_u64_spec(t),
            _ => None,
        }
    }
}

impl JsonValue {
    /// `Value::as_u64`.
    pub fn as_u64(&self) -> (r: Option<u64>)
        ensures
            r == self@.as_u64(),
    {
        match self {
            JsonValue::Number(t) => parse_u64_digits(t.as_str()),
            _ => None,
        }
    }
}

#[verifier::external_type_specification]
#[verifier::external_body]
pub struct ExSerdeJsonValue(serde_json::Value);

/// What `serde_json::from_str::<serde_json::Value>` makes of `text`: the
/// value as a [`JsonView`], or the error's text.
pub uninterp spec fn json_parse(text: Seq<char>) -> Result<JsonView, Seq<char>>;

/// What `json5::from_str::<serde_json::Value>` makes of `text`, where it
/// accepts it, as a [`JsonView`].
pub uninterp spec fn json5_parse(text: Seq<char>) -> Option<JsonView>;

/// Carries a `serde_json::Value` over into a [`JsonValue`], variant by
/// variant: a number as the text that its `Display` prints, an object as its
/// members in the map's order.
#[verifier::external_body]
fn lift_serde_value(v: serde_json::Value) -> JsonValue {
    match v {
        serde_json::Value::Null => JsonValue::Null,
        serde_json::Value::Bool(b) => JsonValue::Bool(b),
        serde_json::Value::Number(n) => JsonValue::Number(n.to_string()),
        serde_json::Value::String(s) => JsonValue::Str(s),
        serde_json::Value::Array(a) => JsonValue::Array(a.into_iter().map(lift_serde_value).collect()),
        serde_json::Value::Object(m) => JsonValue::Object(
            m.into_iter().map(|(k, x)| (k, lift_serde_value(x))).collect(),
        ),
    }
}

/// Calls `serde_json::from_str::<serde_json::Value>`; the value, where it
/// parses, and otherwise the error's `Display` text, are what `json_parse`
/// names. Empty text is refused: `Value`'s `deserialize_any` finds no byte
/// to parse and fails with "EOF while parsing a value".
#[verifier::external_body]
pub(crate) fn parse_json_text(text: &str) -> (r: Result<JsonValue, String>)
    ensures
        text@.len() == 0 ==> r is Err,
        match r {
            Ok(v) => json_parse(text@) == Ok::<JsonView, Seq<char>>(v@),
            Err(e) => json_parse(text@) == Err::<JsonView, Seq<char>>(e@),
        },
{
    serde_json::from_str::<serde_json::Value>(text).map(lift_serde_value).map_err(|err| err.to_string())
}

/// Calls `json5::from_str::<serde_json::Value>`; the result, where it
/// parses, is the value `json5_parse` names, and `None` where it does not.
#[verifier::external_body]
pub(crate) fn parse_json5_text(text: &str) -> (r: Option<JsonValue>)
    ensures
        opt_value_view(r) == json5_parse(text@),
{
    json5::from_str::<serde_json::Value>(text).ok().map(lift_serde_value)
}


/// An object with no members.
pub fn empty_object() -> (r: JsonValue)
    ensures
        r@ == JsonView::Object(Seq::empty()),
{
    let ms: Vec<(String, JsonValue)> = Vec::new();
    assert(view_members(ms@) =~= Seq::empty());
    JsonValue::Object(ms)
}

impl Clone for JsonValue {
    fn clone(&self) -> (r: Self)
        ensures
            r@ == self@,
    {
        self.deep_copy()
    }
}

impl Default for JsonValue {
    fn default() -> (r: Self)
        ensures
            r@ == JsonView::Null,
    {
        JsonValue::Null
    }
}


/// A number text that `serde_json` prints for zero: `0.0`, or `-0.0` for
/// negative zero.
pub open spec fn is_zero_text(t: Seq<char>) -> bool {
    t == "0.0"@ || t == "-0.0"@
}

/// Whether two number texts are equal numbers as `serde_json` compares them.
/// It prints each number one way, so equal numbers print the same text,
/// except that zero and negative zero, which it counts as equal, print as
/// `0.0` and `-0.0`.
pub open spec fn number_eq(a: Seq<char>, b: Seq<char>) -> bool {
    a == b || (is_zero_text(a) && is_zero_text(b))
}

/// `Value`'s `==`: the same kind, numbers compared as numbers, arrays item
/// by item, objects member by member (their members come sorted by key).
pub open spec fn json_same(a: JsonView, b: JsonView) -> bool
    decreases a,
{
    match a {
        JsonView::Null => b is Null,
        JsonView::Bool(x) => b matches JsonView::Bool(y) && x == y,
        JsonView::Number(x) => b matches JsonView::Number(y) && number_eq(x, y),
        JsonView::Str(x) => b matches JsonView::Str(y) && x == y,
        JsonView::Array(xs) => match b {
            JsonView::Array(ys) => xs.len() == ys.len() && forall|i: int|
                0 <= i < xs.len() ==> json_same(#[trigger] xs[i], ys[i]),
            _ => false,
        },
        JsonView::Object(xs) => match b {
            JsonView::Object(ys) => xs.len() == ys.len() && forall|i: int|
                0 <= i < xs.len() ==> (#[trigger] xs[i]).0 == ys[i].0 && json_same(xs[i].1, ys[i].1),
            _ => false,
        },
    }
}

fn is_zero_number(t: &String) -> (r: bool)
    ensures
        r == is_zero_text(t@),
{
    str_eq(t.as_str(), "0.0") || str_eq(t.as_str(), "-0.0")
}

/// `Value`'s `==` on two values.
pub fn json_equal(a: &JsonValue, b: &JsonValue) -> (r: bool)
    ensures
        r == json_same(a@, b@),
    decreases a,
{
    match (a, b) {
        (JsonValue::Null, JsonValue::Null) => true,
        (JsonValue::Bool(x), JsonValue::Bool(y)) => *x == *y,
        (JsonValue::Number(x), JsonValue::Number(y)) => *x == *y || (is_zero_number(x) && is_zero_number(y)),
        (JsonValue::Str(x), JsonValue::Str(y)) => *x == *y,
        (JsonValue::Array(xs), JsonValue::Array(ys)) => {
            proof {
                lemma_view_items(xs@);
                lemma_view_items(ys@);
                assert(decreases_to!(*a => *xs));
                assert(decreases_to!(*xs => xs@));
                assert forall|j: int| 0 <= j < xs@.len() implies decreases_to!(*a => #[trigger] xs@[j]) by {
                    assert(decreases_to!(xs@ => xs@[j]));
                }
            }
            if xs.len() != ys.len() {
                assert(view_items(xs@).len() != view_items(ys@).len());
                return false;
            }
            let mut i: usize = 0;
            while i < xs.len()
                invariant
                    i <= xs@.len(),
                    xs@.len() == ys@.len(),
                    a@ == JsonView::Array(view_items(xs@)),
                    b@ == JsonView::Array(view_items(ys@)),
                    view_items(xs@).len() == xs@.len(),
                    view_items(ys@).len() == ys@.len(),
                    forall|j: int| 0 <= j < xs@.len() ==> #[trigger] view_items(xs@)[j] == view_value(xs@[j]),
                    forall|j: int| 0 <= j < ys@.len() ==> #[trigger] view_items(ys@)[j] == view_value(ys@[j]),
                    forall|j: int| 0 <= j < i ==> json_same(#[trigger] view_items(xs@)[j], view_items(ys@)[j]),
                    forall|j: int| 0 <= j < xs@.len() ==> decreases_to!(*a => #[trigger] xs@[j]),
                decreases xs@.len() - i,
            {
                if !json_equal(&xs[i], &ys[i]) {
                    assert(!json_same(view_items(xs@)[i as int], view_items(ys@)[i as int]));
                    return false;
                }
                i = i + 1;
            }
            true
        },
        (JsonValue::Object(xs), JsonValue::Object(ys)) => {
            proof {
                lemma_view_members(xs@);
                lemma_view_members(ys@);
                assert(decreases_to!(*a => *xs));
                assert(decreases_to!(*xs => xs@));
                assert forall|j: int| 0 <= j < xs@.len() implies decreases_to!(*a => #[trigger] xs@[j].1) by {
                    assert(decreases_to!(xs@ => xs@[j]));
                    assert(decreases_to!(xs@[j] => xs@[j].1));
                }
            }
            if xs.len() != ys.len() {
                assert(view_members(xs@).len() != view_members(ys@).len());
                return false;
            }
            let mut i: usize = 0;
            while i < xs.len()
                invariant
                    i <= xs@.len(),
                    xs@.len() == ys@.len(),
                    a@ == JsonView::Object(view_members(xs@)),
                    b@ == JsonView::Object(view_members(ys@)),
                    view_members(xs@).len() == xs@.len(),
                    view_members(ys@).len() == ys@.len(),
                    forall|j: int| 0 <= j < xs@.len() ==> #[trigger] view_members(xs@)[j] == (xs@[j].0@, view_value(xs@[j].1)),
                    forall|j: int| 0 <= j < ys@.len() ==> #[trigger] view_members(ys@)[j] == (ys@[j].0@, view_value(ys@[j].1)),
                    forall|j: int| 0 <= j < i ==> (#[trigger] view_members(xs@)[j]).0 == view_members(ys@)[j].0
                        && json_same(view_members(xs@)[j].1, view_members(ys@)[j].1),
                    forall|j: int| 0 <= j < xs@.len() ==> decreases_to!(*a => #[trigger] xs@[j].1),
                decreases xs@.len() - i,
            {
                if !(xs[i].0 == ys[i].0) || !json_equal(&xs[i].1, &ys[i].1) {
                    assert(view_members(xs@)[i as int] == (xs@[i as int].0@, view_value(xs@[i as int].1)));
                    return false;
                }
                i = i + 1;
            }
            true
        },
        _ => false,
    }
}


/// The value of the first member with key `key`.
pub open spec fn lookup(ms: Seq<(Seq<char>, JsonView)>, key: Seq<char>) -> Option<JsonView> {
    let i = find_key(ms, key);
    if i >= 0 {
        Some(ms[i].1)
    } else {
        None
    }
}

/// `find_key` reads only the keys.
proof fn lemma_find_key_same_keys(a: Seq<(Seq<char>, JsonView)>, b: Seq<(Seq<char>, JsonView)>, key: Seq<char>)
    requires
        a.len() == b.len(),
        forall|j: int| 0 <= j < a.len() ==> #[trigger] a[j].0 == b[j].0,
    ensures
        find_key(a, key) == find_key(b, key),
    decreases a.len(),
{
    if a.len() > 0 {
        assert forall|j: int| 0 <= j < a.drop_first().len() implies #[trigger] a.drop_first()[j].0 == b.drop_first()[j].0 by {
            assert(a[j + 1].0 == b[j + 1].0);
        }
        lemma_find_key_same_keys(a.drop_first(), b.drop_first(), key);
    }
}

proof fn lemma_find_key_push(ms: Seq<(Seq<char>, JsonView)>, p: (Seq<char>, JsonView), key: Seq<char>)
    ensures
        find_key(ms.push(p), key) == (if find_key(ms, key) >= 0 {
            find_key(ms, key)
        } else if p.0 == key {
            ms.len() as int
        } else {
            -1
        }),
    decreases ms.len(),
{
    if ms.len() > 0 {
        assert(ms.push(p)[0] == ms[0]);
        assert(ms.push(p).drop_first() =~= ms.drop_first().push(p));
        lemma_find_key_push(ms.drop_first(), p, key);
    } else {
        assert(ms.push(p)[0] == p);
        assert(ms.push(p).drop_first() =~= Seq::<(Seq<char>, JsonView)>::empty());
        assert(find_key(ms.push(p).drop_first(), key) == -1);
    }
}

proof fn lemma_lookup_push(ms: Seq<(Seq<char>, JsonView)>, p: (Seq<char>, JsonView), key: Seq<char>)
    ensures
        lookup(ms.push(p), key) == (if lookup(ms, key) is Some {
            lookup(ms, key)
        } else if p.0 == key {
            Some(p.1)
        } else {
            None
        }),
{
    lemma_find_key_push(ms, p, key);
    lemma_find_key(ms, key);
}

/// The members after `members_remove` hold no member with the key, and
/// every other key finds the same value.
proof fn lemma_lookup_remove(ms: Seq<(Seq<char>, JsonView)>, key: Seq<char>, other: Seq<char>)
    ensures
        lookup(members_remove(ms, key), key) is None,
        other != key ==> lookup(members_remove(ms, key), other) == lookup(ms, other),
    decreases ms.len(),
{
    if ms.len() > 0 {
        lemma_lookup_remove(ms.drop_last(), key, other);
        let r = members_remove(ms.drop_last(), key);
        assert(ms =~= ms.drop_last().push(ms.last()));
        lemma_lookup_push(ms.drop_last(), ms.last(), key);
        lemma_lookup_push(ms.drop_last(), ms.last(), other);
        if ms.last().0 != key {
            lemma_lookup_push(r, ms.last(), key);
            lemma_lookup_push(r, ms.last(), other);
        }
    } else {
        lemma_find_key(ms, key);
    }
}

proof fn lemma_lookup_insert(ms: Seq<(Seq<char>, JsonView)>, key: Seq<char>, v: JsonView, other: Seq<char>)
    ensures
        lookup(members_insert(ms, key, v), key) == Some(v),
        other != key ==> lookup(members_insert(ms, key, v), other) == lookup(ms, other),
{
    lemma_find_key(ms, key);
    let i = find_key(ms, key);
    if i >= 0 {
        let u = ms.update(i, (key, v));
        assert forall|j: int| 0 <= j < u.len() implies #[trigger] u[j].0 == ms[j].0 by {}
        lemma_find_key_same_keys(u, ms, key);
        lemma_find_key_same_keys(u, ms, other);
        lemma_find_key(ms, other);
    } else {
        lemma_lookup_push(ms, (key, v), key);
        lemma_lookup_push(ms, (key, v), other);
    }
}

/// In an object, a key reads the value of the member at `i` where that
/// member is the first with the key.
pub proof fn lemma_get_at(ms: Seq<(Seq<char>, JsonView)>, i: int, key: Seq<char>)
    requires
        0 <= i < ms.len(),
        ms[i].0 == key,
        forall|j: int| 0 <= j < i ==> #[trigger] ms[j].0 != key,
    ensures
        JsonView::Object(ms).get(key) == Some(ms[i].1),
{
    lemma_find_key(ms, key);
    let f = find_key(ms, key);
    if f < 0 {
        assert(ms[i].0 != key);
    } else if f < i {
        assert(ms[f].0 != key);
    } else if f > i {
        assert(ms[i].0 != key);
    }
}

/// Reading a member is looking it up among the object's members.
pub proof fn lemma_get_lookup(o: JsonView, key: Seq<char>)
    ensures
        o.get(key) == lookup(o.members(), key),
{
    lemma_find_key(o.members(), key);
}

/// After `insert(key, v)` the object reads `v` at `key`, and every other key
/// reads what it read before.
pub proof fn law_get_after_insert(o: JsonView, key: Seq<char>, v: JsonView, other: Seq<char>)
    ensures
        o.insert(key, v).get(key) == Some(v),
        other != key ==> o.insert(key, v).get(other) == o.get(other),
{
    lemma_lookup_insert(o.members(), key, v, other);
    lemma_get_lookup(o.insert(key, v), key);
    lemma_get_lookup(o.insert(key, v), other);
    lemma_get_lookup(o, other);
}

/// After `remove(key)` the object has nothing at `key`, and every other key
/// reads what it read before.
pub proof fn law_get_after_remove(o: JsonView, key: Seq<char>, other: Seq<char>)
    ensures
        o.remove(key).get(key) is None,
        other != key ==> o.remove(key).get(other) == o.get(other),
{
    lemma_lookup_remove(o.members(), key, other);
    lemma_get_lookup(o.remove(key), key);
    lemma_get_lookup(o.remove(key), other);
    lemma_get_lookup(o, other);
}


/// No two members share a key, as in every object that a parser builds.
pub open spec fn distinct_keys(ms: Seq<(Seq<char>, JsonView)>) -> bool {
    forall|i: int, j: int| 0 <= i < j < ms.len() ==> #[trigger] ms[i].0 != #[trigger] ms[j].0
}

/// What a member reads after `merge`: the overlay's value laid over the
/// base's, where the overlay has the key; else the base's.
pub open spec fn merged_lookup(
    base: Option<JsonView>,
    overlay: Option<JsonView>,
) -> Option<JsonView> {
    match overlay {
        Some(x) => Some(
            match base {
                Some(b) => merge(b, x),
                None => x,
            },
        ),
        None => base,
    }
}

proof fn lemma_lookup_first(ms: Seq<(Seq<char>, JsonView)>, key: Seq<char>)
    requires
        ms.len() > 0,
    ensures
        ms[0].0 == key ==> lookup(ms, key) == Some(ms[0].1),
        ms[0].0 != key ==> lookup(ms, key) == lookup(ms.drop_first(), key),
{
    lemma_find_key(ms.drop_first(), key);
    if ms[0].0 != key {
        let r = find_key(ms.drop_first(), key);
        if r >= 0 {
            assert(ms.drop_first()[r] == ms[r + 1]);
        }
    }
}

proof fn lemma_distinct_absent(ms: Seq<(Seq<char>, JsonView)>)
    requires
        ms.len() > 0,
        distinct_keys(ms),
    ensures
        distinct_keys(ms.drop_first()),
        lookup(ms.drop_first(), ms[0].0) is None,
{
    let t = ms.drop_first();
    assert forall|i: int, j: int| 0 <= i < j < t.len() implies #[trigger] t[i].0 != #[trigger] t[j].0 by {
        assert(t[i] == ms[i + 1] && t[j] == ms[j + 1]);
    }
    lemma_find_key(t, ms[0].0);
    let r = find_key(t, ms[0].0);
    if r >= 0 {
        assert(t[r] == ms[r + 1]);
        assert(ms[0].0 != ms[r + 1].0);
    }
}

proof fn lemma_merge_members_lookup(
    acc: Seq<(Seq<char>, JsonView)>,
    oms: Seq<(Seq<char>, JsonView)>,
    key: Seq<char>,
)
    requires
        distinct_keys(oms),
    ensures
        lookup(merge_members(acc, oms), key) == merged_lookup(lookup(acc, key), lookup(oms, key)),
    decreases oms.len(),
{
    if oms.len() == 0 {
        lemma_find_key(oms, key);
    } else {
        let k = oms[0].0;
        let v = oms[0].1;
        let i = find_key(acc, k);
        lemma_find_key(acc, k);
        lemma_find_key(acc, key);
        let acc2 = if 0 <= i < acc.len() {
            acc.update(i, (k, merge(acc[i].1, v)))
        } else {
            acc.push((k, v))
        };
        lemma_distinct_absent(oms);
        lemma_merge_members_lookup(acc2, oms.drop_first(), key);
        lemma_lookup_first(oms, key);
        if 0 <= i < acc.len() {
            assert forall|j: int| 0 <= j < acc2.len() implies #[trigger] acc2[j].0 == acc[j].0 by {}
            lemma_find_key_same_keys(acc2, acc, key);
        } else {
            lemma_lookup_push(acc, (k, v), key);
        }
        if k == key {
            lemma_find_key(oms.drop_first(), key);
        }
    }
}

/// Laying `overlay` over `base`, where the overlay is an object whose keys
/// are distinct: a key that the overlay has reads the overlay's value laid
/// over the base's, every other key reads the base's (a base that is not an
/// object counts as having no members).
pub proof fn law_merge_get(base: JsonView, overlay: JsonView, key: Seq<char>)
    requires
        overlay is Object,
        distinct_keys(overlay.members()),
    ensures
        merge(base, overlay).get(key) == merged_lookup(
            if base is Object {
                base.get(key)
            } else {
                None
            },
            overlay.get(key),
        ),
{
    lemma_get_lookup(overlay, key);
    lemma_get_lookup(base, key);
    lemma_get_lookup(merge(base, overlay), key);
    if base is Object {
        lemma_merge_members_lookup(base.members(), overlay.members(), key);
    }
}

/// `insert` and `remove` keep the keys distinct.
pub proof fn lemma_edit_keeps_distinct(o: JsonView, key: Seq<char>, v: JsonView)
    requires
        distinct_keys(o.members()),
    ensures
        distinct_keys(o.insert(key, v).members()),
        distinct_keys(o.remove(key).members()),
{
    let ms = o.members();
    lemma_find_key(ms, key);
    let i = find_key(ms, key);
    let ins = members_insert(ms, key, v);
    if i >= 0 {
        assert forall|a: int, b: int| 0 <= a < b < ins.len() implies #[trigger] ins[a].0 != #[trigger] ins[b].0 by {
            assert(ins[a].0 == ms[a].0 && ins[b].0 == ms[b].0);
        }
    } else {
        assert forall|a: int, b: int| 0 <= a < b < ins.len() implies #[trigger] ins[a].0 != #[trigger] ins[b].0 by {
            if b == ms.len() {
                assert(ms[a].0 != key);
            } else {
                assert(ins[a] == ms[a] && ins[b] == ms[b]);
            }
        }
    }
    lemma_remove_keys(ms, key);
}

proof fn lemma_remove_keys(ms: Seq<(Seq<char>, JsonView)>, key: Seq<char>)
    requires
        distinct_keys(ms),
    ensures
        distinct_keys(members_remove(ms, key)),
        forall|j: int| 0 <= j < members_remove(ms, key).len() ==> exists|m: int|
            0 <= m < ms.len() && #[trigger] members_remove(ms, key)[j].0 == ms[m].0,
    decreases ms.len(),
{
    if ms.len() > 0 {
        let d = ms.drop_last();
        assert forall|i: int, j: int| 0 <= i < j < d.len() implies #[trigger] d[i].0 != #[trigger] d[j].0 by {
            assert(d[i] == ms[i] && d[j] == ms[j]);
        }
        lemma_remove_keys(d, key);
        let r = members_remove(d, key);
        if ms.last().0 != key {
            let r2 = r.push(ms.last());
            assert forall|j: int| 0 <= j < r2.len() implies exists|m: int|
                0 <= m < ms.len() && #[trigger] r2[j].0 == ms[m].0 by {
                if j == r.len() {
                    assert(r2[j].0 == ms[ms.len() - 1].0);
                } else {
                    let m = choose|m: int| 0 <= m < d.len() && #[trigger] r[j].0 == d[m].0;
                    assert(r2[j].0 == ms[m].0);
                }
            }
            assert forall|a: int, b: int| 0 <= a < b < r2.len() implies #[trigger] r2[a].0 != #[trigger] r2[b].0 by {
                if b == r.len() {
                    let m = choose|m: int| 0 <= m < d.len() && #[trigger] r[a].0 == d[m].0;
                    assert(d[m] == ms[m]);
                    assert(ms[m].0 != ms[ms.len() - 1].0);
                } else {
                    assert(r2[a] == r[a] && r2[b] == r[b]);
                }
            }
        } else {
            assert forall|j: int| 0 <= j < r.len() implies exists|m: int|
                0 <= m < ms.len() && #[trigger] r[j].0 == ms[m].0 by {
                let m = choose|m: int| 0 <= m < d.len() && #[trigger] r[j].0 == d[m].0;
                assert(d[m] == ms[m]);
            }
        }
    }
}

} // verus!

//! JSON text and the values of `serde_json`.
//!
//! Reading and writing JSON text is the work of `serde_json`; its values are turned into [`Json`]
//! and back here, one level at a time.
use vstd::prelude::*;

use crate::json::{
    items_view, items_view_index, items_view_push, json_view, members_view, members_view_push, Json,
    JsonObject, JsonView, Member,
};

verus! {

/// A JSON value of `serde_json`.
#[verifier::external_type_specification]
#[verifier::external_body]
pub struct ExValue(serde_json::Value);

/// A JSON number of `serde_json`.
#[verifier::external_type_specification]
#[verifier::external_body]
pub struct ExNumber(serde_json::Number);

/// The members of a JSON object of `serde_json`.
#[verifier::external_type_specification]
#[verifier::external_body]
#[verifier::reject_recursive_types(K)]
#[verifier::reject_recursive_types(V)]
pub struct ExMap<K, V>(serde_json::Map<K, V>);

/// `serde_json::Number::clone`: the same number.
pub assume_specification[ <serde_json::Number as Clone>::clone ](n: &serde_json::Number) -> (r:
    serde_json::Number)
    ensures
        r == *n,
;

// ---------------------------------------------------------------------------------------------
// The values of serde_json
// ---------------------------------------------------------------------------------------------

/// The JSON value that a `serde_json::Value` holds.
pub uninterp spec fn json_of(v: serde_json::Value) -> JsonView;

/// The members that a `serde_json::Map` holds, by name.
pub uninterp spec fn members_of(
    m: serde_json::Map<String, serde_json::Value>,
) -> Map<Seq<char>, JsonView>;

/// The number that `serde_json::Number::from` makes of an integer.
pub uninterp spec fn integer_number(n: i64) -> serde_json::Number;

/// The value that `serde_json::from_str` reads from a JSON text, or what it says of a text that it
/// refuses.
pub uninterp spec fn read_json(text: Seq<char>) -> Result<JsonView, Seq<char>>;

/// The JSON text that `serde_json::to_string` writes for a value.
pub uninterp spec fn written_json(v: JsonView) -> Seq<char>;

/// The outermost level of a value of `serde_json`.
pub(crate) enum Node {
    Null,
    Bool(bool),
    Number(serde_json::Number),
    Text(String),
    Array(Vec<serde_json::Value>),
    Object(serde_json::Map<String, serde_json::Value>),
}

/// The JSON values that the items hold.
pub open spec fn values_view(items: Seq<serde_json::Value>) -> Seq<JsonView> {
    Seq::new(items.len(), |i: int| json_of(items[i]))
}

/// No members at all.
pub open spec fn no_members() -> Map<Seq<char>, JsonView> {
    Map::empty()
}

/// The JSON values that the entries hold, by name.
pub open spec fn entries_view(entries: Seq<(String, serde_json::Value)>) -> Map<
    Seq<char>,
    JsonView,
>
    decreases entries.len(),
{
    if entries.len() == 0 {
        no_members()
    } else {
        entries_view(entries.drop_last()).insert(entries.last().0@, json_of(entries.last().1))
    }
}

/// No two entries have the same name.
pub open spec fn distinct_names(entries: Seq<(String, serde_json::Value)>) -> bool {
    forall|i: int, j: int|
        0 <= i < j < entries.len() ==> (#[trigger] entries[i]).0@ != (#[trigger] entries[j]).0@
}

/// The JSON value of an outermost level.
pub(crate) open spec fn node_view(n: Node) -> JsonView {
    match n {
        Node::Null => JsonView::Null,
        Node::Bool(b) => JsonView::Bool(b),
        Node::Number(n) => JsonView::Number(n),
        Node::Text(s) => JsonView::Text(s@),
        Node::Array(items) => JsonView::Array(values_view(items@)),
        Node::Object(m) => JsonView::Object(members_of(m)),
    }
}

/// The variants of `serde_json::Value`, each with its field: opening a value keeps what it holds.
#[verifier::external_body]
fn open_value(v: serde_json::Value) -> (r: Node)
    ensures
        node_view(r) == json_of(v),
{
    match v {
        serde_json::Value::Null => Node::Null,
        serde_json::Value::Bool(b) => Node::Bool(b),
        serde_json::Value::Number(n) => Node::Number(n),
        serde_json::Value::String(s) => Node::Text(s),
        serde_json::Value::Array(items) => Node::Array(items),
        serde_json::Value::Object(m) => Node::Object(m),
    }
}

/// The variants of `serde_json::Value`, each with its field: closing a level keeps what it holds.
#[verifier::external_body]
fn close_value(n: Node) -> (r: serde_json::Value)
    ensures
        json_of(r) == node_view(n),
{
    match n {
        Node::Null => serde_json::Value::Null,
        Node::Bool(b) => serde_json::Value::Bool(b),
        Node::Number(n) => serde_json::Value::Number(n),
        Node::Text(s) => serde_json::Value::String(s),
        Node::Array(items) => serde_json::Value::Array(items),
        Node::Object(m) => serde_json::Value::Object(m),
    }
}

/// `serde_json::Map::into_iter`: hands out each member once, so that no two have the same name and
/// together they are what the map held. The order in which they come is left open.
#[verifier::external_body]
fn map_members(m: serde_json::Map<String, serde_json::Value>) -> (r: Vec<(String, serde_json::Value)>)
    ensures
        entries_view(r@) == members_of(m),
        distinct_names(r@),
{
    m.into_iter().collect()
}

/// `serde_json::Map::new`: a map without members.
#[verifier::external_body]
fn map_new() -> (r: serde_json::Map<String, serde_json::Value>)
    ensures
        members_of(r) == no_members(),
{
    serde_json::Map::new()
}

/// `serde_json::Map::insert`: sets the member of that name and hands back the one it replaced.
#[verifier::external_body]
fn map_insert(
    m: &mut serde_json::Map<String, serde_json::Value>,
    name: String,
    value: serde_json::Value,
) -> (r: Option<serde_json::Value>)
    ensures
        members_of(*final(m)) == members_of(*old(m)).insert(name@, json_of(value)),
        match r {
            Some(v) => members_of(*old(m)).contains_key(name@) && members_of(*old(m))[name@]
                == json_of(v),
            None => !members_of(*old(m)).contains_key(name@),
        },
{
    m.insert(name, value)
}

/// `serde_json::Number::from`: the number for an integer.
#[verifier::external_body]
fn number_from(n: i64) -> (r: serde_json::Number)
    ensures
        r == integer_number(n),
{
    serde_json::Number::from(n)
}

/// `serde_json::from_str` for a `serde_json::Value`: reads a whole JSON text, or refuses it with an
/// error, which is handed on as the text that it displays. Which texts it accepts, which value each
/// stands for and what it says of the others depends on the text alone.
#[verifier::external_body]
fn read_value(text: &str) -> (r: Result<serde_json::Value, String>)
    ensures
        match r {
            Ok(v) => read_json(text@) == Ok::<_, Seq<char>>(json_of(v)),
            Err(e) => read_json(text@) == Err::<JsonView, _>(e@),
        },
{
    match serde_json::from_str(text) {
        Ok(v) => Ok(v),
        Err(e) => Err(e.to_string()),
    }
}

/// `serde_json::to_string` for a `serde_json::Value`: writes the value as compact JSON, in which a
/// line feed is always escaped. It succeeds for every value: the members of an object have strings
/// for names, and the text is written to memory. Its maps keep their members in the order of the names, unless its
/// feature `preserve_order` is on, which this crate leaves off; so the text depends on the value
/// alone.
#[verifier::external_body]
fn write_value(v: &serde_json::Value) -> (r: Option<String>)
    ensures
        r is Some,
        r->0@ == written_json(json_of(*v)),
        forall|i: int| 0 <= i < r->0@.len() ==> #[trigger] r->0@[i] != '\n',
{
    serde_json::to_string(v).ok()
}

// ---------------------------------------------------------------------------------------------
// Conversion
// ---------------------------------------------------------------------------------------------

proof fn entries_view_index(entries: Seq<(String, serde_json::Value)>, i: int)
    requires
        distinct_names(entries),
        0 <= i < entries.len(),
    ensures
        entries_view(entries).dom().finite(),
        entries_view(entries).contains_key(entries[i].0@),
        entries_view(entries)[entries[i].0@] == json_of(entries[i].1),
    decreases entries.len(),
{
    let front = entries.drop_last();
    entries_view_finite(entries);
    if i < entries.len() - 1 {
        assert forall|i: int, j: int| 0 <= i < j < front.len() implies (#[trigger] front[i]).0@ != (
        #[trigger] front[j]).0@ by {
            assert(entries[i].0@ != entries[j].0@);
        }
        entries_view_index(front, i);
        assert(front[i] == entries[i]);
        assert(entries[i].0@ != entries[entries.len() - 1].0@);
    }
}

proof fn entries_view_finite(entries: Seq<(String, serde_json::Value)>)
    ensures
        entries_view(entries).dom().finite(),
    decreases entries.len(),
{
    if entries.len() > 0 {
        entries_view_finite(entries.drop_last());
    }
}

/// What `v` holds, as plain data.
pub fn from_value(v: serde_json::Value) -> (r: Json)
    ensures
        r@ == json_of(v),
    decreases json_of(v),
{
    let ghost whole = json_of(v);
    match open_value(v) {
        Node::Null => Json::Null,
        Node::Bool(b) => Json::Bool(b),
        Node::Number(n) => Json::Number(n),
        Node::Text(s) => Json::Text(s),
        Node::Array(items) => {
            let ghost all = items@;
            let mut out: Vec<Json> = Vec::new();
            for item in it: items
                invariant
                    whole == json_of(v),
                    whole == JsonView::Array(values_view(all)),
                    it.seq() == all,
                    items_view(out@) == values_view(all).take(it.index() as int),
            {
                let ghost i = it.index() as int;
                proof {
                    assert(decreases_to!(whole => whole->Array_0));
                    assert(decreases_to!(whole->Array_0 => whole->Array_0[i]));
                    assert(whole->Array_0[i] == json_of(item));
                }
                let next = from_value(item);
                proof {
                    items_view_push(out@, next);
                    assert(values_view(all).take(i + 1) == values_view(all).take(i).push(next@));
                }
                out.push(next);
            }
            assert(values_view(all).take(all.len() as int) == values_view(all));
            Json::Array(out)
        },
        Node::Object(m) => {
            let ghost held = members_of(m);
            let entries = map_members(m);
            let ghost all = entries@;
            let mut out: Vec<Member> = Vec::new();
            for entry in it: entries
                invariant
                    whole == json_of(v),
                    whole == JsonView::Object(held),
                    it.seq() == all,
                    held == entries_view(all),
                    distinct_names(all),
                    members_view(out@) == entries_view(all.take(it.index() as int)),
            {
                let ghost i = it.index() as int;
                proof {
                    assert(all[i] == entry);
                    entries_view_index(all, i);
                    assert(decreases_to!(whole => whole->Object_0));
                    assert(decreases_to!(whole->Object_0 => whole->Object_0[entry.0@]));
                }
                let value = from_value(entry.1);
                let member = Member { name: entry.0, value };
                proof {
                    members_view_push(out@, member);
                    assert(all.take(i + 1).drop_last() == all.take(i));
                }
                out.push(member);
            }
            proof {
                assert(all.take(all.len() as int) == all);
            }
            Json::Object(JsonObject { members: out })
        },
    }
}

/// `j` as a value of `serde_json`.
pub fn into_value(j: Json) -> (r: serde_json::Value)
    ensures
        json_of(r) == j@,
    decreases j,
{
    let ghost whole = j;
    match j {
        Json::Null => close_value(Node::Null),
        Json::Bool(b) => close_value(Node::Bool(b)),
        Json::Number(n) => close_value(Node::Number(n)),
        Json::Text(s) => close_value(Node::Text(s)),
        Json::Array(items) => {
            let ghost all = items@;
            let mut out: Vec<serde_json::Value> = Vec::new();
            proof {
                items_view_index(all);
            }
            for item in it: items
                invariant
                    whole == j,
                    whole is Array,
                    all == whole->Array_0@,
                    it.seq() == all,
                    items_view(all).len() == all.len(),
                    forall|i: int|
                        0 <= i < all.len() ==> #[trigger] items_view(all)[i] == json_view(all[i]),
                    values_view(out@) == items_view(all).take(it.index() as int),
            {
                let ghost i = it.index() as int;
                proof {
                    assert(decreases_to!(whole => whole->Array_0));
                    assert(decreases_to!(whole->Array_0 => whole->Array_0@));
                    assert(decreases_to!(whole->Array_0@ => whole->Array_0@[i]));
                }
                let ghost before = values_view(out@);
                let next = into_value(item);
                out.push(next);
                assert(values_view(out@) == before.push(json_of(next)));
                assert(items_view(all).take(i + 1) == items_view(all).take(i).push(
                    items_view(all)[i],
                ));
            }
            assert(items_view(all).take(all.len() as int) == items_view(all));
            close_value(Node::Array(out))
        },
        Json::Object(object) => {
            let ghost all = object.members@;
            let members = object.members;
            let mut out = map_new();
            for member in it: members
                invariant
                    whole == j,
                    whole is Object,
                    all == whole->Object_0.members@,
                    it.seq() == all,
                    members_of(out) == members_view(all.take(it.index() as int)),
            {
                let ghost i = it.index() as int;
                proof {
                    assert(decreases_to!(whole => whole->Object_0));
                    assert(decreases_to!(whole->Object_0 => whole->Object_0.members));
                    assert(decreases_to!(whole->Object_0.members => whole->Object_0.members@));
                    assert(decreases_to!(whole->Object_0.members@ => whole->Object_0.members@[i]));
                    assert(decreases_to!(
                        whole->Object_0.members@[i] => whole->Object_0.members@[i].value
                    ));
                    members_view_push(all.take(i), member);
                    assert(all.take(i + 1) == all.take(i).push(member));
                }
                let value = into_value(member.value);
                let _ = map_insert(&mut out, member.name, value);
            }
            assert(all.take(all.len() as int) == all);
            close_value(Node::Object(out))
        },
    }
}

/// The integer `n` as a value.
pub fn integer(n: i64) -> (r: Json)
    ensures
        r@ == JsonView::Number(integer_number(n)),
{
    Json::Number(number_from(n))
}

/// The value that a JSON text stands for, or why the text is not JSON.
pub fn read_text(text: &str) -> (r: Result<Json, String>)
    ensures
        match r {
            Ok(j) => read_json(text@) == Ok::<_, Seq<char>>(j@),
            Err(e) => read_json(text@) == Err::<JsonView, _>(e@),
        },
{
    match read_value(text) {
        Ok(v) => Ok(from_value(v)),
        Err(e) => Err(e),
    }
}

/// `j` as JSON text, all on one line.
pub fn write_text(j: Json) -> (r: String)
    ensures
        r@ == written_json(j@),
        !r@.contains('\n'),
{
    let value = into_value(j);
    write_value(&value).unwrap()
}

} // verus!

//! JSON values.
//!
//! A [`Json`] holds a value as plain data. Its view, [`JsonView`], is the value in the abstract:
//! an object is a map from names to values, so the order of its members does not matter.
use vstd::prelude::*;

use crate::text::{same_text, texts};

verus! {

/// A JSON value in the abstract.
pub enum JsonView {
    Null,
    Bool(bool),
    Number(serde_json::Number),
    Text(Seq<char>),
    Array(Seq<JsonView>),
    Object(Map<Seq<char>, JsonView>),
}

/// A JSON value.
#[derive(Debug)]
pub enum Json {
    Null,
    Bool(bool),
    Number(serde_json::Number),
    Text(String),
    Array(Vec<Json>),
    Object(JsonObject),
}

/// The members of a JSON object. Where a name occurs twice, the later member counts.
#[derive(Debug)]
pub struct JsonObject {
    pub members: Vec<Member>,
}

/// One member of a JSON object.
#[derive(Debug)]
pub struct Member {
    pub name: String,
    pub value: Json,
}

impl View for Json {
    type V = JsonView;

    open spec fn view(&self) -> JsonView {
        json_view(*self)
    }
}

impl View for JsonObject {
    type V = Map<Seq<char>, JsonView>;

    open spec fn view(&self) -> Map<Seq<char>, JsonView> {
        members_view(self.members@)
    }
}

pub open spec fn json_view(j: Json) -> JsonView
    decreases j,
{
    match j {
        Json::Null => JsonView::Null,
        Json::Bool(b) => JsonView::Bool(b),
        Json::Number(n) => JsonView::Number(n),
        Json::Text(s) => JsonView::Text(s@),
        Json::Array(items) => JsonView::Array(items_view(items@)),
        Json::Object(object) => JsonView::Object(members_view(object.members@)),
    }
}

/// The views of the items, in order.
pub open spec fn items_view(items: Seq<Json>) -> Seq<JsonView>
    decreases items,
{
    if items.len() == 0 {
        Seq::empty()
    } else {
        items_view(items.subrange(0, items.len() - 1)).push(json_view(items[items.len() - 1]))
    }
}

/// The views of the members by name.
pub open spec fn members_view(members: Seq<Member>) -> Map<Seq<char>, JsonView>
    decreases members,
{
    if members.len() == 0 {
        Map::empty()
    } else {
        members_view(members.subrange(0, members.len() - 1)).insert(
            members[members.len() - 1].name@,
            json_view(members[members.len() - 1].value),
        )
    }
}

/// The member `name` of `v`, if `v` is an object that has one.
pub open spec fn member_of(v: JsonView, name: Seq<char>) -> Option<JsonView> {
    match v {
        JsonView::Object(m) => if m.contains_key(name) {
            Some(m[name])
        } else {
            None
        },
        _ => None,
    }
}

/// The text of `v`, if `v` is a text.
pub open spec fn text_of(v: JsonView) -> Option<Seq<char>> {
    match v {
        JsonView::Text(s) => Some(s),
        _ => None,
    }
}

/// The text of the member `name` of `v`, if `v` is an object that has one and it is a text.
pub open spec fn member_text(v: JsonView, name: Seq<char>) -> Option<Seq<char>> {
    match member_of(v, name) {
        Some(m) => text_of(m),
        None => None,
    }
}

/// The array of the given texts.
pub open spec fn texts_view(v: Seq<Seq<char>>) -> JsonView {
    JsonView::Array(Seq::new(v.len(), |i: int| JsonView::Text(v[i])))
}

/// The view of an array holds the view of each item.
pub proof fn items_view_index(items: Seq<Json>)
    ensures
        items_view(items).len() == items.len(),
        forall|i: int| 0 <= i < items.len() ==> #[trigger] items_view(items)[i] == json_view(items[i]),
    decreases items.len(),
{
    if items.len() > 0 {
        items_view_index(items.subrange(0, items.len() - 1));
    }
}

/// An item at the end comes last in the view.
pub proof fn items_view_push(items: Seq<Json>, item: Json)
    ensures
        items_view(items.push(item)) == items_view(items).push(json_view(item)),
{
    assert(items.push(item).subrange(0, items.len() as int) == items);
}

/// A member at the end replaces a member of the same name in the view.
pub proof fn members_view_push(members: Seq<Member>, member: Member)
    ensures
        members_view(members.push(member)) == members_view(members).insert(
            member.name@,
            json_view(member.value),
        ),
{
    assert(members.push(member).subrange(0, members.len() as int) == members);
}

/// The names in the view are names of members.
proof fn members_view_names(members: Seq<Member>)
    ensures
        forall|name: Seq<char>| #[trigger]
            members_view(members).contains_key(name) ==> exists|i: int|
                0 <= i < members.len() && (#[trigger] members[i]).name@ == name,
    decreases members.len(),
{
    if members.len() > 0 {
        let front = members.subrange(0, members.len() - 1);
        let last = members[members.len() - 1];
        members_view_names(front);
        assert forall|name: Seq<char>| #[trigger]
            members_view(members).contains_key(name) implies exists|i: int|
            0 <= i < members.len() && (#[trigger] members[i]).name@ == name by {
            if name == last.name@ {
                assert(members[members.len() - 1].name@ == name);
            } else {
                assert(members_view(front).contains_key(name));
                let i = choose|i: int| 0 <= i < front.len() && (#[trigger] front[i]).name@ == name;
                assert(members[i].name@ == name);
            }
        }
    }
}

/// The last member of a name gives the value in the view.
proof fn members_view_last(members: Seq<Member>, i: int)
    requires
        0 <= i < members.len(),
        forall|j: int| i < j < members.len() ==> (#[trigger] members[j]).name@ != members[i].name@,
    ensures
        members_view(members).contains_key(members[i].name@),
        members_view(members)[members[i].name@] == json_view(members[i].value),
    decreases members.len(),
{
    if i < members.len() - 1 {
        let front = members.subrange(0, members.len() - 1);
        assert(front[i] == members[i]);
        members_view_last(front, i);
        assert(members[members.len() - 1].name@ != members[i].name@);
    }
}

/// Taking out a member changes nothing at the other names.
proof fn members_view_without(members: Seq<Member>, i: int)
    requires
        0 <= i < members.len(),
    ensures
        members_view(members.remove(i)).remove(members[i].name@) == members_view(members).remove(
            members[i].name@,
        ),
    decreases members.len(),
{
    let name = members[i].name@;
    let front = members.subrange(0, members.len() - 1);
    let last = members[members.len() - 1];
    if i == members.len() - 1 {
        assert(members.remove(i) == front);
        assert(members_view(front).remove(name) =~= members_view(members).remove(name));
    } else {
        assert(front[i] == members[i]);
        members_view_without(front, i);
        assert(members.remove(i) == front.remove(i).push(last));
        members_view_push(front.remove(i), last);
        let a = members_view(front.remove(i));
        let b = members_view(front);
        assert(a.remove(name) == b.remove(name));
        assert(members_view(members.remove(i)) == a.insert(last.name@, json_view(last.value)));
        assert(members_view(members) == b.insert(last.name@, json_view(last.value)));
        assert forall|k: Seq<char>|
            a.insert(last.name@, json_view(last.value)).remove(name).contains_key(k) == b.insert(
                last.name@,
                json_view(last.value),
            ).remove(name).contains_key(k) by {
            assert(a.remove(name).contains_key(k) == b.remove(name).contains_key(k));
        }
        assert forall|k: Seq<char>|
            a.insert(last.name@, json_view(last.value)).remove(name).contains_key(k) implies a.insert(
            last.name@,
            json_view(last.value),
        ).remove(name)[k] == b.insert(last.name@, json_view(last.value)).remove(name)[k] by {
            if k != last.name@ {
                assert(a.remove(name)[k] == b.remove(name)[k]);
            }
        }
        assert(a.insert(last.name@, json_view(last.value)).remove(name) =~= b.insert(
            last.name@,
            json_view(last.value),
        ).remove(name));
    }
}

impl JsonObject {
    /// An object without members.
    pub fn new() -> (r: JsonObject)
        ensures
            r@ == Map::<Seq<char>, JsonView>::empty(),
    {
        JsonObject { members: Vec::new() }
    }

    /// Sets the member `name`, in place of a member of that name.
    pub fn insert(&mut self, name: &str, value: Json)
        ensures
            final(self)@ == old(self)@.insert(name@, value@),
    {
        let mut i: usize = 0;
        while i < self.members.len()
            invariant
                i <= self.members.len(),
                members_view(self.members@).remove(name@) == old(self)@.remove(name@),
                forall|j: int| 0 <= j < i ==> (#[trigger] self.members@[j]).name@ != name@,
            decreases self.members.len() - i,
        {
            if same_text(self.members[i].name.as_str(), name) {
                proof {
                    members_view_without(self.members@, i as int);
                }
                self.members.remove(i);
            } else {
                i += 1;
            }
        }
        let ghost kept = self.members@;
        let member = Member { name: name.to_owned(), value };
        proof {
            members_view_names(kept);
            members_view_push(kept, member);
            assert(members_view(kept) == members_view(kept).remove(name@));
            assert(members_view(kept).insert(name@, value@) == old(self)@.insert(name@, value@))
                by {
                assert forall|k: Seq<char>| k != name@ implies members_view(kept).contains_key(k)
                    == old(self)@.contains_key(k) by {
                    assert(members_view(kept).remove(name@).contains_key(k) == old(self)@.remove(
                        name@,
                    ).contains_key(k));
                }
                assert forall|k: Seq<char>|
                    k != name@ && members_view(kept).contains_key(k) implies members_view(kept)[k]
                    == old(self)@[k] by {
                    assert(members_view(kept).remove(name@)[k] == old(self)@.remove(name@)[k]);
                }
                assert(members_view(kept).insert(name@, value@) =~= old(self)@.insert(
                    name@,
                    value@,
                ));
            }
        }
        self.members.push(member);
    }

    /// The value of the member `name`.
    pub fn get(&self, name: &str) -> (r: Option<&Json>)
        ensures
            match r {
                Some(v) => self@.contains_key(name@) && v@ == self@[name@],
                None => !self@.contains_key(name@),
            },
    {
        let mut i: usize = self.members.len();
        while i > 0
            invariant
                i <= self.members.len(),
                forall|j: int|
                    i <= j < self.members.len() ==> (#[trigger] self.members@[j]).name@ != name@,
            decreases i,
        {
            i -= 1;
            if same_text(self.members[i].name.as_str(), name) {
                proof {
                    members_view_last(self.members@, i as int);
                }
                return Some(&self.members[i].value);
            }
        }
        proof {
            members_view_names(self.members@);
        }
        None
    }

    /// Sets every member of `over` in this object.
    pub fn overlay(&mut self, over: JsonObject)
        ensures
            final(self)@ == old(self)@.union_prefer_right(over@),
    {
        let ghost all = over.members@;
        let ghost before = self@;
        let members = over.members;
        assert(members_view(all.take(0)) == Map::<Seq<char>, JsonView>::empty());
        assert(before.union_prefer_right(Map::<Seq<char>, JsonView>::empty()) == before);
        for member in it: members
            invariant
                it.seq() == all,
                self@ == before.union_prefer_right(members_view(all.take(it.index() as int))),
        {
            let ghost i = it.index() as int;
            assert(all.take(i + 1) == all.take(i).push(member));
            proof {
                members_view_push(all.take(i), member);
            }
            assert(before.union_prefer_right(members_view(all.take(i + 1)))
                == before.union_prefer_right(members_view(all.take(i))).insert(
                member.name@,
                member.value@,
            ));
            self.insert(member.name.as_str(), member.value);
        }
        assert(all.take(all.len() as int) == all);
    }
}

impl Json {
    /// The member `name`, if this is an object that has one.
    pub fn get(&self, name: &str) -> (r: Option<&Json>)
        ensures
            match r {
                Some(v) => member_of(self@, name@) == Some(v@),
                None => member_of(self@, name@) is None,
            },
    {
        match self {
            Json::Object(object) => object.get(name),
            _ => None,
        }
    }

    /// The text of this value, if it is a text.
    pub fn as_str(&self) -> (r: Option<&str>)
        ensures
            match r {
                Some(s) => text_of(self@) == Some(s@),
                None => text_of(self@) is None,
            },
    {
        match self {
            Json::Text(s) => Some(s.as_str()),
            _ => None,
        }
    }

    /// The text of the member `name`, if this is an object that has one and it is a text.
    pub fn get_str(&self, name: &str) -> (r: Option<&str>)
        ensures
            match r {
                Some(s) => member_text(self@, name@) == Some(s@),
                None => member_text(self@, name@) is None,
            },
    {
        match self.get(name) {
            Some(v) => v.as_str(),
            None => None,
        }
    }

    /// The text `s` as a value.
    pub fn text(s: &str) -> (r: Json)
        ensures
            r@ == JsonView::Text(s@),
    {
        Json::Text(s.to_owned())
    }

    /// The array of the given texts.
    pub fn texts(v: &Vec<String>) -> (r: Json)
        ensures
            r@ == texts_view(texts(v@)),
    {
        let mut items: Vec<Json> = Vec::new();
        let mut i: usize = 0;
        while i < v.len()
            invariant
                i <= v.len(),
                items@.len() == i,
                forall|j: int|
                    0 <= j < i ==> json_view(#[trigger] items@[j]) == JsonView::Text(v@[j]@),
            decreases v.len() - i,
        {
            items.push(Json::Text(v[i].clone()));
            i += 1;
        }
        proof {
            items_view_index(items@);
            assert(items_view(items@) == Seq::new(
                texts(v@).len(),
                |j: int| JsonView::Text(texts(v@)[j]),
            ));
        }
        Json::Array(items)
    }
}

/// A copy of `j`.
fn copy_json(j: &Json) -> (r: Json)
    ensures
        r@ == j@,
    decreases j,
{
    match j {
        Json::Null => Json::Null,
        Json::Bool(b) => Json::Bool(*b),
        Json::Number(n) => Json::Number(n.clone()),
        Json::Text(s) => Json::Text(s.clone()),
        Json::Array(items) => {
            let mut out: Vec<Json> = Vec::new();
            let mut i: usize = 0;
            assert(items@.take(0) == out@);
            while i < items.len()
                invariant
                    i <= items.len(),
                    *j == Json::Array(*items),
                    items_view(out@) == items_view(items@.take(i as int)),
                decreases items.len() - i,
            {
                assert(decreases_to!(*j => j->Array_0));
                assert(decreases_to!(j->Array_0 => j->Array_0@));
                assert(decreases_to!(j->Array_0@ => j->Array_0@[i as int]));
                let item = copy_json(&items[i]);
                proof {
                    items_view_push(out@, item);
                    items_view_push(items@.take(i as int), items@[i as int]);
                    assert(items@.take(i + 1) == items@.take(i as int).push(items@[i as int]));
                }
                out.push(item);
                i += 1;
            }
            assert(items@.take(i as int) == items@);
            Json::Array(out)
        },
        Json::Object(object) => {
            let members = &object.members;
            let mut out: Vec<Member> = Vec::new();
            let mut i: usize = 0;
            assert(members@.take(0) == out@);
            while i < members.len()
                invariant
                    i <= members.len(),
                    *j == Json::Object(*object),
                    *members == object.members,
                    members_view(out@) == members_view(members@.take(i as int)),
                decreases members.len() - i,
            {
                assert(decreases_to!(*j => j->Object_0));
                assert(decreases_to!(j->Object_0 => j->Object_0.members));
                assert(decreases_to!(j->Object_0.members => j->Object_0.members@));
                assert(decreases_to!(j->Object_0.members@ => j->Object_0.members@[i as int]));
                assert(decreases_to!(j->Object_0.members@[i as int] => j->Object_0.members@[i as int].value));
                let value = copy_json(&members[i].value);
                let member = Member { name: members[i].name.clone(), value };
                proof {
                    members_view_push(out@, member);
                    members_view_push(members@.take(i as int), members@[i as int]);
                    assert(members@.take(i + 1) == members@.take(i as int).push(
                        members@[i as int],
                    ));
                }
                out.push(member);
                i += 1;
            }
            assert(members@.take(i as int) == members@);
            Json::Object(JsonObject { members: out })
        },
    }
}

impl Clone for Json {
    fn clone(&self) -> (r: Json)
        ensures
            r@ == self@,
    {
        copy_json(self)
    }
}

} // verus!

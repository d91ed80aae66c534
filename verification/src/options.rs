//! The options that a test run takes, as the members of a JSON object.
use vstd::prelude::*;

use crate::json::{Json, JsonObject, JsonView};
use crate::json_io::{integer, integer_number};
use crate::text::texts;

verus! {

/// An option by its name, with its value if it was given one.
pub struct OptionRow {
    pub name: &'static str,
    pub value: Option<Json>,
}

/// An option in the abstract.
pub struct OptionRowView {
    pub name: Seq<char>,
    pub value: Option<JsonView>,
}

impl View for OptionRow {
    type V = OptionRowView;

    open spec fn view(&self) -> OptionRowView {
        OptionRowView {
            name: self.name@,
            value: match self.value {
                Some(v) => Some(v@),
                None => None,
            },
        }
    }
}

/// The rows in the abstract.
pub open spec fn rows_view(rows: Seq<OptionRow>) -> Seq<OptionRowView> {
    Seq::new(rows.len(), |i: int| rows[i]@)
}

/// The names of the options, in the order of their rows.
pub open spec fn option_names() -> Seq<Seq<char>> {
    seq![
        "clearMocks"@,
        "expand"@,
        "noStackTrace"@,
        "oldFunctionSpying"@,
        "passWithNoTests"@,
        "resetMocks"@,
        "testMatch"@,
        "testNamePattern"@,
        "testPathIgnorePatterns"@,
        "testPathPattern"@,
        "testTimeout"@,
        "verbose"@,
        "updateSnapshot"@,
    ]
}

/// Rows for each of the options, in their order.
pub open spec fn for_all_options(rows: Seq<OptionRowView>) -> bool {
    &&& rows.len() == option_names().len()
    &&& forall|i: int| 0 <= i < rows.len() ==> (#[trigger] rows[i]).name == option_names()[i]
}

/// The value of an option, or null if it was given none.
pub open spec fn value_or_null(v: Option<JsonView>) -> JsonView {
    match v {
        Some(v) => v,
        None => JsonView::Null,
    }
}

/// An object that has each option, null where it was given no value.
pub open spec fn all_members(rows: Seq<OptionRowView>) -> Map<Seq<char>, JsonView>
    decreases rows.len(),
{
    if rows.len() == 0 {
        Map::empty()
    } else {
        all_members(rows.drop_last()).insert(rows.last().name, value_or_null(rows.last().value))
    }
}

/// An object that has the options that were given a value, and no others.
pub open spec fn given_members(rows: Seq<OptionRowView>) -> Map<Seq<char>, JsonView>
    decreases rows.len(),
{
    if rows.len() == 0 {
        Map::empty()
    } else {
        match rows.last().value {
            Some(v) => given_members(rows.drop_last()).insert(rows.last().name, v),
            None => given_members(rows.drop_last()),
        }
    }
}

pub open spec fn flag_view(v: Option<bool>) -> Option<JsonView> {
    match v {
        Some(b) => Some(JsonView::Bool(b)),
        None => None,
    }
}

pub open spec fn pattern_view(v: Option<String>) -> Option<JsonView> {
    match v {
        Some(s) => Some(JsonView::Text(s@)),
        None => None,
    }
}

pub open spec fn patterns_view(v: Option<Vec<String>>) -> Option<JsonView> {
    match v {
        Some(list) => Some(crate::json::texts_view(texts(list@))),
        None => None,
    }
}

pub open spec fn number_view(v: Option<u32>) -> Option<JsonView> {
    match v {
        Some(n) => Some(JsonView::Number(integer_number(n as i64))),
        None => None,
    }
}

/// The row of an option that is on or off.
pub fn flag_row(name: &'static str, v: Option<bool>) -> (r: OptionRow)
    ensures
        r@ == (OptionRowView { name: name@, value: flag_view(v) }),
{
    OptionRow {
        name,
        value: match v {
            Some(b) => Some(Json::Bool(b)),
            None => None,
        },
    }
}

/// The row of an option that is a pattern.
pub fn pattern_row(name: &'static str, v: &Option<String>) -> (r: OptionRow)
    ensures
        r@ == (OptionRowView { name: name@, value: pattern_view(*v) }),
{
    OptionRow {
        name,
        value: match v {
            Some(s) => Some(Json::text(s.as_str())),
            None => None,
        },
    }
}

/// The row of an option that is a list of patterns.
pub fn patterns_row(name: &'static str, v: &Option<Vec<String>>) -> (r: OptionRow)
    ensures
        r@ == (OptionRowView { name: name@, value: patterns_view(*v) }),
{
    OptionRow {
        name,
        value: match v {
            Some(list) => Some(Json::texts(list)),
            None => None,
        },
    }
}

/// The row of an option that is a number.
pub fn number_row(name: &'static str, v: Option<u32>) -> (r: OptionRow)
    ensures
        r@ == (OptionRowView { name: name@, value: number_view(v) }),
{
    OptionRow {
        name,
        value: match v {
            Some(n) => Some(integer(n as i64)),
            None => None,
        },
    }
}

/// The object that has each option, null where it was given no value.
pub fn object_of_all(rows: Vec<OptionRow>) -> (r: JsonObject)
    ensures
        r@ == all_members(rows_view(rows@)),
{
    let ghost all = rows@;
    let mut out = JsonObject::new();
    for row in it: rows
        invariant
            it.seq() == all,
            out@ == all_members(rows_view(all).take(it.index() as int)),
    {
        let ghost upto = rows_view(all).take(it.index() + 1);
        assert(upto.drop_last() == rows_view(all).take(it.index() as int));
        assert(upto.last() == row@);
        let value = match row.value {
            Some(v) => v,
            None => Json::Null,
        };
        out.insert(row.name, value);
    }
    assert(rows_view(all).take(all.len() as int) == rows_view(all));
    out
}

/// The object that has the options that were given a value, and no others.
pub fn object_of_given(rows: Vec<OptionRow>) -> (r: JsonObject)
    ensures
        r@ == given_members(rows_view(rows@)),
{
    let ghost all = rows@;
    let mut out = JsonObject::new();
    for row in it: rows
        invariant
            it.seq() == all,
            out@ == given_members(rows_view(all).take(it.index() as int)),
    {
        let ghost upto = rows_view(all).take(it.index() + 1);
        assert(upto.drop_last() == rows_view(all).take(it.index() as int));
        assert(upto.last() == row@);
        match row.value {
            Some(v) => out.insert(row.name, v),
            None => {},
        }
    }
    assert(rows_view(all).take(all.len() as int) == rows_view(all));
    out
}

/// The names of the options differ.
pub proof fn option_names_differ()
    ensures
        option_names().no_duplicates(),
{
    reveal_strlit("clearMocks");
    reveal_strlit("expand");
    reveal_strlit("noStackTrace");
    reveal_strlit("oldFunctionSpying");
    reveal_strlit("passWithNoTests");
    reveal_strlit("resetMocks");
    reveal_strlit("testMatch");
    reveal_strlit("testNamePattern");
    reveal_strlit("testPathIgnorePatterns");
    reveal_strlit("testPathPattern");
    reveal_strlit("testTimeout");
    reveal_strlit("verbose");
    reveal_strlit("updateSnapshot");
    let names = option_names();
    assert(names[0].len() == 10);
    assert(names[1].len() == 6);
    assert(names[2].len() == 12);
    assert(names[3].len() == 17);
    assert(names[4].len() == 15);
    assert(names[5].len() == 10);
    assert(names[6].len() == 9);
    assert(names[7].len() == 15);
    assert(names[8].len() == 22);
    assert(names[9].len() == 15);
    assert(names[10].len() == 11);
    assert(names[11].len() == 7);
    assert(names[12].len() == 14);
    assert(names[0][0] == 'c' && names[5][0] == 'r');
    assert(names[4][4] == 'W' && names[7][4] == 'N' && names[9][4] == 'P');
    assert forall|i: int, j: int| 0 <= i < j < names.len() implies names[i] != names[j] by {
        assert(i == 0 || i == 1 || i == 2 || i == 3 || i == 4 || i == 5 || i == 6 || i == 7 || i
            == 8 || i == 9 || i == 10 || i == 11);
        assert(j == 1 || j == 2 || j == 3 || j == 4 || j == 5 || j == 6 || j == 7 || j == 8 || j
            == 9 || j == 10 || j == 11 || j == 12);
        if names[i] == names[j] {
            assert(names[i].len() == names[j].len());
            assert(names[i][0] == names[j][0] && names[i][4] == names[j][4]);
        }
    }
}

pub(crate) proof fn all_members_index(rows: Seq<OptionRowView>)
    requires
        forall|i: int, j: int|
            0 <= i < j < rows.len() ==> (#[trigger] rows[i]).name != (#[trigger] rows[j]).name,
    ensures
        forall|i: int|
            0 <= i < rows.len() ==> all_members(rows).contains_key((#[trigger] rows[i]).name)
                && all_members(rows)[rows[i].name] == value_or_null(rows[i].value),
        forall|name: Seq<char>| #[trigger]
            all_members(rows).contains_key(name) ==> exists|i: int|
                0 <= i < rows.len() && (#[trigger] rows[i]).name == name,
    decreases rows.len(),
{
    if rows.len() > 0 {
        let front = rows.drop_last();
        assert forall|i: int, j: int| 0 <= i < j < front.len() implies (#[trigger] front[i]).name
            != (#[trigger] front[j]).name by {
            assert(rows[i].name != rows[j].name);
        }
        all_members_index(front);
        assert forall|i: int| 0 <= i < rows.len() implies all_members(rows).contains_key(
            (#[trigger] rows[i]).name,
        ) && all_members(rows)[rows[i].name] == value_or_null(rows[i].value) by {
            if i < rows.len() - 1 {
                assert(front[i] == rows[i]);
                assert(rows[i].name != rows[rows.len() - 1].name);
            }
        }
        assert forall|name: Seq<char>| #[trigger]
            all_members(rows).contains_key(name) implies exists|i: int|
            0 <= i < rows.len() && (#[trigger] rows[i]).name == name by {
            if name == rows.last().name {
                assert(rows[rows.len() - 1].name == name);
            } else {
                assert(all_members(front).contains_key(name));
                let i = choose|i: int| 0 <= i < front.len() && (#[trigger] front[i]).name == name;
                assert(rows[i].name == name);
            }
        }
    }
}

pub(crate) proof fn given_members_index(rows: Seq<OptionRowView>)
    requires
        forall|i: int, j: int|
            0 <= i < j < rows.len() ==> (#[trigger] rows[i]).name != (#[trigger] rows[j]).name,
    ensures
        forall|i: int|
            0 <= i < rows.len() ==> given_members(rows).contains_key((#[trigger] rows[i]).name) == (
            rows[i].value is Some) && (rows[i].value is Some ==> given_members(rows)[rows[i].name]
                == rows[i].value->0),
        forall|name: Seq<char>| #[trigger]
            given_members(rows).contains_key(name) ==> exists|i: int|
                0 <= i < rows.len() && (#[trigger] rows[i]).name == name,
    decreases rows.len(),
{
    if rows.len() > 0 {
        let front = rows.drop_last();
        let last = rows.len() - 1;
        assert forall|i: int, j: int| 0 <= i < j < front.len() implies (#[trigger] front[i]).name
            != (#[trigger] front[j]).name by {
            assert(rows[i].name != rows[j].name);
        }
        given_members_index(front);
        assert forall|i: int| 0 <= i < rows.len() implies given_members(rows).contains_key(
            (#[trigger] rows[i]).name,
        ) == (rows[i].value is Some) && (rows[i].value is Some ==> given_members(
            rows,
        )[rows[i].name] == rows[i].value->0) by {
            if i < last {
                assert(front[i] == rows[i]);
                assert(rows[i].name != rows[last].name);
            } else if given_members(front).contains_key(rows[last].name) {
                let k = choose|k: int|
                    0 <= k < front.len() && (#[trigger] front[k]).name == rows[last].name;
                assert(rows[k].name != rows[last].name);
            }
        }
        assert forall|name: Seq<char>| #[trigger]
            given_members(rows).contains_key(name) implies exists|i: int|
            0 <= i < rows.len() && (#[trigger] rows[i]).name == name by {
            if name == rows[last].name {
            } else {
                assert(given_members(front).contains_key(name));
                let i = choose|i: int| 0 <= i < front.len() && (#[trigger] front[i]).name == name;
                assert(rows[i].name == name);
            }
        }
    }
}

/// An option that was given a value overrides the default of the same name, an option that was
/// not leaves it, and the merged object has each option once and nothing else.
pub proof fn given_options_override(defaults: Seq<OptionRowView>, given: Seq<OptionRowView>)
    requires
        for_all_options(defaults),
        for_all_options(given),
    ensures
        all_members(defaults).union_prefer_right(given_members(given)).dom()
            == option_names().to_set(),
        forall|i: int|
            0 <= i < option_names().len() ==> all_members(defaults).union_prefer_right(
                given_members(given),
            )[#[trigger] option_names()[i]] == (if given[i].value is Some {
                given[i].value->0
            } else {
                value_or_null(defaults[i].value)
            }),
{
    option_names_differ();
    let names = option_names();
    assert forall|i: int, j: int| 0 <= i < j < defaults.len() implies (#[trigger] defaults[i]).name
        != (#[trigger] defaults[j]).name by {
        assert(names[i] != names[j]);
    }
    assert forall|i: int, j: int| 0 <= i < j < given.len() implies (#[trigger] given[i]).name != (
    #[trigger] given[j]).name by {
        assert(names[i] != names[j]);
    }
    all_members_index(defaults);
    given_members_index(given);
    let merged = all_members(defaults).union_prefer_right(given_members(given));
    assert forall|i: int| 0 <= i < names.len() implies merged[#[trigger] names[i]] == (
    if given[i].value is Some {
        given[i].value->0
    } else {
        value_or_null(defaults[i].value)
    }) by {
        assert(defaults[i].name == names[i]);
        assert(given[i].name == names[i]);
    }
    assert(merged.dom() =~= names.to_set()) by {
        assert forall|name: Seq<char>| merged.dom().contains(name) == names.to_set().contains(
            name,
        ) by {
            if names.contains(name) {
                let i = choose|i: int| 0 <= i < names.len() && names[i] == name;
                assert(defaults[i].name == name);
            }
            if all_members(defaults).contains_key(name) {
                let i = choose|i: int|
                    0 <= i < defaults.len() && (#[trigger] defaults[i]).name == name;
                assert(names[i] == name);
            }
            if given_members(given).contains_key(name) {
                let i = choose|i: int| 0 <= i < given.len() && (#[trigger] given[i]).name == name;
                assert(names[i] == name);
            }
        }
    }
}

} // verus!

//! What the views show of the values: everything that they hold, and nothing else.
use vstd::prelude::*;

use crate::config::Config;
use crate::json::{
    items_view, items_view_index, json_view, member_of, member_text, members_view,
    members_view_push, text_of, texts_view, Json, JsonObject, JsonView, Member,
};
use crate::json_io::{
    distinct_names, entries_view, json_of, members_of, no_members, node_view, Node,
};
use crate::mcp::{optional_view, Handled, HandledView, LineStep, LineStepView};
use crate::options::{rows_view, OptionRow};
use crate::run::{ActiveRun, McpCoord, RunTestsError, RunTestsErrorView};
use crate::studio::{
    Coordinator, CoordinatorView, FsWriteStep, FsWriteStepView, PollReply, PollReplyView, Reply,
};
use crate::text::texts;

verus! {

/// A list of strings shows each of them in its place.
pub proof fn texts_show_each_string(v: Seq<String>)
    ensures
        texts(v).len() == v.len(),
        forall|i: int| 0 <= i < v.len() ==> #[trigger] texts(v)[i] == v[i]@,
{
}

/// A JSON value shows its kind and what it holds. An array shows each item in its place.
pub proof fn json_shows_what_it_holds(b: bool, n: serde_json::Number, s: String, items: Vec<Json>)
    ensures
        Json::Null@ == JsonView::Null,
        Json::Bool(b)@ == JsonView::Bool(b),
        Json::Number(n)@ == JsonView::Number(n),
        Json::Text(s)@ == JsonView::Text(s@),
        Json::Array(items)@ is Array,
        Json::Array(items)@->Array_0.len() == items@.len(),
        forall|i: int|
            0 <= i < items@.len() ==> #[trigger] Json::Array(items)@->Array_0[i] == items@[i]@,
{
    items_view_index(items@);
    assert forall|i: int| 0 <= i < items@.len() implies #[trigger] Json::Array(items)@->Array_0[i]
        == items@[i]@ by {
        assert(items_view(items@)[i] == json_view(items@[i]));
    }
}

/// Whether `i` is the last member of the name `name`.
pub open spec fn last_of_name(members: Seq<Member>, name: Seq<char>, i: int) -> bool {
    &&& 0 <= i < members.len()
    &&& members[i].name@ == name
    &&& forall|j: int| i < j < members.len() ==> (#[trigger] members[j]).name@ != name
}

/// A JSON object shows the last member of each name, and no other name.
pub proof fn objects_show_the_last_member_of_a_name(object: JsonObject, name: Seq<char>)
    ensures
        Json::Object(object)@ == JsonView::Object(object@),
        object@.contains_key(name) <==> exists|i: int| #[trigger]
            last_of_name(object.members@, name, i),
        forall|i: int| #[trigger]
            last_of_name(object.members@, name, i) ==> object@[name] == object.members@[i].value@,
{
    last_member_shows(object.members@, name);
}

proof fn last_member_shows(members: Seq<Member>, name: Seq<char>)
    ensures
        members_view(members).contains_key(name) <==> exists|i: int| #[trigger]
            last_of_name(members, name, i),
        forall|i: int| #[trigger]
            last_of_name(members, name, i) ==> members_view(members)[name] == members[i].value@,
    decreases members.len(),
{
    if members.len() > 0 {
        let front = members.drop_last();
        let last = members.last();
        last_member_shows(front, name);
        assert(front.push(last) == members);
        members_view_push(front, last);
        if last.name@ == name {
            assert(last_of_name(members, name, members.len() - 1));
            assert forall|i: int| #[trigger] last_of_name(members, name, i) implies i
                == members.len() - 1 by {
                if i < members.len() - 1 {
                    assert(members[members.len() - 1].name@ == name);
                }
            }
        } else {
            assert forall|i: int| last_of_name(members, name, i) implies #[trigger] last_of_name(
                front,
                name,
                i,
            ) by {
                assert(front[i] == members[i]);
                assert forall|j: int| i < j < front.len() implies (#[trigger] front[j]).name@
                    != name by {
                    assert(members[j].name@ != name);
                }
            }
            assert forall|i: int| last_of_name(front, name, i) implies #[trigger] last_of_name(
                members,
                name,
                i,
            ) by {
                assert forall|j: int| i < j < members.len() implies (#[trigger] members[j]).name@
                    != name by {
                    if j < members.len() - 1 {
                        assert(front[j].name@ != name);
                    }
                }
            }
            assert forall|i: int| #[trigger] last_of_name(members, name, i) implies members_view(
                members,
            )[name] == members[i].value@ by {
                assert(last_of_name(front, name, i));
            }
            if exists|i: int| #[trigger] last_of_name(members, name, i) {
                let i = choose|i: int| #[trigger] last_of_name(members, name, i);
                assert(last_of_name(front, name, i));
            }
            if exists|i: int| #[trigger] last_of_name(front, name, i) {
                let i = choose|i: int| #[trigger] last_of_name(front, name, i);
                assert(last_of_name(members, name, i));
            }
        }
    }
}

/// A member is found in an object that has it, and nowhere else; its text is found if it is a text.
pub proof fn members_are_found_in_objects(v: JsonView, name: Seq<char>)
    ensures
        member_of(v, name) is Some <==> v is Object && v->Object_0.contains_key(name),
        member_of(v, name) is Some ==> member_of(v, name)->0 == v->Object_0[name],
        text_of(v) is Some <==> v is Text,
        text_of(v) is Some ==> text_of(v)->0 == v->Text_0,
        member_text(v, name) is Some <==> v is Object && v->Object_0.contains_key(name)
            && v->Object_0[name] is Text,
        member_text(v, name) is Some ==> member_text(v, name)->0 == v->Object_0[name]->Text_0,
        no_members() == Map::<Seq<char>, JsonView>::empty(),
{
}

/// An array of texts holds each text in its place.
pub proof fn arrays_of_texts_hold_each_text(v: Seq<Seq<char>>)
    ensures
        texts_view(v) is Array,
        texts_view(v)->Array_0.len() == v.len(),
        forall|i: int|
            0 <= i < v.len() ==> #[trigger] texts_view(v)->Array_0[i] == JsonView::Text(v[i]),
{
}

/// The outermost level of a value of `serde_json` shows its kind and what it holds.
pub(crate) proof fn levels_show_what_they_hold(n: Node)
    ensures
        match n {
            Node::Null => node_view(n) == JsonView::Null,
            Node::Bool(b) => node_view(n) == JsonView::Bool(b),
            Node::Number(x) => node_view(n) == JsonView::Number(x),
            Node::Text(s) => node_view(n) == JsonView::Text(s@),
            Node::Array(items) => node_view(n) is Array && node_view(n)->Array_0.len()
                == items@.len() && forall|i: int|
                0 <= i < items@.len() ==> #[trigger] node_view(n)->Array_0[i] == json_of(items@[i]),
            Node::Object(m) => node_view(n) == JsonView::Object(members_of(m)),
        },
{
}

/// Whether the `i`th entry has this name.
pub open spec fn entry_named(
    entries: Seq<(String, serde_json::Value)>,
    name: Seq<char>,
    i: int,
) -> bool {
    0 <= i < entries.len() && entries[i].0@ == name
}

/// Entries with different names show each value under its name, and nothing else.
pub proof fn entries_show_each_value(entries: Seq<(String, serde_json::Value)>, name: Seq<char>)
    requires
        forall|i: int, j: int|
            0 <= i < j < entries.len() ==> (#[trigger] entries[i]).0@ != (#[trigger] entries[j]).0@,
    ensures
        distinct_names(entries),
        entries_view(entries).contains_key(name) <==> exists|i: int| #[trigger]
            entry_named(entries, name, i),
        forall|i: int| #[trigger]
            entry_named(entries, name, i) ==> entries_view(entries)[name] == json_of(entries[i].1),
    decreases entries.len(),
{
    if entries.len() > 0 {
        let front = entries.drop_last();
        let last = entries.len() - 1;
        assert forall|i: int, j: int| 0 <= i < j < front.len() implies (#[trigger] front[i]).0@ != (
        #[trigger] front[j]).0@ by {
            assert(entries[i].0@ != entries[j].0@);
        }
        entries_show_each_value(front, name);
        assert forall|i: int| 0 <= i < last implies #[trigger] entry_named(entries, name, i)
            == entry_named(front, name, i) by {}
        if entries[last].0@ == name {
            assert(entry_named(entries, name, last));
            assert forall|i: int| #[trigger] entry_named(entries, name, i) implies i == last by {
                if i < last {
                    assert(entries[i].0@ != entries[last].0@);
                }
            }
        } else {
            if exists|i: int| #[trigger] entry_named(front, name, i) {
                let i = choose|i: int| #[trigger] entry_named(front, name, i);
                assert(entry_named(entries, name, i));
            }
            assert forall|i: int| #[trigger] entry_named(entries, name, i) implies entries_view(
                entries,
            )[name] == json_of(entries[i].1) by {
                assert(entry_named(front, name, i));
            }
            if exists|i: int| #[trigger] entry_named(entries, name, i) {
                let i = choose|i: int| #[trigger] entry_named(entries, name, i);
                assert(entry_named(front, name, i));
            }
        }
    }
}

/// An optional value shows whether it is there and what it is; an option shows its name and value.
pub proof fn optional_values_show_what_they_hold(v: Option<Json>, rows: Seq<OptionRow>, i: int)
    requires
        0 <= i < rows.len(),
    ensures
        optional_view(v) is Some <==> v is Some,
        v is Some ==> optional_view(v)->0 == v->0@,
        rows_view(rows).len() == rows.len(),
        rows_view(rows)[i].name == rows[i].name@,
        rows_view(rows)[i].value is Some <==> rows[i].value is Some,
        rows[i].value is Some ==> rows_view(rows)[i].value->0 == rows[i].value->0@,
{
}

/// The configuration shows name and path of each project in its place.
pub proof fn config_shows_each_project(config: Config)
    ensures
        config.names().len() == config.projects@.len(),
        config.entries().len() == config.projects@.len(),
        forall|i: int|
            0 <= i < config.projects@.len() ==> #[trigger] config.names()[i]
                == config.projects@[i].name@,
        forall|i: int|
            0 <= i < config.projects@.len() ==> #[trigger] config.entries()[i] == (
                config.projects@[i].name@,
                config.projects@[i].path@,
            ),
        config.wf() <==> forall|i: int, j: int|
            0 <= i < j < config.projects@.len() ==> (#[trigger] config.projects@[i]).name@ != (
            #[trigger] config.projects@[j]).name@,
{
    if config.wf() {
        assert forall|i: int, j: int| 0 <= i < j < config.projects@.len() implies (
        #[trigger] config.projects@[i]).name@ != (#[trigger] config.projects@[j]).name@ by {
            assert(config.names()[i] != config.names()[j]);
        }
    }
    if forall|i: int, j: int|
        0 <= i < j < config.projects@.len() ==> (#[trigger] config.projects@[i]).name@ != (
        #[trigger] config.projects@[j]).name@ {
        assert forall|i: int, j: int|
            0 <= i < config.names().len() && 0 <= j < config.names().len() && i
                != j implies config.names()[i] != config.names()[j] by {
            if i < j {
                assert(config.projects@[i].name@ != config.projects@[j].name@);
            } else {
                assert(config.projects@[j].name@ != config.projects@[i].name@);
            }
        }
    }
}

/// A run shows all that it holds, and the shared state shows whether there is one.
pub proof fn runs_show_what_they_hold(run: ActiveRun, c: McpCoord)
    ensures
        run@.projects.len() == run.projects@.len(),
        forall|i: int|
            0 <= i < run.projects@.len() ==> #[trigger] run@.projects[i] == run.projects@[i]@,
        run@.options == run.options@,
        run@.dispatched == run.dispatched,
        run@.output == run.output@,
        run@.outcome == run.outcome,
        c@.active is Some <==> c.active is Some,
        c.active is Some ==> c@.active->0 == c.active->0@,
        c@.http_available == c.http_available,
        c@.ever_polled == c.ever_polled,
{
}

/// A failure shows its kind and what belongs to it.
pub proof fn failures_show_what_they_hold(e: RunTestsError)
    ensures
        match e {
            RunTestsError::NoPort => e@ is NoPort,
            RunTestsError::NoProjects => e@ is NoProjects,
            RunTestsError::EmptyProjects => e@ is EmptyProjects,
            RunTestsError::UnknownProject { name, configured } => e@
                == (RunTestsErrorView::UnknownProject {
                name: name@,
                configured: Seq::new(configured@.len(), |i: int| configured@[i]@),
            }),
            RunTestsError::AlreadyRunning => e@ is AlreadyRunning,
            RunTestsError::NotConnected { seconds } => e@ == (RunTestsErrorView::NotConnected {
                seconds,
            }),
            RunTestsError::Runner { output } => e@ == (RunTestsErrorView::Runner {
                output: output@,
            }),
            RunTestsError::EndedUnexpectedly => e@ is EndedUnexpectedly,
            RunTestsError::TimedOut { seconds } => e@ == (RunTestsErrorView::TimedOut { seconds }),
        },
{
}

/// What a message or a line calls for shows its kind and what belongs to it.
pub proof fn steps_show_what_they_hold(h: Handled, l: LineStep)
    ensures
        match h {
            Handled::Silent => h@ is Silent,
            Handled::Reply(j) => h@ == HandledView::Reply(j@),
            Handled::RunTests { id, arguments } => h@ is RunTests && h@->arguments == arguments@ && (
            h@->id is Some <==> id is Some) && (id is Some ==> h@->id->0 == id->0@),
        },
        match l {
            LineStep::Skip => l@ is Skip,
            LineStep::Invalid(e) => l@ == LineStepView::Invalid(e@),
            LineStep::Message(m) => l@ == LineStepView::Message(m@),
        },
{
}

/// What the plugin is told shows its kind and what belongs to it.
pub proof fn replies_show_what_they_hold(
    r: Reply,
    p: PollReply,
    f: FsWriteStep,
    c: Coordinator,
)
    ensures
        r@.status == r.status,
        r@.text == r.text@,
        match p {
            PollReply::Refused(reply) => p@ == PollReplyView::Refused(reply@),
            PollReply::Accepted(body) => p@ is Accepted && p@->options == body.options@ && p@->run
                == body.run && p@->projects == Seq::new(
                body.projects@.len(),
                |i: int| body.projects@[i]@,
            ),
        },
        match f {
            FsWriteStep::MakeParent => f@ is MakeParent,
            FsWriteStep::WriteFile => f@ is WriteFile,
            FsWriteStep::Reply(reply) => f@ == FsWriteStepView::Reply(reply@),
        },
        match c {
            Coordinator::Cli(coord) => c@ == CoordinatorView::Cli(coord),
            Coordinator::Mcp(coord) => c@ == CoordinatorView::Mcp(coord@),
        },
{
}

} // verus!

//! The projects that can be tested.
use vstd::prelude::*;

use crate::text::{same_text, texts};

verus! {

/// A project and where it lies.
#[derive(Debug)]
pub struct Project {
    pub name: String,
    pub path: String,
}

/// The configured projects, in no particular order.
#[derive(Debug)]
pub struct Config {
    pub projects: Vec<Project>,
}

impl Config {
    /// Name and path of each project.
    pub open spec fn entries(self) -> Seq<(Seq<char>, Seq<char>)> {
        Seq::new(self.projects@.len(), |i: int| (self.projects@[i].name@, self.projects@[i].path@))
    }

    /// The name of each project.
    pub open spec fn names(self) -> Seq<Seq<char>> {
        Seq::new(self.projects@.len(), |i: int| self.projects@[i].name@)
    }

    /// No project is configured twice.
    pub open spec fn wf(self) -> bool {
        self.names().no_duplicates()
    }

    /// Configures a project, in place of a project of that name.
    pub fn insert(&mut self, name: String, path: String)
        ensures
            match old(self).names().contains(name@) {
                true => exists|i: int|
                    0 <= i < old(self).names().len() && #[trigger] old(self).names()[i] == name@
                        && final(self).entries() == old(self).entries().update(i, (name@, path@)),
                false => final(self).entries() == old(self).entries().push((name@, path@)),
            },
            old(self).wf() ==> final(self).wf(),
    {
        let ghost before = *self;
        let mut i: usize = 0;
        while i < self.projects.len()
            invariant
                i <= self.projects.len(),
                before == *old(self),
                *self == before,
                forall|j: int| 0 <= j < i ==> #[trigger] before.names()[j] != name@,
            decreases self.projects.len() - i,
        {
            if same_text(self.projects[i].name.as_str(), name.as_str()) {
                assert(before.names()[i as int] == name@);
                let project = Project { name, path };
                self.projects.set(i, project);
                assert(self.entries() == before.entries().update(i as int, (name@, path@)));
                assert(self.names() == before.names());
                return;
            }
            i += 1;
        }
        assert(!before.names().contains(name@));
        self.projects.push(Project { name, path });
        assert(self.entries() == before.entries().push((name@, path@)));
        assert(self.names() == before.names().push(name@));
    }

    /// The name of each project.
    pub fn project_names(&self) -> (r: Vec<String>)
        ensures
            texts(r@) == self.names(),
    {
        let mut out: Vec<String> = Vec::new();
        let mut i: usize = 0;
        while i < self.projects.len()
            invariant
                i <= self.projects.len(),
                texts(out@) == self.names().take(i as int),
            decreases self.projects.len() - i,
        {
            let ghost before = texts(out@);
            out.push(self.projects[i].name.clone());
            assert(texts(out@) == before.push(self.names()[i as int]));
            assert(self.names().take(i + 1) == self.names().take(i as int).push(
                self.names()[i as int],
            ));
            i += 1;
        }
        assert(self.names().take(i as int) == self.names());
        out
    }

    /// The configuration that a server for MCP clients starts with: an unreadable configuration
    /// counts as one without projects, so that the server can still answer.
    pub fn or_empty(loaded: Option<Config>) -> (r: Config)
        ensures
            match loaded {
                Some(config) => r == config,
                None => r.entries() == Seq::<(Seq<char>, Seq<char>)>::empty(),
            },
    {
        match loaded {
            Some(config) => config,
            None => Config::default(),
        }
    }
}

impl Default for Config {
    fn default() -> (r: Config)
        ensures
            r.entries() == Seq::<(Seq<char>, Seq<char>)>::empty(),
            r.wf(),
    {
        let r = Config { projects: Vec::new() };
        assert(r.entries() == Seq::<(Seq<char>, Seq<char>)>::empty());
        r
    }
}

} // verus!

//! Backend configuration: which command serves which file extensions.
//!
//! The configuration is loaded once and only read afterwards. The servers
//! keep the order in which they were declared, and that order decides
//! between two servers that claim the same extension: the first one wins.

use vstd::prelude::*;
use crate::text::{lowercase, str_eq};

verus! {

/// The request timeout, in milliseconds, of a backend whose configuration
/// names none.
pub open spec fn default_timeout_ms() -> u64 {
    30000
}

/// The timeout a backend gets when its configuration leaves it out.
pub fn default_timeout() -> (ms: u64)
    ensures
        ms == default_timeout_ms(),
{
    30000
}

/// How one backend is launched and what it serves.
#[derive(Debug, Clone)]
pub struct ServerConfig {
    /// The program to launch.
    pub command: String,
    /// Its arguments.
    pub args: Vec<String>,
    /// The file extensions it claims, each with its dot.
    pub extensions: Vec<String>,
    /// File or directory names that mark a project root for it.
    pub root_patterns: Vec<String>,
    /// How long a request may wait for its response, in milliseconds.
    pub timeout_ms: u64,
}

/// The configured backends, by name, in the order of their declaration.
/// No two of them are to have the same name.
#[derive(Debug, Clone)]
pub struct Config {
    pub servers: Vec<(String, ServerConfig)>,
}

impl ServerConfig {
    /// Whether this backend claims the extension `ext`: whether one of its
    /// extensions equals `ext` when both are put in lower case.
    pub open spec fn claims(self, ext: Seq<char>) -> bool {
        exists|j: int|
            0 <= j < self.extensions@.len() && lowercase(#[trigger] self.extensions@[j]@)
                == lowercase(ext)
    }

    /// Says whether this backend claims the extension `ext`.
    pub fn serves(&self, ext: &str) -> (out: bool)
        ensures
            out == self.claims(ext@),
    {
        let wanted = ext.to_lowercase();
        let mut j: usize = 0;
        while j < self.extensions.len()
            invariant
                0 <= j <= self.extensions.len(),
                wanted@ == lowercase(ext@),
                !exists|k: int|
                    0 <= k < j && lowercase(#[trigger] self.extensions@[k]@) == lowercase(ext@),
            decreases self.extensions.len() - j,
        {
            if self.extensions[j].to_lowercase() == wanted {
                return true;
            }
            j += 1;
        }
        false
    }
}

impl Config {
    /// What every configuration is to hold to: no two servers have the
    /// same name.
    pub open spec fn wf(self) -> bool {
        forall|i: int, j: int|
            0 <= i < j < self.servers.len() ==> (#[trigger] self.servers[i]).0@ != (
            #[trigger] self.servers[j]).0@
    }

    /// Says whether no two servers have the same name.
    pub fn has_distinct_names(&self) -> (out: bool)
        ensures
            out == self.wf(),
    {
        let mut j: usize = 0;
        while j < self.servers.len()
            invariant
                0 <= j <= self.servers.len(),
                forall|a: int, b: int|
                    0 <= a < b < j ==> (#[trigger] self.servers[a]).0@ != (
                    #[trigger] self.servers[b]).0@,
            decreases self.servers.len() - j,
        {
            let mut i: usize = 0;
            while i < j
                invariant
                    0 <= i <= j < self.servers.len(),
                    forall|a: int| 0 <= a < i ==> (#[trigger] self.servers[a]).0@ != self.servers[j as int].0@,
                decreases j - i,
            {
                if str_eq(self.servers[i].0.as_str(), self.servers[j].0.as_str()) {
                    return false;
                }
                i += 1;
            }
            j += 1;
        }
        true
    }

    /// The index of the first server, in the order of declaration, that
    /// claims the extension `ext`.
    pub open spec fn first_claiming(self, ext: Seq<char>) -> Option<int> {
        if exists|i: int| self.claims_at(i, ext) {
            Some(choose|i: int| self.claims_at(i, ext) && self.none_before(i, ext))
        } else {
            None
        }
    }

    /// Whether the server at index `i` claims `ext`.
    pub open spec fn claims_at(self, i: int, ext: Seq<char>) -> bool {
        0 <= i < self.servers.len() && (#[trigger] self.servers[i]).1.claims(ext)
    }

    /// Whether no server before index `i` claims `ext`.
    pub open spec fn none_before(self, i: int, ext: Seq<char>) -> bool {
        forall|k: int| 0 <= k < i ==> !self.claims_at(k, ext)
    }

    /// The first index at which a server claims `ext` is the only one with
    /// no claiming server before it.
    pub proof fn lemma_first_claiming_unique(self, ext: Seq<char>, i: int)
        requires
            self.claims_at(i, ext),
            self.none_before(i, ext),
        ensures
            self.first_claiming(ext) == Some(i),
    {
        let j = choose|j: int| self.claims_at(j, ext) && self.none_before(j, ext);
        assert(self.claims_at(j, ext) && self.none_before(j, ext));
        if j < i {
            assert(!self.claims_at(j, ext));
        }
        if i < j {
            assert(!self.claims_at(i, ext));
        }
    }

    /// Finds the backend for a file extension, given with its dot: the
    /// name and the configuration of the first server, in the order of
    /// declaration, one of whose extensions equals `ext` when both are put
    /// in lower case. `None` where no server claims it.
    pub fn server_for_extension(&self, ext: &str) -> (out: Option<(&str, &ServerConfig)>)
        ensures
            match out {
                Some((name, server)) => exists|i: int|
                    {
                        &&& self.first_claiming(ext@) == Some(i)
                        &&& #[trigger] self.claims_at(i, ext@)
                        &&& self.none_before(i, ext@)
                        &&& name@ == self.servers[i].0@
                        &&& *server == self.servers[i].1
                    },
                None => self.first_claiming(ext@) is None && forall|i: int|
                    !self.claims_at(i, ext@),
            },
    {
        match self.index_for_extension(ext) {
            Some(i) => Some((self.servers[i].0.as_str(), &self.servers[i].1)),
            None => None,
        }
    }

    /// Finds the backend for a file extension as `server_for_extension`
    /// does, and gives its index among the servers.
    pub fn index_for_extension(&self, ext: &str) -> (out: Option<usize>)
        ensures
            match out {
                Some(i) => {
                    &&& self.first_claiming(ext@) == Some(i as int)
                    &&& self.claims_at(i as int, ext@)
                    &&& self.none_before(i as int, ext@)
                },
                None => self.first_claiming(ext@) is None && forall|i: int|
                    !self.claims_at(i, ext@),
            },
    {
        let mut i: usize = 0;
        while i < self.servers.len()
            invariant
                0 <= i <= self.servers.len(),
                self.none_before(i as int, ext@),
            decreases self.servers.len() - i,
        {
            if self.servers[i].1.serves(ext) {
                proof {
                    self.lemma_first_claiming_unique(ext@, i as int);
                }
                return Some(i);
            }
            i += 1;
        }
        assert(!exists|k: int| self.claims_at(k, ext@)) by {
            assert forall|k: int| !self.claims_at(k, ext@) by {
                if 0 <= k < self.servers.len() {
                    assert(self.none_before(i as int, ext@));
                }
            }
        }
        None
    }
}

} // verus!

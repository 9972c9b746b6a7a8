//! The pool of backends: which backend serves a file, and the one client
//! that each backend has.
//!
//! A backend is launched when the first file needs it and is kept from
//! then on. The pool never holds two clients for one backend: whoever asks
//! for a backend that has a client gets that client, and no process is
//! launched.
//!
//! The type `C` is what the owner keeps for a backend: its client, the
//! handle of its process, its streams. The pool makes none itself; it asks
//! the owner to launch a backend when one is needed.

use vstd::prelude::*;
use vstd::string::StringExecFns;
use crate::config::{Config, ServerConfig};
use crate::error::{ClientError, ErrorView};
use crate::paths::{extension, extension_of};
use crate::text::str_eq;

verus! {

/// The extension of `path` with its dot, as configurations write it.
pub open spec fn dotted_extension(path: Seq<char>) -> Option<Seq<char>> {
    match extension(path) {
        Some(ext) => Some(seq!['.'] + ext),
        None => None,
    }
}

/// The index of the server that serves the file `path`: the first, in the
/// order of declaration, that claims its extension.
pub open spec fn server_index_for(config: Config, path: Seq<char>) -> Option<int> {
    match dotted_extension(path) {
        Some(ext) => config.first_claiming(ext),
        None => None,
    }
}

/// Whether `spawn`, called with the name and the configuration of the
/// server that serves `path`, may answer `made`.
pub open spec fn answered_by<C, F: FnOnce(&str, &ServerConfig) -> Option<C>>(
    spawn: F,
    config: Config,
    path: Seq<char>,
    made: Option<C>,
) -> bool {
    match server_index_for(config, path) {
        Some(i) => exists|name: &str| #[trigger]
            name@ == config.servers[i].0@ && spawn.ensures((name, &config.servers[i].1), made),
        None => false,
    }
}

/// The index of `name` among `names`, from index `from` on.
pub open spec fn index_of(names: Seq<Seq<char>>, name: Seq<char>, from: int) -> Option<int>
    decreases names.len() - from,
{
    if from < 0 || from >= names.len() {
        None
    } else if names[from] == name {
        Some(from)
    } else {
        index_of(names, name, from + 1)
    }
}

/// A pool as a mathematical value.
pub struct PoolState<C> {
    pub config: Config,
    /// The names of the backends that have a client, in the order in which
    /// they got it.
    pub names: Seq<Seq<char>>,
    /// The client of each of them.
    pub clients: Seq<C>,
}

impl<C> PoolState<C> {
    /// The backends have names that differ, and every backend that has a
    /// client has exactly one.
    pub open spec fn wf(self) -> bool {
        &&& self.config.wf()
        &&& self.names.len() == self.clients.len()
        &&& forall|i: int, j: int|
            0 <= i < j < self.names.len() ==> #[trigger] self.names[i] != #[trigger] self.names[j]
    }

    /// What asking for the client of the file `path` does. A file that no
    /// backend serves is `NoBackendConfigured`. A backend that has a
    /// client gives it, and nothing is launched. Otherwise the backend is
    /// launched, and `made` is what came of that: the new client, which
    /// the backend then has, or nothing, in which case the pool stays as
    /// it was and the failure is `SpawnFailed`.
    pub open spec fn get_client(self, path: Seq<char>, made: Option<C>) -> (
        Self,
        Result<int, ErrorView>,
    ) {
        match server_index_for(self.config, path) {
            None => (self, Err(ErrorView::NoBackendConfigured(path))),
            Some(server) => {
                let name = self.config.servers[server].0@;
                match index_of(self.names, name, 0) {
                    Some(index) => (self, Ok(index)),
                    None => match made {
                        Some(client) => (
                            PoolState {
                                config: self.config,
                                names: self.names.push(name),
                                clients: self.clients.push(client),
                            },
                            Ok(self.names.len() as int),
                        ),
                        None => (self, Err(ErrorView::SpawnFailed)),
                    },
                }
            },
        }
    }

    /// Whether asking for the client of `path` launches a process.
    pub open spec fn launches(self, path: Seq<char>) -> bool {
        match server_index_for(self.config, path) {
            None => false,
            Some(server) => index_of(self.names, self.config.servers[server].0@, 0) is None,
        }
    }
}

/// The backends and their clients.
pub struct LspManager<C> {
    config: Config,
    entries: Vec<(String, C)>,
}

impl<C> View for LspManager<C> {
    type V = PoolState<C>;

    closed spec fn view(&self) -> PoolState<C> {
        PoolState {
            config: self.config,
            names: Seq::new(self.entries@.len(), |i: int| self.entries@[i].0@),
            clients: Seq::new(self.entries@.len(), |i: int| self.entries@[i].1),
        }
    }
}

proof fn lemma_index_of(names: Seq<Seq<char>>, name: Seq<char>, from: int)
    requires
        0 <= from,
    ensures
        match index_of(names, name, from) {
            Some(i) => from <= i < names.len() && names[i] == name,
            None => forall|i: int| from <= i < names.len() ==> names[i] != name,
        },
    decreases names.len() - from,
{
    if from < names.len() && names[from] != name {
        lemma_index_of(names, name, from + 1);
    }
}

impl<C> LspManager<C> {
    /// A pool for the backends of `config`, none of which has a client
    /// yet. The names of the backends are to differ, which
    /// `Config::has_distinct_names` tells.
    pub fn new(config: Config) -> (pool: Self)
        requires
            config.wf(),
        ensures
            pool@.config == config,
            pool@.names.len() == 0,
            pool@.clients.len() == 0,
            pool@.wf(),
    {
        LspManager { config, entries: Vec::new() }
    }

    /// The configuration that the pool was made with.
    pub fn config(&self) -> (config: &Config)
        ensures
            *config == self@.config,
    {
        &self.config
    }

    /// How many backends have a client.
    pub fn len(&self) -> (n: usize)
        ensures
            n == self@.clients.len(),
            n == self@.names.len(),
    {
        self.entries.len()
    }

    /// The client at `index` in the pool.
    pub fn client(&self, index: usize) -> (out: Option<&C>)
        ensures
            match out {
                Some(client) => index < self@.clients.len() && *client == self@.clients[index as int],
                None => index >= self@.clients.len(),
            },
    {
        if index < self.entries.len() {
            Some(&self.entries[index].1)
        } else {
            None
        }
    }

    /// The name of the backend whose client is at `index` in the pool.
    pub fn name(&self, index: usize) -> (out: Option<&str>)
        ensures
            match out {
                Some(name) => index < self@.names.len() && name@ == self@.names[index as int],
                None => index >= self@.names.len(),
            },
    {
        if index < self.entries.len() {
            Some(self.entries[index].0.as_str())
        } else {
            None
        }
    }

    /// Finds the backend that serves the file `path`: the name and the
    /// configuration of the first server that claims the file's extension,
    /// `None` for a path without extension or one that no server claims.
    pub fn server_for_file(&self, path: &str) -> (out: Option<(&str, &ServerConfig)>)
        ensures
            match out {
                Some((name, server)) => exists|i: int|
                    {
                        &&& server_index_for(self@.config, path@) == Some(i)
                        &&& #[trigger] self@.config.claims_at(i, dotted_extension(path@)->0)
                        &&& name@ == self@.config.servers[i].0@
                        &&& *server == self@.config.servers[i].1
                    },
                None => server_index_for(self@.config, path@) is None,
            },
    {
        match self.server_index(path) {
            Some(i) => Some((self.config.servers[i].0.as_str(), &self.config.servers[i].1)),
            None => None,
        }
    }

    /// The index, among the configured servers, of the backend that serves
    /// the file `path`.
    fn server_index(&self, path: &str) -> (out: Option<usize>)
        ensures
            match out {
                Some(i) => {
                    &&& server_index_for(self@.config, path@) == Some(i as int)
                    &&& self@.config.claims_at(i as int, dotted_extension(path@)->0)
                    &&& i < self@.config.servers.len()
                },
                None => server_index_for(self@.config, path@) is None,
            },
    {
        let ext = match extension_of(path) {
            Some(ext) => ext,
            None => {
                return None;
            },
        };
        let mut dotted = ".".to_owned();
        dotted.append(ext.as_str());
        proof {
            reveal_strlit(".");
            assert(dotted@ =~= seq!['.'] + ext@);
        }
        self.config.index_for_extension(dotted.as_str())
    }

    /// The index of the client of the backend `name`, where it has one.
    fn cached(&self, name: &str) -> (out: Option<usize>)
        ensures
            match out {
                Some(i) => index_of(self@.names, name@, 0) == Some(i as int) && i
                    < self@.names.len(),
                None => index_of(self@.names, name@, 0) is None,
            },
    {
        let mut i: usize = 0;
        while i < self.entries.len()
            invariant
                0 <= i <= self.entries.len(),
                self@.names.len() == self.entries.len(),
                forall|j: int| 0 <= j < self.entries.len() ==> self@.names[j] == self.entries@[j].0@,
                index_of(self@.names, name@, 0) == index_of(self@.names, name@, i as int),
            decreases self.entries.len() - i,
        {
            if str_eq(self.entries[i].0.as_str(), name) {
                return Some(i);
            }
            i += 1;
        }
        None
    }

    /// Gives the client of the backend that serves the file `path`, by its
    /// index in the pool, and launches the backend where it has no client
    /// yet.
    ///
    /// To launch, `spawn` is called once with the backend's name and
    /// configuration; it starts the process and gives the client that the
    /// backend is to have, or `None` where the process did not start. It is
    /// not called for a backend that has a client, nor for a file that no
    /// backend serves, which is `NoBackendConfigured`.
    pub fn get_client<F: FnOnce(&str, &ServerConfig) -> Option<C>>(
        &mut self,
        path: &str,
        spawn: F,
    ) -> (out: Result<usize, ClientError>)
        requires
            forall|name: &str, server: &ServerConfig| spawn.requires((name, server)),
        ensures
            exists|made: Option<C>|
                {
                    &&& old(self)@.launches(path@) ==> answered_by(
                        spawn,
                        old(self)@.config,
                        path@,
                        made,
                    )
                    &&& final(self)@ == (#[trigger] old(self)@.get_client(path@, made)).0
                    &&& match out {
                        Ok(index) => old(self)@.get_client(path@, made).1 == Ok::<int, ErrorView>(
                            index as int,
                        ),
                        Err(e) => old(self)@.get_client(path@, made).1 == Err::<int, ErrorView>(
                            e@,
                        ),
                    }
                },
            old(self)@.wf() ==> final(self)@.wf(),
    {
        let server = match self.server_index(path) {
            Some(i) => i,
            None => {
                assert(old(self)@.get_client(path@, None).1 == Err::<int, ErrorView>(
                    ErrorView::NoBackendConfigured(path@),
                ));
                return Err(ClientError::NoBackendConfigured(path.to_owned()));
            },
        };
        match self.cached(self.config.servers[server].0.as_str()) {
            Some(index) => {
                assert(old(self)@.get_client(path@, None).1 == Ok::<int, ErrorView>(index as int));
                return Ok(index);
            },
            None => {},
        }
        let name = self.config.servers[server].0.as_str();
        let made = spawn(name, &self.config.servers[server].1);
        assert(answered_by(spawn, old(self)@.config, path@, made));
        let client = match made {
            Some(client) => client,
            None => {
                assert(old(self)@.get_client(path@, made).1 == Err::<int, ErrorView>(
                    ErrorView::SpawnFailed,
                ));
                return Err(ClientError::SpawnFailed);
            },
        };
        let index = self.entries.len();
        proof {
            lemma_index_of(old(self)@.names, name@, 0);
        }
        self.entries.push((self.config.servers[server].0.clone(), client));
        proof {
            let expected = old(self)@.get_client(path@, made).0;
            assert(self@.names =~= expected.names);
            assert(self@.clients =~= expected.clients);
            assert(self@ == expected);
        }
        Ok(index)
    }
}

/// A backend never has two clients: once a backend has its client, asking
/// for the client of any file that it serves gives that same client,
/// launches nothing and leaves the pool as it is, whatever a launch would
/// have come to.
pub proof fn lemma_one_client_per_backend<C>(
    pool: PoolState<C>,
    first: Seq<char>,
    made: Option<C>,
    second: Seq<char>,
    other: Option<C>,
)
    requires
        pool.wf(),
        pool.get_client(first, made).1 is Ok,
        server_index_for(pool.config, first) == server_index_for(pool.config, second),
    ensures
        pool.get_client(first, made).0.wf(),
        !pool.get_client(first, made).0.launches(second),
        pool.get_client(first, made).0.get_client(second, other) == (
            pool.get_client(first, made).0,
            pool.get_client(first, made).1,
        ),
{
    let server = server_index_for(pool.config, first)->0;
    let name = pool.config.servers[server].0@;
    let after = pool.get_client(first, made).0;
    lemma_index_of(pool.names, name, 0);
    lemma_index_of(after.names, name, 0);
    match index_of(pool.names, name, 0) {
        Some(index) => {},
        None => {
            assert(after.names[pool.names.len() as int] == name);
        },
    }
    let found = index_of(after.names, name, 0)->0;
    let given = pool.get_client(first, made).1->Ok_0;
    assert(after.names[found] == name && after.names[given] == name);
    if found < given {
    }
    if given < found {
    }
}

/// A file that no backend serves fails with `NoBackendConfigured`, and
/// nothing is launched for it.
pub proof fn lemma_unserved_file_launches_nothing<C>(
    pool: PoolState<C>,
    path: Seq<char>,
    made: Option<C>,
)
    requires
        server_index_for(pool.config, path) is None,
    ensures
        !pool.launches(path),
        pool.get_client(path, made) == (
            pool,
            Err::<int, ErrorView>(ErrorView::NoBackendConfigured(path)),
        ),
{
}

} // verus!

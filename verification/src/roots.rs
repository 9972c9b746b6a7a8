//! Finding the project root of a file: the nearest directory above it that
//! holds one of the marker files.

use vstd::prelude::*;
use crate::paths::{ancestor, join, join_path, lemma_parent_shorter, parent, parent_dir};

verus! {

/// The names that mark a project root, in the order in which they are
/// looked for.
pub open spec fn markers() -> Seq<Seq<char>> {
    seq![
        ".git"@,
        "Cargo.toml"@,
        "package.json"@,
        "pyproject.toml"@,
        "go.mod"@,
        ".luarc.json"@,
        "compile_commands.json"@,
    ]
}

/// Whether `probe`, asked about the path `path`, may answer `answer`.
pub open spec fn answered<F: Fn(&str) -> bool>(probe: F, path: Seq<char>, answer: bool) -> bool {
    exists|p: &str| #[trigger] p@ == path && probe.ensures((p,), answer)
}

/// Whether `probe` says of one of the markers that it exists in `dir`.
pub open spec fn marker_found<F: Fn(&str) -> bool>(probe: F, dir: Seq<char>) -> bool {
    exists|m: int|
        0 <= m < markers().len() && answered(probe, join(dir, #[trigger] markers()[m]), true)
}

/// Whether `probe` says of every marker that it does not exist in `dir`.
pub open spec fn no_marker_found<F: Fn(&str) -> bool>(probe: F, dir: Seq<char>) -> bool {
    forall|m: int|
        0 <= m < markers().len() ==> answered(probe, join(dir, #[trigger] markers()[m]), false)
}

/// Whether `probe` finds no marker in the `k`-th directory above `path`,
/// where there is such a directory.
pub open spec fn clear_at<F: Fn(&str) -> bool>(probe: F, path: Seq<char>, k: nat) -> bool {
    ancestor(path, k) matches Some(dir) ==> no_marker_found(probe, dir)
}

/// Whether `probe` finds no marker in any of the first `k` directories
/// above `path`.
pub open spec fn none_nearer<F: Fn(&str) -> bool>(probe: F, path: Seq<char>, k: nat) -> bool {
    forall|j: nat|
        j < k ==> (#[trigger] ancestor(path, j) matches Some(dir) && no_marker_found(probe, dir))
}

/// Above a path that has no `k`-th ancestor there is no further one.
proof fn lemma_no_further_ancestor(path: Seq<char>, k: nat, further: nat)
    requires
        ancestor(path, k) is None,
        k <= further,
    ensures
        ancestor(path, further) is None,
    decreases further,
{
    if further > k {
        lemma_no_further_ancestor(path, k, (further - 1) as nat);
    }
}

/// The `m`-th marker.
fn marker(m: usize) -> (out: &'static str)
    requires
        m < 7,
    ensures
        out@ == markers()[m as int],
        markers().len() == 7,
{
    if m == 0 {
        ".git"
    } else if m == 1 {
        "Cargo.toml"
    } else if m == 2 {
        "package.json"
    } else if m == 3 {
        "pyproject.toml"
    } else if m == 4 {
        "go.mod"
    } else if m == 5 {
        ".luarc.json"
    } else {
        "compile_commands.json"
    }
}

/// Asks `probe` about each marker in `dir`, in order, until one exists.
fn holds_marker<F: Fn(&str) -> bool>(dir: &str, probe: &F) -> (out: bool)
    requires
        forall|p: &str| probe.requires((p,)),
    ensures
        out ==> marker_found(*probe, dir@),
        !out ==> no_marker_found(*probe, dir@),
{
    let mut m: usize = 0;
    while m < 7
        invariant
            0 <= m <= 7,
            markers().len() == 7,
            forall|p: &str| probe.requires((p,)),
            forall|i: int| 0 <= i < m ==> answered(*probe, join(dir@, #[trigger] markers()[i]), false),
        decreases 7 - m,
    {
        let candidate = join_path(dir, marker(m));
        let asked = candidate.as_str();
        let found = probe(asked);
        assert(answered(*probe, join(dir@, markers()[m as int]), found)) by {
            assert(asked@ == join(dir@, markers()[m as int]));
        }
        if found {
            return true;
        }
        m += 1;
    }
    false
}

/// Finds the project root of the file `path`: the nearest directory above
/// it in which, by `probe`, one of the markers exists.
///
/// The directories are tried from the file's own upwards, and in each the
/// markers in their order; the first that `probe` confirms decides. `None`
/// where `probe` confirms none up to the last directory above `path`.
pub fn find_project_root<F: Fn(&str) -> bool>(path: &str, probe: F) -> (out: Option<String>)
    requires
        forall|p: &str| probe.requires((p,)),
    ensures
        match out {
            Some(root) => exists|k: nat|
                {
                    &&& #[trigger] ancestor(path@, k) == Some(root@)
                    &&& marker_found(probe, root@)
                    &&& none_nearer(probe, path@, k)
                },
            None => forall|k: nat| clear_at(probe, path@, k),
        },
{
    let mut current = match parent_dir(path) {
        Some(dir) => dir,
        None => {
            assert forall|k: nat| #[trigger] ancestor(path@, k) is None by {
                lemma_no_further_ancestor(path@, 0, k);
            }
            return None;
        },
    };
    let ghost mut k: nat = 0;
    loop
        invariant
            forall|p: &str| probe.requires((p,)),
            ancestor(path@, k) == Some(current@),
            none_nearer(probe, path@, k),
        decreases current@.len(),
    {
        if holds_marker(current.as_str(), &probe) {
            return Some(current);
        }
        proof {
            lemma_parent_shorter(current@);
            assert(ancestor(path@, k + 1) == parent(current@));
        }
        match parent_dir(current.as_str()) {
            Some(dir) => {
                proof {
                    k = k + 1;
                }
                current = dir;
            },
            None => {
                assert forall|j: nat| clear_at(probe, path@, j) by {
                    if j > k {
                        lemma_no_further_ancestor(path@, k + 1, j);
                    }
                }
                return None;
            },
        }
    }
}

/// Whether one of the markers is among the paths that `present` holds of,
/// in the directory `dir`.
pub open spec fn has_marker(present: spec_fn(Seq<char>) -> bool, dir: Seq<char>) -> bool {
    exists|m: int| 0 <= m < markers().len() && present(join(dir, #[trigger] markers()[m]))
}

/// The nearest marked directory wins: where `probe` answers by what is
/// there, the paths of which `present` holds, the root that was found
/// holds a marker and no directory between the file and the root holds
/// one, whatever lies farther up.
pub proof fn lemma_nearest_marked_directory_wins<F: Fn(&str) -> bool>(
    probe: F,
    present: spec_fn(Seq<char>) -> bool,
    path: Seq<char>,
    k: nat,
    root: Seq<char>,
)
    requires
        forall|p: &str, answer: bool| probe.ensures((p,), answer) ==> answer == present(p@),
        ancestor(path, k) == Some(root),
        marker_found(probe, root),
        none_nearer(probe, path, k),
    ensures
        has_marker(present, root),
        forall|j: nat| j < k ==> !has_marker(present, #[trigger] ancestor(path, j)->0),
{
    let found = choose|m: int|
        0 <= m < markers().len() && answered(probe, join(root, #[trigger] markers()[m]), true);
    assert(present(join(root, markers()[found])));
    assert forall|j: nat| j < k implies !has_marker(present, #[trigger] ancestor(path, j)->0) by {
        let dir = ancestor(path, j)->0;
        assert(no_marker_found(probe, dir));
        assert forall|m: int| 0 <= m < markers().len() implies !present(
            join(dir, #[trigger] markers()[m]),
        ) by {
            assert(answered(probe, join(dir, markers()[m]), false));
        }
    }
}

/// Whether `root` is the root that a backend is told for the file `path`,
/// going by what `probe` answers: the nearest directory above the file in
/// which a marker exists, or, where `probe` confirms no marker in any
/// directory above it, the directory that holds the file, or `/` for a
/// path that no directory holds.
pub open spec fn is_root_for<F: Fn(&str) -> bool>(probe: F, path: Seq<char>, root: Seq<char>) -> bool {
    ||| exists|k: nat|
        {
            &&& #[trigger] ancestor(path, k) == Some(root)
            &&& marker_found(probe, root)
            &&& none_nearer(probe, path, k)
        }
    ||| {
        &&& forall|k: nat| clear_at(probe, path, k)
        &&& root == match parent(path) {
            Some(dir) => dir,
            None => "/"@,
        }
    }
}

/// Gives the root that a backend is told for the file `path`: the project
/// root that `find_project_root` finds, else the directory that holds the
/// file, else `/`.
pub fn root_for<F: Fn(&str) -> bool>(path: &str, probe: F) -> (out: String)
    requires
        forall|p: &str| probe.requires((p,)),
    ensures
        is_root_for(probe, path@, out@),
{
    match find_project_root(path, probe) {
        Some(root) => root,
        None => match parent_dir(path) {
            Some(dir) => dir,
            None => "/".to_owned(),
        },
    }
}

} // verus!

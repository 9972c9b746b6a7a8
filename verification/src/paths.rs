//! Paths as text: parent directory, joining, extension, and the search
//! for a project root.
//!
//! A path is taken as it is written: its components are what stands
//! between slashes, several slashes in a row count as one, and slashes at
//! the end are ignored. The components `.` and `..` are components like
//! any other, which is where these functions part from `std::path`: there
//! a `.` inside or at the end of a path is passed over, so that the parent
//! of `a/.` is the empty path, while here it is `a`. Nothing is looked up
//! on disk here; the search for a project root asks its caller whether a
//! path exists.

use vstd::prelude::*;
use vstd::string::StrSliceExecFns;

verus! {

/// The length of `p` without the slashes at its end.
pub open spec fn trimmed_len(p: Seq<char>) -> int
    decreases p.len(),
{
    if p.len() > 0 && p.last() == '/' {
        trimmed_len(p.drop_last())
    } else {
        p.len() as int
    }
}

/// The index of the last `c` before index `end` in `p`, or -1 where there
/// is none.
pub open spec fn last_index_of(p: Seq<char>, c: char, end: int) -> int
    decreases end,
{
    if end <= 0 || end > p.len() {
        -1
    } else if p[end - 1] == c {
        end - 1
    } else {
        last_index_of(p, c, end - 1)
    }
}

/// The directory that holds `p`: `p` without its last component. The
/// parent of a path directly under the root is `/`, that of a single
/// relative component is the empty path, and the root and the empty path
/// have none.
pub open spec fn parent(p: Seq<char>) -> Option<Seq<char>> {
    let end = trimmed_len(p);
    let slash = last_index_of(p, '/', end);
    if end == 0 {
        None
    } else if slash < 0 {
        Some(Seq::empty())
    } else {
        let dir_end = trimmed_len(p.subrange(0, slash + 1));
        if dir_end == 0 {
            Some(seq!['/'])
        } else {
            Some(p.subrange(0, dir_end))
        }
    }
}

/// The path of `name` inside the directory `dir`.
pub open spec fn join(dir: Seq<char>, name: Seq<char>) -> Seq<char> {
    if dir.len() == 0 || dir.last() == '/' {
        dir + name
    } else {
        dir + seq!['/'] + name
    }
}

/// The last component of `p`.
pub open spec fn file_name(p: Seq<char>) -> Seq<char> {
    let end = trimmed_len(p);
    p.subrange(last_index_of(p, '/', end) + 1, end)
}

/// The extension of `p`, without its dot: what follows the last dot of the
/// last component, where that dot is not the component's first character.
/// The component `..` has none.
pub open spec fn extension(p: Seq<char>) -> Option<Seq<char>> {
    let name = file_name(p);
    let dot = last_index_of(name, '.', name.len() as int);
    if dot <= 0 || name == seq!['.', '.'] {
        None
    } else {
        Some(name.subrange(dot + 1, name.len() as int))
    }
}

/// The `k`-th directory above `p`: its parent for `k == 0`, the parent of
/// that for `k == 1`, and so on, as far as there is one.
pub open spec fn ancestor(p: Seq<char>, k: nat) -> Option<Seq<char>>
    decreases k,
{
    if k == 0 {
        parent(p)
    } else {
        match ancestor(p, (k - 1) as nat) {
            Some(dir) => parent(dir),
            None => None,
        }
    }
}

proof fn lemma_trimmed_len(p: Seq<char>)
    ensures
        0 <= trimmed_len(p) <= p.len(),
        trimmed_len(p) > 0 ==> p[trimmed_len(p) - 1] != '/',
    decreases p.len(),
{
    if p.len() > 0 && p.last() == '/' {
        lemma_trimmed_len(p.drop_last());
    }
}

proof fn lemma_last_index_of(p: Seq<char>, c: char, end: int)
    requires
        0 <= end <= p.len(),
    ensures
        -1 <= last_index_of(p, c, end) < end,
        last_index_of(p, c, end) >= 0 ==> p[last_index_of(p, c, end)] == c,
    decreases end,
{
    if end > 0 && p[end - 1] != c {
        lemma_last_index_of(p, c, end - 1);
    }
}

/// A path's parent is shorter than the path.
pub proof fn lemma_parent_shorter(p: Seq<char>)
    ensures
        parent(p) matches Some(dir) ==> dir.len() < p.len(),
{
    let end = trimmed_len(p);
    lemma_trimmed_len(p);
    lemma_last_index_of(p, '/', end);
    let slash = last_index_of(p, '/', end);
    if end > 0 && slash >= 0 {
        lemma_trimmed_len(p.subrange(0, slash + 1));
    }
}

/// The characters of `s`.
pub fn chars_of(s: &str) -> (out: Vec<char>)
    ensures
        out@ == s@,
{
    let mut out: Vec<char> = Vec::new();
    for c in it: s.chars()
        invariant
            out@ == it.seq().take(it.index() as int),
            it.seq() == s@,
    {
        out.push(c);
    }
    out
}

/// The length of `p[..end]` without the slashes at its end.
fn trim_slashes(p: &Vec<char>, end: usize) -> (out: usize)
    requires
        end <= p.len(),
    ensures
        out == trimmed_len(p@.subrange(0, end as int)),
        out <= end,
{
    let mut e: usize = end;
    while e > 0 && p[e - 1] == '/'
        invariant
            e <= end <= p.len(),
            trimmed_len(p@.subrange(0, end as int)) == trimmed_len(p@.subrange(0, e as int)),
        decreases e,
    {
        assert(p@.subrange(0, e as int).drop_last() =~= p@.subrange(0, e - 1));
        e -= 1;
    }
    e
}

/// The index of the last `c` before `end`, or `None` where there is none.
fn rfind(p: &Vec<char>, c: char, end: usize) -> (out: Option<usize>)
    requires
        end <= p.len(),
    ensures
        match out {
            Some(i) => last_index_of(p@, c, end as int) == i && i < end,
            None => last_index_of(p@, c, end as int) == -1,
        },
{
    let mut e: usize = end;
    while e > 0
        invariant
            e <= end <= p.len(),
            last_index_of(p@, c, end as int) == last_index_of(p@, c, e as int),
        decreases e,
    {
        if p[e - 1] == c {
            return Some(e - 1);
        }
        e -= 1;
    }
    None
}

/// Gives the directory that holds `path`, where there is one.
pub fn parent_dir(path: &str) -> (out: Option<String>)
    ensures
        match out {
            Some(dir) => parent(path@) == Some(dir@),
            None => parent(path@) is None,
        },
{
    let chars = chars_of(path);
    assert(chars@.subrange(0, chars@.len() as int) =~= chars@);
    let end = trim_slashes(&chars, chars.len());
    if end == 0 {
        return None;
    }
    match rfind(&chars, '/', end) {
        None => Some(String::new()),
        Some(slash) => {
            let dir_end = trim_slashes(&chars, slash + 1);
            if dir_end == 0 {
                let root = "/".to_owned();
                proof {
                    reveal_strlit("/");
                    assert(root@ =~= seq!['/']);
                }
                Some(root)
            } else {
                Some(path.substring_char(0, dir_end).to_owned())
            }
        },
    }
}

/// Gives the extension of `path`, without its dot, where it has one.
pub fn extension_of(path: &str) -> (out: Option<String>)
    ensures
        match out {
            Some(ext) => extension(path@) == Some(ext@),
            None => extension(path@) is None,
        },
{
    let chars = chars_of(path);
    assert(chars@.subrange(0, chars@.len() as int) =~= chars@);
    let end = trim_slashes(&chars, chars.len());
    let start: usize = match rfind(&chars, '/', end) {
        Some(slash) => slash + 1,
        None => 0,
    };
    let ghost name = file_name(path@);
    assert(name == path@.subrange(start as int, end as int));
    let mut e: usize = end;
    while e > start
        invariant
            start <= e <= end <= chars.len(),
            chars@ == path@,
            name == file_name(path@),
            name == path@.subrange(start as int, end as int),
            last_index_of(name, '.', name.len() as int) == last_index_of(name, '.', e - start),
        decreases e,
    {
        if chars[e - 1] == '.' {
            let dot = e - 1;
            assert(name[dot - start] == '.');
            assert(last_index_of(name, '.', name.len() as int) == dot - start);
            if dot == start {
                return None;
            }
            if end - start == 2 && chars[start] == '.' {
                assert(name =~= seq!['.', '.']);
                return None;
            }
            assert(name != seq!['.', '.']) by {
                if name == seq!['.', '.'] {
                    assert(name.len() == 2);
                    assert(name[0] == '.');
                }
            }
            assert(name.subrange(dot - start + 1, name.len() as int) =~= path@.subrange(
                dot + 1,
                end as int,
            ));
            return Some(path.substring_char(dot + 1, end).to_owned());
        }
        assert(name[e - 1 - start] != '.');
        e -= 1;
    }
    None
}

/// Gives the path of `name` inside the directory `dir`.
pub fn join_path(dir: &str, name: &str) -> (out: String)
    ensures
        out@ == join(dir@, name@),
{
    let chars = chars_of(dir);
    let mut out = dir.to_owned();
    if chars.len() > 0 && chars[chars.len() - 1] != '/' {
        out.append("/");
        proof {
            reveal_strlit("/");
            assert("/"@ =~= seq!['/']);
        }
    }
    out.append(name);
    out
}

} // verus!

//! File URIs: from a path to the URI that a backend is told, and back.

use vstd::prelude::*;
use vstd::string::{StringExecFns, StringSliceAdditionalSpecFns};
use vstd::utf8::encode_utf8;
use crate::error::{ClientError, ErrorView};
use crate::paths::{chars_of, join, join_path};
use crate::text::{has_prefix, push_chars, starts_with};

verus! {

/// Whether `text` is a URI, as `lsp_types::Uri` parses one.
pub uninterp spec fn valid_uri(text: Seq<char>) -> bool;

/// Whether `text` is short enough to be parsed as a URI: no longer, in
/// bytes, than the largest `i32`.
pub open spec fn uri_fits(text: Seq<char>) -> bool {
    encode_utf8(text).len() <= i32::MAX
}

/// Says whether `text` is short enough to be parsed as a URI.
pub fn fits_uri(text: &str) -> (out: bool)
    ensures
        out == uri_fits(text@),
{
    text.as_bytes().len() <= 0x7fff_ffff
}

/// The `FromStr` of `lsp_types::Uri` parses the text as a URI reference
/// and fails where it is none; it does not take text of more bytes than
/// the largest `i32`. Only whether it succeeds is kept: the URI that it
/// builds holds the text as it was given.
#[verifier::external_body]
fn parses_as_uri(text: &str) -> (out: bool)
    requires
        uri_fits(text@),
    ensures
        out == valid_uri(text@),
{
    text.parse::<lsp_types::Uri>().is_ok()
}

/// What stands for the character `c` in a URI: a space, `#` and `?` are
/// written as a percent sign and their code, all others stand as they are.
pub open spec fn escaped(c: char) -> Seq<char> {
    if c == ' ' {
        "%20"@
    } else if c == '#' {
        "%23"@
    } else if c == '?' {
        "%3F"@
    } else {
        seq![c]
    }
}

/// The path `s` with each of its characters as it stands in a URI.
pub open spec fn escape_path(s: Seq<char>) -> Seq<char>
    decreases s.len(),
{
    if s.len() == 0 {
        Seq::empty()
    } else {
        escape_path(s.drop_last()) + escaped(s.last())
    }
}

/// An ASCII small letter as its capital, any other character unchanged.
pub open spec fn ascii_upper(c: char) -> char {
    if 'a' <= c <= 'z' {
        ((c as u8) - 32) as char
    } else {
        c
    }
}

/// The path as an absolute one: itself where it starts at the root, else
/// the path of that name inside `cwd`.
pub open spec fn absolute(path: Seq<char>, cwd: Seq<char>) -> Seq<char> {
    if path.len() > 0 && path[0] == '/' {
        path
    } else {
        join(cwd, path)
    }
}

/// The path with a drive letter in place of a mount point: a path that
/// starts with `/mnt/` becomes the capital of the character after that, a
/// colon, and what follows the character after the drive's. Such a path of
/// fewer than seven characters has no such form. Any other path stands as
/// it is.
pub open spec fn with_drive(abs: Seq<char>) -> Option<Seq<char>> {
    if starts_with(abs, "/mnt/"@) {
        if abs.len() >= 7 {
            Some(seq![ascii_upper(abs[5]), ':'] + abs.subrange(7, abs.len() as int))
        } else {
            None
        }
    } else {
        Some(abs)
    }
}

/// The text of the file URI of the absolute path `abs`, where it has one:
/// the scheme `file`, an empty authority, and the escaped path, with one
/// more slash before a path whose second character is a colon.
pub open spec fn uri_text(abs: Seq<char>) -> Option<Seq<char>> {
    match with_drive(abs) {
        Some(part) => {
            let path = escape_path(part);
            if path.len() > 1 && path[1] == ':' {
                Some("file:///"@ + path)
            } else {
                Some("file://"@ + path)
            }
        },
        None => None,
    }
}

/// What `path_to_uri` gives for `path` seen from the directory `cwd`.
pub open spec fn uri_of(path: Seq<char>, cwd: Seq<char>) -> Result<Seq<char>, ErrorView> {
    let abs = absolute(path, cwd);
    match uri_text(abs) {
        Some(text) => if uri_fits(text) && valid_uri(text) {
            Ok(text)
        } else {
            Err(ErrorView::InvalidUri(text))
        },
        None => Err(ErrorView::InvalidUri(abs)),
    }
}

/// The path that the text of a URI names: what follows `file://` where the
/// text starts with `file:///`, else the text as it is.
pub open spec fn path_of_uri(uri: Seq<char>) -> Seq<char> {
    if starts_with(uri, "file:///"@) {
        uri.subrange(7, uri.len() as int)
    } else {
        uri
    }
}

/// An ASCII small letter as its capital, any other character unchanged.
fn upper(c: char) -> (out: char)
    ensures
        out == ascii_upper(c),
{
    if 'a' <= c && c <= 'z' {
        ((c as u8) - 32) as char
    } else {
        c
    }
}

/// Appends to `out` the characters `chars[from..]`, each as it stands in
/// a URI.
fn push_escaped(out: &mut String, chars: &Vec<char>, from: usize)
    requires
        from <= chars.len(),
    ensures
        final(out)@ == old(out)@ + escape_path(chars@.subrange(from as int, chars@.len() as int)),
{
    let mut i: usize = from;
    assert(chars@.subrange(from as int, from as int) =~= Seq::<char>::empty());
    while i < chars.len()
        invariant
            from <= i <= chars.len(),
            out@ == old(out)@ + escape_path(chars@.subrange(from as int, i as int)),
        decreases chars.len() - i,
    {
        let c = chars[i];
        let ghost done = chars@.subrange(from as int, i as int);
        let ghost next = chars@.subrange(from as int, i + 1);
        assert(next.drop_last() =~= done);
        assert(next.last() == c);
        if c == ' ' {
            out.append("%20");
        } else if c == '#' {
            out.append("%23");
        } else if c == '?' {
            out.append("%3F");
        } else {
            out.push(c);
        }
        assert(out@ =~= old(out)@ + escape_path(next));
        i += 1;
    }
}

/// Gives the file URI of a path, for a backend to be told.
///
/// A relative `path` is taken from the directory `cwd`. The result is the
/// text of the URI where `lsp_types` accepts it as one, and `InvalidUri`
/// otherwise, also for a path under `/mnt/` that is too short to name a
/// drive and for text of more bytes than the largest `i32`.
pub fn path_to_uri(path: &str, cwd: &str) -> (out: Result<String, ClientError>)
    ensures
        match out {
            Ok(uri) => uri_of(path@, cwd@) == Ok::<Seq<char>, ErrorView>(uri@),
            Err(e) => uri_of(path@, cwd@) == Err::<Seq<char>, ErrorView>(e@),
        },
{
    let given = chars_of(path);
    let abs: String = if given.len() > 0 && given[0] == '/' {
        path.to_owned()
    } else {
        join_path(cwd, path)
    };
    let chars = chars_of(abs.as_str());
    let mount = chars_of("/mnt/");
    proof {
        reveal_strlit("/mnt/");
        reveal_strlit("%20");
        reveal_strlit("%23");
        reveal_strlit("%3F");
        reveal_strlit("file:///");
        reveal_strlit("file://");
    }
    let mut part = String::new();
    if has_prefix(&chars, &mount) {
        if chars.len() < 7 {
            return Err(ClientError::InvalidUri(abs));
        }
        part.push(upper(chars[5]));
        part.push(':');
        push_chars(&mut part, &chars, 7, chars.len());
        assert(part@ =~= with_drive(chars@)->0);
    } else {
        push_chars(&mut part, &chars, 0, chars.len());
        assert(part@ =~= chars@);
    }
    let part_chars = chars_of(part.as_str());
    let mut text: String = if second_is_colon(&part_chars) {
        "file:///".to_owned()
    } else {
        "file://".to_owned()
    };
    push_escaped(&mut text, &part_chars, 0);
    assert(part_chars@.subrange(0, part_chars@.len() as int) =~= part_chars@);
    if fits_uri(text.as_str()) && parses_as_uri(text.as_str()) {
        Ok(text)
    } else {
        Err(ClientError::InvalidUri(text))
    }
}

/// Whether the escaped form of `chars` has a colon as its second
/// character.
fn second_is_colon(chars: &Vec<char>) -> (out: bool)
    ensures
        out == (escape_path(chars@).len() > 1 && escape_path(chars@)[1] == ':'),
{
    proof {
        reveal_strlit("%20");
        reveal_strlit("%23");
        reveal_strlit("%3F");
        lemma_escape_start(chars@);
    }
    if chars.len() < 2 {
        return false;
    }
    let first = chars[0];
    proof {
        let whole = escape_path(chars@);
        let a = escaped(chars@[0]).len() as int;
        let b = escaped(chars@[1]).len() as int;
        assert(whole.subrange(0, a)[0] == whole[0]);
        if a == 3 {
            assert(whole.subrange(0, a)[1] == whole[1]);
        } else {
            assert(whole.subrange(a, a + b)[0] == whole[1]);
        }
    }
    first != ' ' && first != '#' && first != '?' && chars[1] == ':'
}

/// How the escaped form of a path starts: with the escaped form of its
/// first character, and after a first character that stands as it is, with
/// the escaped form of the second.
proof fn lemma_escape_start(s: Seq<char>)
    ensures
        s.len() == 0 ==> escape_path(s).len() == 0,
        s.len() > 0 ==> escape_path(s).len() >= escaped(s[0]).len() && escape_path(s).subrange(
            0,
            escaped(s[0]).len() as int,
        ) == escaped(s[0]),
        s.len() == 1 ==> escape_path(s) == escaped(s[0]),
        s.len() > 1 ==> escape_path(s).len() >= escaped(s[0]).len() + escaped(s[1]).len()
            && escape_path(s).subrange(
            escaped(s[0]).len() as int,
            (escaped(s[0]).len() + escaped(s[1]).len()) as int,
        ) == escaped(s[1]),
    decreases s.len(),
{
    reveal_strlit("%20");
    reveal_strlit("%23");
    reveal_strlit("%3F");
    if s.len() == 1 {
        assert(s.drop_last() =~= Seq::<char>::empty());
        assert(escape_path(s.drop_last()) =~= Seq::<char>::empty());
        assert(escape_path(s) =~= escaped(s[0]));
        assert(escape_path(s).subrange(0, escaped(s[0]).len() as int) =~= escaped(s[0]));
    } else if s.len() == 2 {
        let head = s.drop_last();
        lemma_escape_start(head);
        assert(head[0] == s[0]);
        assert(escape_path(s) =~= escaped(s[0]) + escaped(s[1]));
        assert(escape_path(s).subrange(0, escaped(s[0]).len() as int) =~= escaped(s[0]));
        assert(escape_path(s).subrange(
            escaped(s[0]).len() as int,
            (escaped(s[0]).len() + escaped(s[1]).len()) as int,
        ) =~= escaped(s[1]));
    } else if s.len() > 2 {
        let head = s.drop_last();
        lemma_escape_start(head);
        assert(head[0] == s[0] && head[1] == s[1]);
        let a = escaped(s[0]).len() as int;
        let b = escaped(s[1]).len() as int;
        assert(escape_path(s).subrange(0, a) =~= escape_path(head).subrange(0, a));
        assert(escape_path(s).subrange(a, a + b) =~= escape_path(head).subrange(a, a + b));
    }
}

/// Gives the path that a URI names: for a `file:///` URI what follows the
/// authority, for any other text the text itself.
pub fn uri_to_path_string(uri: &str) -> (out: String)
    ensures
        out@ == path_of_uri(uri@),
{
    let chars = chars_of(uri);
    let scheme = chars_of("file:///");
    if has_prefix(&chars, &scheme) {
        proof {
            reveal_strlit("file:///");
        }
        let mut out = String::new();
        push_chars(&mut out, &chars, 7, chars.len());
        out
    } else {
        uri.to_owned()
    }
}

} // verus!

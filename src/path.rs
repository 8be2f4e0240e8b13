use crate::format::{detect_format, format_of, same_chars, Format};
use vstd::prelude::*;

verus! {

/// The index of the last occurrence of `c` in `s`, or -1 where there is none.
pub open spec fn last_index(s: Seq<char>, c: char) -> int
    decreases s.len(),
{
    if s.len() == 0 {
        -1
    } else if s.last() == c {
        s.len() - 1
    } else {
        last_index(s.drop_last(), c)
    }
}

/// The path without trailing separators and trailing `.` components, which
/// name no file of their own.
pub open spec fn trimmed(p: Seq<char>) -> Seq<char>
    decreases p.len(),
{
    if p.len() > 0 && p.last() == '/' {
        trimmed(p.drop_last())
    } else if p.len() >= 2 && p.last() == '.' && p[p.len() - 2] == '/' {
        trimmed(p.drop_last())
    } else {
        p
    }
}

/// What follows the last `/`.
pub open spec fn last_segment(p: Seq<char>) -> Seq<char> {
    p.subrange(last_index(p, '/') + 1, p.len() as int)
}

/// The name of the file that a `/`-separated path ends in: its last component
/// once trailing separators and `.` components are dropped. Empty where that
/// component is `.` or `..` or there is none.
pub open spec fn file_name(p: Seq<char>) -> Seq<char> {
    let s = last_segment(trimmed(p));
    if s == "."@ || s == ".."@ {
        Seq::empty()
    } else {
        s
    }
}

/// What follows the last `.` of the file name, unless the name has no `.` or
/// its only `.` leads it (a hidden file such as `.profile`).
pub open spec fn extension(p: Seq<char>) -> Option<Seq<char>> {
    let name = file_name(p);
    let k = last_index(name, '.');
    if k <= 0 {
        None
    } else {
        Some(name.subrange(k + 1, name.len() as int))
    }
}

/// An ASCII capital turned into its small letter; any other character as it is.
pub open spec fn lower_char(c: char) -> char {
    if 'A' <= c && c <= 'Z' {
        ((c as u32) + 32) as char
    } else {
        c
    }
}

/// The string with its ASCII capitals turned into small letters.
pub open spec fn ascii_lower(s: Seq<char>) -> Seq<char> {
    s.map_values(|c: char| lower_char(c))
}

/// The lowercase extension of a path, where it names a known format.
pub open spec fn supported_extension(p: Seq<char>) -> Option<Seq<char>> {
    match extension(p) {
        Some(e) => if format_of(ascii_lower(e)).is_some() {
            Some(ascii_lower(e))
        } else {
            None
        },
        None => None,
    }
}

/// The format that a path's extension names, compared without regard to ASCII case.
pub open spec fn path_format(p: Seq<char>) -> Option<Format> {
    match supported_extension(p) {
        Some(e) => format_of(e),
        None => None,
    }
}

/// A path joined with a file name, as a relative name is appended to a directory.
pub open spec fn join(dir: Seq<char>, name: Seq<char>) -> Seq<char> {
    if dir.len() == 0 {
        name
    } else if dir.last() == '/' {
        dir + name
    } else {
        dir + seq!['/'] + name
    }
}

/// With no `c` from index `i` on, the last `c` of `s` is the last `c` of its first `i` characters.
proof fn lemma_last_index_prefix(s: Seq<char>, c: char, i: int)
    requires
        0 <= i <= s.len(),
        forall|j: int| i <= j < s.len() ==> s[j] != c,
    ensures
        last_index(s, c) == last_index(s.subrange(0, i), c),
    decreases s.len(),
{
    if s.len() == i {
        assert(s.subrange(0, i) =~= s);
    } else {
        lemma_last_index_prefix(s.drop_last(), c, i);
        assert(s.drop_last().subrange(0, i) =~= s.subrange(0, i));
    }
}

/// Where `c` last occurs in `s`.
fn last_position(s: &str, c: char) -> (r: Option<usize>)
    ensures
        match r {
            Some(k) => k == last_index(s@, c) && k < s@.len(),
            None => last_index(s@, c) == -1,
        },
{
    let n = s.unicode_len();
    let mut i: usize = n;
    while i > 0
        invariant
            n == s@.len(),
            i <= n,
            forall|j: int| i <= j < n ==> s@[j] != c,
        decreases i,
    {
        if s.get_char(i - 1) == c {
            proof {
                lemma_last_index_prefix(s@, c, i as int);
                assert(s@.subrange(0, i as int).last() == c);
            }
            return Some(i - 1);
        }
        i = i - 1;
    }
    proof {
        lemma_last_index_prefix(s@, c, 0);
    }
    None
}

/// Relies on str::to_ascii_lowercase: ASCII capitals become small letters and
/// every other character stays as it is.
#[verifier::external_body]
fn lowercase(s: &str) -> (r: String)
    ensures
        r@ == ascii_lower(s@),
{
    s.to_ascii_lowercase()
}

/// The length of the path once trailing separators and trailing `.`
/// components are dropped.
fn trimmed_len(p: &str) -> (r: usize)
    ensures
        r <= p@.len(),
        p@.subrange(0, r as int) == trimmed(p@),
{
    let n = p.unicode_len();
    let mut e: usize = n;
    assert(p@.subrange(0, n as int) =~= p@);
    while e > 0
        invariant
            n == p@.len(),
            e <= n,
            trimmed(p@.subrange(0, e as int)) == trimmed(p@),
        decreases e,
    {
        let ghost s = p@.subrange(0, e as int);
        assert(s.drop_last() =~= p@.subrange(0, e - 1));
        if p.get_char(e - 1) == '/' {
            e = e - 1;
        } else if e >= 2 && p.get_char(e - 1) == '.' && p.get_char(e - 2) == '/' {
            e = e - 1;
        } else {
            return e;
        }
    }
    e
}

/// The name of the file that a path ends in, as [`file_name`] says; empty
/// where there is none.
pub fn get_file_name(p: &str) -> (r: &str)
    ensures
        r@ == file_name(p@),
{
    let t = p.substring_char(0, trimmed_len(p));
    let n = t.unicode_len();
    let name = match last_position(t, '/') {
        Some(k) => t.substring_char(k + 1, n),
        None => t.substring_char(0, n),
    };
    if same_chars(name, ".") || same_chars(name, "..") {
        proof {
            reveal_strlit("");
        }
        assert(""@ =~= Seq::<char>::empty());
        ""
    } else {
        name
    }
}

/// The lowercase extension of a path, where it names a known format.
pub fn get_extension(p: &str) -> (r: Option<String>)
    ensures
        match r {
            Some(e) => supported_extension(p@) == Some(e@),
            None => supported_extension(p@).is_none(),
        },
{
    let name = get_file_name(p);
    let n = name.unicode_len();
    match last_position(name, '.') {
        Some(k) => {
            if k == 0 {
                return None;
            }
            let e = lowercase(name.substring_char(k + 1, n));
            if detect_format(e.as_str()).is_some() {
                Some(e)
            } else {
                None
            }
        },
        None => None,
    }
}

/// The format that a path's extension names, compared without regard to ASCII case.
pub fn format_of_path(p: &str) -> (r: Option<Format>)
    ensures
        r == path_format(p@),
{
    match get_extension(p) {
        Some(e) => detect_format(e.as_str()),
        None => None,
    }
}

/// Appends a file name to a directory path.
pub fn join_path(dir: &str, name: &str) -> (r: String)
    ensures
        r@ == join(dir@, name@),
{
    let n = dir.unicode_len();
    if n == 0 {
        String::from_str(name)
    } else if dir.get_char(n - 1) == '/' {
        String::from_str(dir).concat(name)
    } else {
        proof {
            reveal_strlit("/");
        }
        let r = String::from_str(dir).concat("/").concat(name);
        assert(r@ =~= join(dir@, name@));
        r
    }
}

} // verus!

//! Text utilities: string comparison, the front-matter delimiter search,
//! file-name stems, and output-path resolution.
use vstd::prelude::*;
use vstd::string::StrSliceExecFns;
use vstd::string::StringExecFns;

verus! {

/// Character-for-character equality of two strings.
pub fn str_eq(a: &str, b: &str) -> (r: bool)
    ensures
        r == (a@ == b@),
{
    let n = a.unicode_len();
    if n != b.unicode_len() {
        return false;
    }
    let mut i: usize = 0;
    while i < n
        invariant
            n == a@.len(),
            n == b@.len(),
            i <= n,
            forall|k: int| 0 <= k < i ==> a@[k] == b@[k],
        decreases n - i,
    {
        if a.get_char(i) != b.get_char(i) {
            return false;
        }
        i = i + 1;
    }
    proof {
        assert(a@ =~= b@);
    }
    true
}

/// Whether the six-hyphen front-matter delimiter stands at position `i`.
pub open spec fn is_delim_at(s: Seq<char>, i: int) -> bool {
    &&& 0 <= i
    &&& i + 6 <= s.len()
    &&& s[i] == '-'
    &&& s[i + 1] == '-'
    &&& s[i + 2] == '-'
    &&& s[i + 3] == '-'
    &&& s[i + 4] == '-'
    &&& s[i + 5] == '-'
}

/// The position of the first delimiter at or after `i`, if any.
pub open spec fn delim_from(s: Seq<char>, i: int) -> Option<int>
    decreases s.len() - i,
{
    if i < 0 || i + 6 > s.len() {
        None
    } else if is_delim_at(s, i) {
        Some(i)
    } else {
        delim_from(s, i + 1)
    }
}

/// The position of the first delimiter in `s`, if any.
pub open spec fn delim_index(s: Seq<char>) -> Option<int> {
    delim_from(s, 0)
}

/// Finds the first front-matter delimiter.
pub fn find_delim(s: &str) -> (r: Option<usize>)
    ensures
        match r {
            Some(i) => delim_index(s@) == Some(i as int),
            None => delim_index(s@) is None,
        },
{
    let n = s.unicode_len();
    if n < 6 {
        return None;
    }
    let mut i: usize = 0;
    while i <= n - 6
        invariant
            n == s@.len(),
            6 <= n,
            i <= n - 5,
            delim_from(s@, 0) == delim_from(s@, i as int),
        decreases n - i,
    {
        if s.get_char(i) == '-' && s.get_char(i + 1) == '-' && s.get_char(i + 2) == '-'
            && s.get_char(i + 3) == '-' && s.get_char(i + 4) == '-' && s.get_char(i + 5) == '-' {
            return Some(i);
        }
        i = i + 1;
    }
    None
}

/// The text before the first delimiter: the front-matter block.
pub open spec fn front_of(s: Seq<char>) -> Seq<char> {
    s.subrange(0, delim_index(s).unwrap())
}

/// The text between the first delimiter and the next one, or the end:
/// the body.
pub open spec fn body_of(s: Seq<char>) -> Seq<char> {
    let rest = s.subrange(delim_index(s).unwrap() + 6, s.len() as int);
    match delim_index(rest) {
        Some(j) => rest.subrange(0, j),
        None => rest,
    }
}

/// A found delimiter position really carries a delimiter.
pub proof fn lemma_delim_from_props(s: Seq<char>, j: int, i: int)
    requires
        delim_from(s, j) == Some(i),
    ensures
        is_delim_at(s, i),
        j <= i,
    decreases s.len() - j,
{
    if !(j < 0 || j + 6 > s.len()) && !is_delim_at(s, j) {
        lemma_delim_from_props(s, j + 1, i);
    }
}

/// Splits a page into its front-matter block and its body, or yields
/// nothing when the delimiter is missing.
pub fn split_front_matter(s: &str) -> (r: Option<(String, String)>)
    ensures
        match r {
            Some(parts) => {
                &&& delim_index(s@) is Some
                &&& parts.0@ == front_of(s@)
                &&& parts.1@ == body_of(s@)
            },
            None => delim_index(s@) is None,
        },
{
    let n = s.unicode_len();
    match find_delim(s) {
        None => None,
        Some(i) => {
            proof {
                lemma_delim_from_props(s@, 0, i as int);
            }
            let front = s.substring_char(0, i).to_owned();
            let rest = s.substring_char(i + 6, n);
            let body = match find_delim(rest) {
                Some(j) => {
                    proof {
                        lemma_delim_from_props(rest@, 0, j as int);
                    }
                    rest.substring_char(0, j).to_owned()
                },
                None => rest.to_owned(),
            };
            Some((front, body))
        },
    }
}

/// The position of the first `.` at or after `i`, if any.
pub open spec fn dot_from(s: Seq<char>, i: int) -> Option<int>
    decreases s.len() - i,
{
    if i < 0 || i >= s.len() {
        None
    } else if s[i] == '.' {
        Some(i)
    } else {
        dot_from(s, i + 1)
    }
}

/// A file name's stem: the part before the first `.`, or the whole name
/// when it has no `.`.
pub open spec fn stem_of(s: Seq<char>) -> Seq<char> {
    match dot_from(s, 0) {
        Some(i) => s.subrange(0, i),
        None => s,
    }
}

/// The stem of a file name.
pub fn stem(name: &str) -> (r: String)
    ensures
        r@ == stem_of(name@),
{
    let n = name.unicode_len();
    let mut i: usize = 0;
    while i < n
        invariant
            n == name@.len(),
            i <= n,
            dot_from(name@, 0) == dot_from(name@, i as int),
        decreases n - i,
    {
        if name.get_char(i) == '.' {
            return name.substring_char(0, i).to_owned();
        }
        i = i + 1;
    }
    name.to_owned()
}

/// Joins a directory and a name with a path separator.
pub open spec fn joined(dir: Seq<char>, name: Seq<char>) -> Seq<char> {
    dir + "/"@ + name
}

/// Joins a directory and a file name.
pub fn join_path(dir: &str, name: &str) -> (r: String)
    ensures
        r@ == joined(dir@, name@),
{
    let mut out = dir.to_owned();
    out.append("/");
    out.append(name);
    out
}

/// Where a page whose name has the given stem is written under `dest`:
/// `dest/index.html` for the stem `index`, and the pretty-URL form
/// `dest/<stem>/index.html` for every other stem.
pub open spec fn out_path_of(dest: Seq<char>, stem: Seq<char>) -> Seq<char> {
    if stem == "index"@ {
        dest + "/"@ + "index.html"@
    } else {
        dest + "/"@ + stem + "/"@ + "index.html"@
    }
}

/// Resolves the output path for a page stem under `dest`.
pub fn out_path(dest: &str, stem: &str) -> (r: String)
    ensures
        r@ == out_path_of(dest@, stem@),
{
    let mut out = dest.to_owned();
    out.append("/");
    if !str_eq(stem, "index") {
        out.append(stem);
        out.append("/");
    }
    out.append("index.html");
    out
}

} // verus!

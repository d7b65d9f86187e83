//! File-path helpers over plain strings: the base name of a `/`-separated
//! path, its stem and its extension. The stem names a VM when the
//! configuration file sets no name; the extension selects the supported
//! configuration format.

use vstd::prelude::*;
use vstd::string::{StrSliceExecFns, StringExecFns};

use crate::ERRORCODES;

verus! {

/// The index of the last occurrence of `c` in `s`, or `-1` if `c` does not
/// occur.
pub open spec fn spec_rlast(s: Seq<char>, c: char) -> int
    decreases s.len(),
{
    if s.len() == 0 {
        -1
    } else if s.last() == c {
        s.len() - 1
    } else {
        spec_rlast(s.drop_last(), c)
    }
}

proof fn lemma_rlast_at(s: Seq<char>, c: char, i: int)
    requires
        0 <= i < s.len(),
        s[i] == c,
        forall|j: int| i < j < s.len() ==> s[j] != c,
    ensures
        spec_rlast(s, c) == i,
    decreases s.len(),
{
    if i < s.len() - 1 {
        lemma_rlast_at(s.drop_last(), c, i);
    }
}

proof fn lemma_rlast_none(s: Seq<char>, c: char)
    requires
        forall|j: int| 0 <= j < s.len() ==> s[j] != c,
    ensures
        spec_rlast(s, c) == -1,
    decreases s.len(),
{
    if s.len() > 0 {
        lemma_rlast_none(s.drop_last(), c);
    }
}

/// The index of the last occurrence of `c` in `s`, if any.
fn rlast_index(s: &str, c: char) -> (r: Option<usize>)
    ensures
        match r {
            Some(i) => i == spec_rlast(s@, c) && i < s@.len(),
            None => spec_rlast(s@, c) == -1,
        },
{
    let len = s.unicode_len();
    let mut i: usize = len;
    while i > 0
        invariant
            len == s@.len(),
            i <= len,
            forall|j: int| i <= j < len ==> s@[j] != c,
        decreases i,
    {
        i = i - 1;
        if s.get_char(i) == c {
            proof {
                lemma_rlast_at(s@, c, i as int);
            }
            return Some(i);
        }
    }
    proof {
        lemma_rlast_none(s@, c);
    }
    None
}

/// The part of a `/`-separated path after its last separator; the whole path
/// when it holds no separator.
pub open spec fn spec_file_name(path: Seq<char>) -> Seq<char> {
    path.subrange(spec_rlast(path, '/') + 1, path.len() as int)
}

/// The stem of the path's base name: the base name up to its last dot, the
/// whole base name if it holds no dot past its first character, and nothing
/// for an empty base name or for the `"."` and `".."` components.
pub open spec fn spec_file_stem(path: Seq<char>) -> Option<Seq<char>> {
    let n = spec_file_name(path);
    if n.len() == 0 || n == "."@ || n == ".."@ {
        None
    } else {
        let d = spec_rlast(n, '.');
        if d <= 0 {
            Some(n)
        } else {
            Some(n.subrange(0, d))
        }
    }
}

/// The extension of the path's base name: the part after its last dot, when
/// that dot is past the first character of a nonempty base name other than
/// `"."` and `".."`.
pub open spec fn spec_extension(path: Seq<char>) -> Option<Seq<char>> {
    let n = spec_file_name(path);
    if n.len() == 0 || n == "."@ || n == ".."@ {
        None
    } else {
        let d = spec_rlast(n, '.');
        if d <= 0 {
            None
        } else {
            Some(n.subrange(d + 1, n.len() as int))
        }
    }
}

/// The base name of a path, specified by `spec_file_name`.
fn file_name_of<'a>(path: &'a str) -> (r: &'a str)
    ensures
        r@ == spec_file_name(path@),
{
    let len = path.unicode_len();
    match rlast_index(path, '/') {
        Some(i) => path.substring_char(i + 1, len),
        None => {
            proof {
                assert(path@.subrange(0, path@.len() as int) =~= path@);
            }
            path
        },
    }
}

/// The extension of a path's base name, specified by `spec_extension`.
pub fn get_extension_from_file<'a>(filename: &'a str) -> (r: Option<&'a str>)
    ensures
        match r {
            Some(e) => spec_extension(filename@) == Some(e@),
            None => spec_extension(filename@) is None,
        },
{
    let name = file_name_of(filename);
    let len = name.unicode_len();
    if len == 0 || crate::strutil::str_eq(name, ".") || crate::strutil::str_eq(name, "..") {
        return None;
    }
    match rlast_index(name, '.') {
        Some(d) => {
            if d == 0 {
                None
            } else {
                Some(name.substring_char(d + 1, len))
            }
        },
        None => None,
    }
}

/// The stem of a path's base name, specified by `spec_file_stem`.
pub fn file_stem_of<'a>(path: &'a str) -> (r: Option<&'a str>)
    ensures
        match r {
            Some(s) => spec_file_stem(path@) == Some(s@),
            None => spec_file_stem(path@) is None,
        },
{
    let name = file_name_of(path);
    let len = name.unicode_len();
    if len == 0 || crate::strutil::str_eq(name, ".") || crate::strutil::str_eq(name, "..") {
        return None;
    }
    match rlast_index(name, '.') {
        Some(d) => {
            if d == 0 {
                proof {
                    assert(name@.subrange(0, name@.len() as int) =~= name@);
                }
                Some(name.substring_char(0, len))
            } else {
                Some(name.substring_char(0, d))
            }
        },
        None => {
            proof {
                assert(name@.subrange(0, name@.len() as int) =~= name@);
            }
            Some(name.substring_char(0, len))
        },
    }
}

/// The display name a VM falls back to: the stem of its configuration file's
/// path, or `"vm"` when the path yields none.
pub open spec fn spec_vmname_fallback(path: Seq<char>) -> Seq<char> {
    match spec_file_stem(path) {
        Some(s) => s,
        None => "vm"@,
    }
}

/// The fallback VM display name for a configuration file path.
pub fn vmname_fallback(path: &str) -> (r: String)
    ensures
        r@ == spec_vmname_fallback(path@),
{
    match file_stem_of(path) {
        Some(s) => String::from_str(s),
        None => String::from_str("vm"),
    }
}

/// Which configuration file formats are accepted, judged by the path's
/// extension: `"toml"` is the one supported format, `"yaml"` is recognized
/// but unsupported, and anything else is unclassified.
pub open spec fn spec_check_extension(path: Seq<char>) -> Result<(), ERRORCODES> {
    match spec_extension(path) {
        Some(e) => {
            if e == "toml"@ {
                Ok(())
            } else if e == "yaml"@ {
                Err(ERRORCODES::YAML)
            } else {
                Err(ERRORCODES::MISC)
            }
        },
        None => Err(ERRORCODES::MISC),
    }
}

/// Accept only the supported configuration file format, by extension.
pub fn check_config_extension(path: &str) -> (r: Result<(), ERRORCODES>)
    ensures
        r == spec_check_extension(path@),
{
    match get_extension_from_file(path) {
        Some(e) => {
            if crate::strutil::str_eq(e, "toml") {
                Ok(())
            } else if crate::strutil::str_eq(e, "yaml") {
                Err(ERRORCODES::YAML)
            } else {
                Err(ERRORCODES::MISC)
            }
        },
        None => Err(ERRORCODES::MISC),
    }
}

} // verus!

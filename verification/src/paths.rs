//! The library's naming scheme for cache files, over plain strings: the
//! file-name part of a path, replacing a name's extension, and joining a
//! directory with a name.
//!
//! A path's file name is everything after the last `'/'`. Replacing a
//! name's extension drops everything from the last `'.'` on — unless that
//! dot leads the name, which marks a hidden file without an extension —
//! and appends `'.'` and the new extension.

use vstd::prelude::*;
use vstd::string::StrSliceExecFns;
use vstd::string::StringExecFns;

verus! {

/// The file-name part of `p`: everything after the last `'/'`.
pub open spec fn file_name_spec(p: Seq<char>) -> Seq<char> {
    match p.index_of_last('/') {
        Some(i) => p.subrange(i + 1, p.len() as int),
        None => p,
    }
}

/// `name` without its extension: everything up to the last `'.'`, except
/// that a leading dot does not begin an extension.
pub open spec fn stem_spec(name: Seq<char>) -> Seq<char> {
    match name.index_of_last('.') {
        Some(i) => if i > 0 {
            name.subrange(0, i)
        } else {
            name
        },
        None => name,
    }
}

/// `name` with its extension replaced by `ext`.
pub open spec fn replace_extension_spec(name: Seq<char>, ext: Seq<char>) -> Seq<char> {
    stem_spec(name) + seq!['.'] + ext
}

/// `dir` and `name` joined with a single `'/'`.
pub open spec fn join_spec(dir: Seq<char>, name: Seq<char>) -> Seq<char> {
    dir + seq!['/'] + name
}

/// The file-name part of `p`.
pub fn file_name(p: &str) -> (r: String)
    ensures
        r@ == file_name_spec(p@),
{
    match crate::strutil::last_index_of(p, '/') {
        Some(i) => {
            proof {
                p@.index_of_last_ensures('/');
            }
            let n: usize = p.unicode_len();
            p.substring_char(i + 1, n).to_owned()
        },
        None => p.to_owned(),
    }
}

/// `name` with its extension replaced by `ext`.
pub fn replace_extension(name: &str, ext: &str) -> (r: String)
    ensures
        r@ == replace_extension_spec(name@, ext@),
{
    let stem: String = match crate::strutil::last_index_of(name, '.') {
        Some(i) => {
            proof {
                name@.index_of_last_ensures('.');
            }
            if i > 0 {
                name.substring_char(0, i).to_owned()
            } else {
                name.to_owned()
            }
        },
        None => name.to_owned(),
    };
    let mut s: String = stem;
    s.append(".");
    s.append(ext);
    proof {
        reveal_strlit(".");
        assert("."@ =~= seq!['.']);
    }
    s
}

/// `dir` and `name` joined with a single `'/'`.
pub fn join(dir: &str, name: &str) -> (r: String)
    ensures
        r@ == join_spec(dir@, name@),
{
    let r: String = crate::strutil::concat3(dir, "/", name);
    proof {
        reveal_strlit("/");
        assert("/"@ =~= seq!['/']);
    }
    r
}

} // verus!

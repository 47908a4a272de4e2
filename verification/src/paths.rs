//! Paths, kept as text with `/` between their parts.

use crate::text::chars_of;
use vstd::prelude::*;
use vstd::string::StringExecFns;

verus! {

/// The path of `name` inside `dir`: `dir`, a separator unless `dir` is empty
/// or ends with one, then `name`.
pub open spec fn joined(dir: Seq<char>, name: Seq<char>) -> Seq<char> {
    if dir.len() == 0 || dir.last() == '/' {
        dir + name
    } else {
        dir + seq!['/'] + name
    }
}

/// Builds the path of `name` inside `dir`.
pub fn join_path(dir: &str, name: &str) -> (path: String)
    ensures
        path@ == joined(dir@, name@),
{
    let d = chars_of(dir);
    let mut path = String::from_str(dir);
    if d.len() > 0 && d[d.len() - 1] != '/' {
        proof {
            reveal_strlit("/");
            assert("/"@ =~= seq!['/']);
        }
        path.append("/");
    }
    path.append(name);
    path
}

/// The index of the last separator among the first `upto` characters of
/// `path`, or -1 where there is none.
pub open spec fn last_separator(path: Seq<char>, upto: int) -> int
    decreases upto,
{
    if upto <= 0 || upto > path.len() {
        -1
    } else if path[upto - 1] == '/' {
        upto - 1
    } else {
        last_separator(path, upto - 1)
    }
}

/// The directory that holds `path`: what stands before the last separator,
/// and the root for what lies directly in it. The root has no parent, nor
/// has a path without a separator.
pub open spec fn parent_of(path: Seq<char>) -> Option<Seq<char>> {
    let at = last_separator(path, path.len() as int);
    if at < 0 || path.len() <= 1 {
        None
    } else if at == 0 {
        Some(seq!['/'])
    } else {
        Some(path.take(at))
    }
}

/// `path`, the directory that holds it, the directory that holds that one,
/// and so on as long as there is one: the way up from `path`.
pub open spec fn ancestors(path: Seq<char>) -> Seq<Seq<char>>
    decreases path.len(),
    via ancestors_decreases
{
    match parent_of(path) {
        Some(parent) => seq![path] + ancestors(parent),
        None => seq![path],
    }
}

#[via_fn]
proof fn ancestors_decreases(path: Seq<char>) {
    parent_is_shorter(path);
}

/// The last separator, where there is one, is a separator inside the path,
/// and no separator follows it.
pub proof fn last_separator_is_last(path: Seq<char>, upto: int)
    requires
        0 <= upto <= path.len(),
    ensures
        -1 <= last_separator(path, upto) < upto,
        last_separator(path, upto) >= 0 ==> path[last_separator(path, upto)] == '/',
        forall|k: int| last_separator(path, upto) < k < upto ==> path[k] != '/',
    decreases upto,
{
    if upto > 0 && path[upto - 1] != '/' {
        last_separator_is_last(path, upto - 1);
    }
}

/// A parent is shorter than what it holds.
pub proof fn parent_is_shorter(path: Seq<char>)
    ensures
        parent_of(path) matches Some(parent) ==> parent.len() < path.len(),
{
    last_separator_is_last(path, path.len() as int);
}

/// The way up from a path that starts at the root begins with the path
/// itself and ends at the root.
pub proof fn ascent_reaches_root(path: Seq<char>)
    requires
        path.len() > 0,
        path[0] == '/',
    ensures
        ancestors(path).len() > 0,
        ancestors(path).first() == path,
        ancestors(path).last() == seq!['/'],
    decreases path.len(),
{
    last_separator_is_last(path, path.len() as int);
    match parent_of(path) {
        Some(parent) => {
            parent_is_shorter(path);
            ascent_reaches_root(parent);
            let up = ancestors(parent);
            assert((seq![path] + up).last() == up.last());
        },
        None => {
            assert(path.len() == 1) by {
                if path.len() > 1 {
                    let at = last_separator(path, path.len() as int);
                    if at < 0 {
                        assert(path[0] != '/');
                    }
                }
            }
            assert(path =~= seq!['/']);
        },
    }
}

/// The directory that holds `path`, if any.
pub fn parent_dir(path: &str) -> (parent: Option<String>)
    ensures
        parent.deep_view() == parent_of(path@),
{
    let v = chars_of(path);
    let mut upto: usize = v.len();
    while upto > 0 && v[upto - 1] != '/'
        invariant
            upto <= v.len(),
            v@ == path@,
            last_separator(v@, v@.len() as int) == last_separator(v@, upto as int),
        decreases upto,
    {
        upto -= 1;
    }
    if upto == 0 || v.len() <= 1 {
        None
    } else if upto == 1 {
        proof {
            reveal_strlit("/");
            assert("/"@ =~= seq!['/']);
        }
        Some(String::from_str("/"))
    } else {
        Some(path.substring_char(0, upto - 1).to_owned())
    }
}

/// The way up from `path`: the path itself first.
pub fn ancestor_dirs(path: &str) -> (dirs: Vec<String>)
    ensures
        dirs.deep_view() == ancestors(path@),
{
    let mut dirs: Vec<String> = Vec::new();
    let mut current = String::from_str(path);
    let ghost mut done: Seq<Seq<char>> = Seq::empty();
    assert(dirs.deep_view() =~= done);
    assert(done + ancestors(current@) =~= ancestors(path@));
    loop
        invariant_except_break
            dirs.deep_view() == done,
            done + ancestors(current@) == ancestors(path@),
        ensures
            dirs.deep_view() == ancestors(path@),
        decreases current@.len(),
    {
        let next = parent_dir(current.as_str());
        proof {
            parent_is_shorter(current@);
        }
        let ghost here = current@;
        let ghost before = done;
        dirs.push(current);
        proof {
            done = before.push(here);
            assert(dirs.deep_view() =~= done);
        }
        match next {
            Some(parent) => {
                assert(done + ancestors(parent@) =~= before + ancestors(here));
                current = parent;
            },
            None => {
                assert(done =~= before + ancestors(here));
                break ;
            },
        }
    }
    dirs
}

} // verus!

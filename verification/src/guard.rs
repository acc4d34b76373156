//! Destination guard: decides whether a candidate file name may be
//! written inside the destination directory, and produces the joined
//! path. A name is accepted exactly when it is a plain basename: no path
//! separators, not empty, and neither `.` nor `..`, so the joined path's
//! parent is the destination directory itself.
use vstd::prelude::*;
use crate::model::{ascii, RejectedPath, BACKSLASH, DOT, SLASH};

verus! {

/// Holds when no byte of `s` is a path separator.
pub open spec fn no_separator(s: Seq<u8>) -> bool {
    forall|i: int| 0 <= i < s.len() ==> s[i] != SLASH && s[i] != BACKSLASH
}

/// Holds when `name` is a safe basename: non-empty, not a directory
/// self- or parent-reference, and free of separators. Joining such a
/// name to a directory always names an entry directly inside it.
pub open spec fn is_safe_name(name: Seq<u8>) -> bool {
    &&& name.len() > 0
    &&& name != seq![DOT]
    &&& name != seq![DOT, DOT]
    &&& no_separator(name)
}

/// The path obtained by joining `dir` and `name`: a single separator is
/// inserted unless `dir` already ends with one.
pub open spec fn spec_join(dir: Seq<u8>, name: Seq<u8>) -> Seq<u8> {
    if dir.len() > 0 && dir[dir.len() - 1] == SLASH {
        dir + name
    } else {
        dir + seq![SLASH] + name
    }
}

/// A safe name joined to a directory neither nests nor escapes: the
/// joined path is the directory, one separator, then the name, and no
/// later byte is a separator — so the joined path's parent directory is
/// the destination directory itself, and its base name the candidate.
pub proof fn lemma_join_parent(dir: Seq<u8>, name: Seq<u8>)
    requires
        is_safe_name(name),
        dir.len() == 0 || dir[dir.len() - 1] != SLASH,
    ensures
        spec_join(dir, name).len() == dir.len() + 1 + name.len(),
        spec_join(dir, name).subrange(0, dir.len() as int) == dir,
        spec_join(dir, name)[dir.len() as int] == SLASH,
        spec_join(dir, name).subrange(dir.len() + 1 as int, dir.len() + 1 + name.len() as int) == name,
        forall|i: int|
            dir.len() < i < spec_join(dir, name).len() ==> spec_join(dir, name)[i] != SLASH,
{
    let joined = spec_join(dir, name);
    assert(joined =~= dir + seq![SLASH] + name);
    assert(joined.subrange(0, dir.len() as int) =~= dir);
    assert(joined.subrange(dir.len() + 1 as int, dir.len() + 1 + name.len() as int) =~= name);
    assert forall|i: int| dir.len() < i < joined.len() implies joined[i] != SLASH by {
        assert(joined[i] == name[i - (dir.len() + 1)]);
    }
}

/// Checks whether `name` is a safe basename (see [`is_safe_name`]).
pub fn check_name(name: &[u8]) -> (r: bool)
    ensures
        r == is_safe_name(name@),
{
    if name.len() == 0 {
        return false;
    }
    if name.len() == 1 && *vstd::slice::slice_index_get(name, 0) == DOT {
        proof {
            assert(name@ =~= seq![DOT]);
        }
        return false;
    }
    if name.len() == 2 && *vstd::slice::slice_index_get(name, 0) == DOT
        && *vstd::slice::slice_index_get(name, 1) == DOT {
        proof {
            assert(name@ =~= seq![DOT, DOT]);
        }
        return false;
    }
    let mut i: usize = 0;
    while i < name.len()
        invariant
            0 <= i <= name@.len(),
            forall|j: int| 0 <= j < i ==> name@[j] != SLASH && name@[j] != BACKSLASH,
        decreases name@.len() - i,
    {
        let b = *vstd::slice::slice_index_get(name, i);
        if b == SLASH || b == BACKSLASH {
            return false;
        }
        i = i + 1;
    }
    proof {
        if name@ == seq![DOT] {
            assert(name@.len() == 1 && name@[0] == DOT);
        }
        if name@ == seq![DOT, DOT] {
            assert(name@.len() == 2 && name@[0] == DOT && name@[1] == DOT);
        }
    }
    true
}

/// Validates `name` against the destination directory `dir` and, on
/// success, returns the joined path; the caller must write only through
/// the returned path. Rejection is exact: every unsafe name is refused,
/// every safe name accepted, whatever the directory.
pub fn validate(dir: &[u8], name: Vec<u8>) -> (r: Result<Vec<u8>, RejectedPath>)
    ensures
        r is Ok <==> is_safe_name(name@),
        r matches Ok(p) ==> p@ == spec_join(dir@, name@),
        r matches Err(e) ==> e.name@ == name@,
{
    if !check_name(name.as_slice()) {
        return Err(RejectedPath { name });
    }
    let mut path: Vec<u8> = vstd::slice::slice_to_vec(dir);
    if dir.len() == 0 || *vstd::slice::slice_index_get(dir, dir.len() - 1) != SLASH {
        path.push(SLASH);
        proof {
            assert(path@ =~= dir@ + seq![SLASH]);
        }
    }
    let mut tail = name;
    let ghost name_view = tail@;
    path.append(&mut tail);
    proof {
        assert(path@ =~= spec_join(dir@, name_view));
    }
    Ok(path)
}

} // verus!

//! Repository paths: slash-separated, with or without a leading slash.

use vstd::prelude::*;
use vstd::string::StrSliceExecFns;
use crate::text::chars_of;

verus! {

/// `path` without one leading slash, if it has one.  Further slashes stay.
pub open spec fn without_leading_slash(path: Seq<char>) -> Seq<char> {
    if path.len() > 0 && path.first() == '/' {
        path.drop_first()
    } else {
        path
    }
}

/// `path` cut before its trailing slashes.
pub open spec fn without_trailing_slashes(path: Seq<char>) -> Seq<char>
    decreases path.len(),
{
    if path.len() > 0 && path.last() == '/' {
        without_trailing_slashes(path.drop_last())
    } else {
        path
    }
}

/// `path` cut after its last slash, or empty when it has none.
pub open spec fn up_to_last_slash(path: Seq<char>) -> Seq<char>
    decreases path.len(),
{
    if path.len() > 0 && path.last() != '/' {
        up_to_last_slash(path.drop_last())
    } else {
        path
    }
}

/// The directory that holds the entry `path` names.
///
/// Trailing slashes do not count, nor do the slashes between the directory
/// and the entry: `a/b/c.txt`, `a/b//c.txt` and `a/b/c.txt/` all give `a/b`.
/// An entry directly under the root gives `/`, a lone name gives the empty
/// path, and a path that names no entry (empty, or slashes only) is its own
/// parent.  Components `.` and `..` are names like any other.
pub open spec fn parent_directory(path: Seq<char>) -> Seq<char> {
    let stem = without_trailing_slashes(path);
    let dir = up_to_last_slash(stem);
    let bare = without_trailing_slashes(dir);
    if stem.len() == 0 {
        path
    } else if dir.len() > 0 && bare.len() == 0 {
        dir.take(1)
    } else {
        bare
    }
}

/// Length of `chars[..end]` once its trailing slashes are cut.
fn trailing_slashes_cut(chars: &Vec<char>, end: usize) -> (cut: usize)
    requires
        end <= chars@.len(),
    ensures
        cut <= end,
        chars@.take(cut as int) == without_trailing_slashes(chars@.take(end as int)),
{
    let mut cut = end;
    while cut > 0 && chars[cut - 1] == '/'
        invariant
            cut <= end <= chars@.len(),
            without_trailing_slashes(chars@.take(cut as int)) == without_trailing_slashes(
                chars@.take(end as int),
            ),
        decreases cut,
    {
        proof {
            assert(chars@.take(cut as int).drop_last() =~= chars@.take(cut - 1));
        }
        cut -= 1;
    }
    cut
}

/// Length of `chars[..end]` once all after its last slash is cut.
fn last_slash_cut(chars: &Vec<char>, end: usize) -> (cut: usize)
    requires
        end <= chars@.len(),
    ensures
        cut <= end,
        chars@.take(cut as int) == up_to_last_slash(chars@.take(end as int)),
{
    let mut cut = end;
    while cut > 0 && chars[cut - 1] != '/'
        invariant
            cut <= end <= chars@.len(),
            up_to_last_slash(chars@.take(cut as int)) == up_to_last_slash(chars@.take(end as int)),
        decreases cut,
    {
        proof {
            assert(chars@.take(cut as int).drop_last() =~= chars@.take(cut - 1));
        }
        cut -= 1;
    }
    cut
}

/// The directory that holds the entry `path` names.
pub fn parent_of(path: &str) -> (parent: String)
    ensures
        parent@ == parent_directory(path@),
{
    let chars = chars_of(path);
    let n = chars.len();
    proof {
        assert(chars@.take(n as int) =~= path@);
    }
    let stem = trailing_slashes_cut(&chars, n);
    if stem == 0 {
        return path.to_owned();
    }
    let dir = last_slash_cut(&chars, stem);
    let bare = trailing_slashes_cut(&chars, dir);
    let keep = if dir > 0 && bare == 0 {
        1
    } else {
        bare
    };
    proof {
        if dir > 0 {
            assert(chars@.take(dir as int).take(1) =~= chars@.take(1));
        }
        assert(path@.subrange(0, keep as int) =~= chars@.take(keep as int));
    }
    path.substring_char(0, keep).to_owned()
}

/// `path` without one leading slash, if it has one.
pub fn strip_leading_slash(path: &str) -> (rest: String)
    ensures
        rest@ == without_leading_slash(path@),
{
    let chars = chars_of(path);
    let n = chars.len();
    if n > 0 && chars[0] == '/' {
        proof {
            assert(path@.subrange(1, n as int) =~= path@.drop_first());
        }
        path.substring_char(1, n).to_owned()
    } else {
        path.to_owned()
    }
}

} // verus!

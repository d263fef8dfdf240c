//! Joining a path segment onto a base, on paths whose separator is `/`, and
//! the predicates that tell whether the result stayed under the base.

use vstd::prelude::*;
use vstd::string::*;

verus! {

/// The path that results from adjoining `segment` to `base`: an absolute
/// segment replaces the base; any other is appended, after a separator where
/// the base is not empty and does not end in one.
pub open spec fn spec_join(base: Seq<char>, segment: Seq<char>) -> Seq<char> {
    if segment.len() > 0 && segment[0] == '/' {
        segment
    } else if base.len() > 0 && base.last() != '/' {
        base + seq!['/'] + segment
    } else {
        base + segment
    }
}

/// Whether a `..` component starts at position `i` of `path`.
pub open spec fn spec_parent_at(path: Seq<char>, i: int) -> bool {
    &&& 0 <= i
    &&& i + 2 <= path.len()
    &&& path[i] == '.'
    &&& path[i + 1] == '.'
    &&& (i == 0 || path[i - 1] == '/')
    &&& (i + 2 == path.len() || path[i + 2] == '/')
}

/// Whether `path` has a `..` component.
pub open spec fn spec_has_parent_component(path: Seq<char>) -> bool {
    exists|i: int| spec_parent_at(path, i)
}

/// Whether `joined` has left the root that `base` names: it no longer starts
/// with the base, or it climbs out through a `..` component.
pub open spec fn spec_leaves_root(base: Seq<char>, joined: Seq<char>) -> bool {
    !base.is_prefix_of(joined) || spec_has_parent_component(joined)
}

/// Adjoins `segment` to `base`.
pub fn join_path(base: &str, segment: &str) -> (joined: String)
    ensures
        joined@ == spec_join(base@, segment@),
{
    let segment_len = segment.unicode_len();
    if segment_len > 0 && segment.get_char(0) == '/' {
        return String::from_str(segment);
    }
    let base_len = base.unicode_len();
    let mut joined = String::from_str(base);
    if base_len > 0 && base.get_char(base_len - 1) != '/' {
        proof {
            reveal_strlit("/");
            assert("/"@ =~= seq!['/']);
        }
        joined.append("/");
    }
    joined.append(segment);
    joined
}

/// Whether `joined` still starts with `base`.
pub fn keeps_base(base: &str, joined: &str) -> (r: bool)
    ensures
        r == base@.is_prefix_of(joined@),
{
    let n = base.unicode_len();
    if n > joined.unicode_len() {
        return false;
    }
    let mut i: usize = 0;
    while i < n
        invariant
            i <= n,
            n == base@.len(),
            n <= joined@.len(),
            forall|k: int| 0 <= k < i ==> base@[k] == joined@[k],
        decreases n - i,
    {
        if base.get_char(i) != joined.get_char(i) {
            assert(joined@.subrange(0, n as int)[i as int] != base@[i as int]);
            return false;
        }
        i = i + 1;
    }
    assert(base@ =~= joined@.subrange(0, n as int));
    true
}

/// Whether `path` has a `..` component.
pub fn has_parent_component(path: &str) -> (r: bool)
    ensures
        r == spec_has_parent_component(path@),
{
    let n = path.unicode_len();
    if n < 2 {
        return false;
    }
    let mut i: usize = 0;
    while i < n - 1
        invariant
            n == path@.len(),
            n >= 2,
            i + 1 <= n,
            forall|k: int| 0 <= k < i ==> !spec_parent_at(path@, k),
        decreases n - i,
    {
        let starts = i == 0 || path.get_char(i - 1) == '/';
        let ends = i + 2 == n || path.get_char(i + 2) == '/';
        if starts && ends && path.get_char(i) == '.' && path.get_char(i + 1) == '.' {
            assert(spec_parent_at(path@, i as int));
            return true;
        }
        i = i + 1;
    }
    assert forall|k: int| !spec_parent_at(path@, k) by {
        if 0 <= k && k + 2 <= n {
            assert(k < i);
        }
    }
    false
}

/// Whether `joined` has left the root that `base` names.
pub fn leaves_root(base: &str, joined: &str) -> (r: bool)
    ensures
        r == spec_leaves_root(base@, joined@),
{
    !keeps_base(base, joined) || has_parent_component(joined)
}

/// The result of adjoining a relative segment to any base starts with the base.
pub proof fn lemma_relative_join_keeps_base(base: Seq<char>, segment: Seq<char>)
    requires
        segment.len() == 0 || segment[0] != '/',
    ensures
        base.is_prefix_of(spec_join(base, segment)),
{
    let joined = spec_join(base, segment);
    assert(joined.subrange(0, base.len() as int) =~= base);
}

/// An absolute segment, adjoined to any base, comes back unchanged: the
/// base is discarded.
pub proof fn lemma_absolute_join_discards_base(base: Seq<char>, segment: Seq<char>)
    requires
        segment.len() > 0,
        segment[0] == '/',
    ensures
        spec_join(base, segment) == segment,
        !base.is_prefix_of(segment) ==> spec_leaves_root(base, spec_join(base, segment)),
{
}

} // verus!

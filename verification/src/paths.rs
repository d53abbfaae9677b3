//! Paths as plain strings.
//!
//! A path is text whose components are separated by `/` or `\`. The helpers
//! here read and strip the final component; they are what the data-directory
//! selection walks upward with.

use vstd::prelude::*;
use vstd::string::*;

verus! {

/// A path separator character.
pub open spec fn is_sep(c: char) -> bool {
    c == '/' || c == '\\'
}

/// The final component of a path: the characters after the last separator,
/// or the whole path when it has none. A path ending in a separator has an
/// empty final component.
pub open spec fn last_component(s: Seq<char>) -> Seq<char>
    decreases s.len(),
{
    if s.len() == 0 {
        s
    } else if is_sep(s.last()) {
        Seq::empty()
    } else {
        last_component(s.drop_last()).push(s.last())
    }
}

/// The path with its final component and the separator before it removed;
/// a path without a separator has the empty parent.
pub open spec fn parent_of(s: Seq<char>) -> Seq<char>
    decreases s.len(),
{
    if s.len() == 0 {
        s
    } else if is_sep(s.last()) {
        s.drop_last()
    } else {
        parent_of(s.drop_last())
    }
}

/// The parent is strictly shorter than a nonempty path.
pub proof fn lemma_parent_shorter(s: Seq<char>)
    requires
        s.len() > 0,
    ensures
        parent_of(s).len() < s.len(),
    decreases s.len(),
{
    if !is_sep(s.last()) {
        if s.len() > 1 {
            lemma_parent_shorter(s.drop_last());
        } else {
            assert(s.drop_last().len() == 0);
            assert(parent_of(s.drop_last()).len() == 0);
        }
    }
}

/// `base` and `name` joined with a separator.
pub open spec fn joined(base: Seq<char>, name: Seq<char>) -> Seq<char> {
    base + "/"@ + name
}

/// Join a directory and an entry name into one path.
pub fn join(base: &str, name: &str) -> (r: String)
    ensures
        r@ == joined(base@, name@),
{
    String::from_str(base).concat("/").concat(name)
}

/// The index where the final component starts: after it there is no
/// separator, and either it is the start of the path or a separator stands
/// right before it.
proof fn lemma_last_component_at(s: Seq<char>, k: int)
    requires
        0 <= k <= s.len(),
        forall|j: int| k <= j < s.len() ==> !is_sep(#[trigger] s[j]),
        k == 0 || is_sep(s[k - 1]),
    ensures
        last_component(s) == s.subrange(k, s.len() as int),
        parent_of(s) == (if k == 0 {
            Seq::<char>::empty()
        } else {
            s.subrange(0, k - 1)
        }),
    decreases s.len(),
{
    if s.len() == 0 {
        assert(s.subrange(0, 0) =~= s);
    } else if k == s.len() {
        assert(is_sep(s.last()));
        assert(s.subrange(k, s.len() as int) =~= Seq::<char>::empty());
        assert(s.drop_last() =~= s.subrange(0, k - 1));
    } else {
        assert(!is_sep(s.last()));
        let t = s.drop_last();
        assert(forall|j: int| k <= j < t.len() ==> !is_sep(#[trigger] t[j]));
        lemma_last_component_at(t, k);
        assert(t.subrange(k, t.len() as int).push(s.last()) =~= s.subrange(k, s.len() as int));
        if k > 0 {
            assert(t.subrange(0, k - 1) =~= s.subrange(0, k - 1));
        }
    }
}

/// Find where the final component of `s` starts.
fn component_start(s: &str) -> (k: usize)
    ensures
        k <= s@.len(),
        last_component(s@) == s@.subrange(k as int, s@.len() as int),
        parent_of(s@) == (if k == 0 {
            Seq::<char>::empty()
        } else {
            s@.subrange(0, k - 1)
        }),
        k == 0 || is_sep(s@[k - 1]),
{
    let n = s.unicode_len();
    let mut k: usize = n;
    while k > 0
        invariant
            k <= n,
            n == s@.len(),
            forall|j: int| k <= j < n ==> !is_sep(#[trigger] s@[j]),
        ensures
            k <= n,
            forall|j: int| k <= j < n ==> !is_sep(#[trigger] s@[j]),
            k == 0 || is_sep(s@[k - 1]),
        decreases k,
    {
        let c = s.get_char(k - 1);
        if c == '/' || c == '\\' {
            break ;
        }
        k = k - 1;
    }
    proof {
        lemma_last_component_at(s@, k as int);
    }
    k
}

/// Whether the final component of `path` is exactly `name`.
pub fn ends_with_component(path: &str, name: &str) -> (r: bool)
    ensures
        r == (last_component(path@) == name@),
{
    let k = component_start(path);
    let n = path.unicode_len();
    crate::text::range_eq(path, k, n, name)
}

/// Strip the final component of `path`, separator included.
pub fn pop_component(path: &str) -> (r: String)
    ensures
        r@ == parent_of(path@),
{
    let k = component_start(path);
    if k == 0 {
        String::new()
    } else {
        let p = path.substring_char(0, k - 1);
        String::from_str(p)
    }
}

} // verus!

//! Path model.
//!
//! A path is a string of characters; components are joined with a single
//! backslash separator, as on the platform the installer targets. The model
//! never touches the real filesystem: existence information always arrives
//! as explicit values.

use vstd::prelude::*;

verus! {

/// The sequence obtained by joining `base` and `component` with a single
/// backslash separator.
pub open spec fn joined(base: Seq<char>, component: Seq<char>) -> Seq<char> {
    base + seq!['\\'] + component
}

/// `component` is the final path component of `p`: either `p` is exactly
/// `component`, or `p` ends in a backslash followed by `component`.
pub open spec fn has_final_component(p: Seq<char>, component: Seq<char>) -> bool {
    ||| p == component
    ||| (p.len() > component.len() && p[p.len() - component.len() - 1] == '\\'
        && p.subrange(p.len() - component.len(), p.len() as int) == component)
}

/// Join a directory path and one further component with a backslash.
pub fn join_component(base: &String, component: &str) -> (r: String)
    ensures
        r@ == joined(base@, component@),
{
    let mut r: String = base.clone();
    r.append("\\");
    r.append(component);
    proof {
        reveal_strlit("\\");
        assert(r@ =~= joined(base@, component@));
    }
    r
}

/// Whether the characters of `b` occur in `a` starting at position `a_start`.
fn chars_match_at(a: &str, a_start: usize, b: &str, b_len: usize) -> (r: bool)
    requires
        b_len == b@.len(),
        a_start + b@.len() <= a@.len(),
        a_start + b@.len() <= usize::MAX,
    ensures
        r == (a@.subrange(a_start as int, a_start + b@.len()) == b@),
{
    let mut i: usize = 0;
    while i < b_len
        invariant
            b_len == b@.len(),
            a_start + b@.len() <= a@.len(),
            a_start + b@.len() <= usize::MAX,
            i <= b_len,
            forall|j: int| 0 <= j < i ==> a@[a_start + j] == b@[j],
        decreases b_len - i,
    {
        if a.get_char(a_start + i) != b.get_char(i) {
            proof {
                let s = a@.subrange(a_start as int, a_start + b@.len());
                assert(s[i as int] == a@[a_start + i]);
            }
            return false;
        }
        i += 1;
    }
    proof {
        assert(a@.subrange(a_start as int, a_start + b@.len()) =~= b@);
    }
    true
}

/// Whether the final path component of `p` equals `component`.
pub fn ends_with_component(p: &String, component: &str) -> (r: bool)
    ensures
        r == has_final_component(p@, component@),
{
    let n = p.as_str().unicode_len();
    let m = component.unicode_len();
    if n == m {
        let eq = chars_match_at(p.as_str(), 0, component, m);
        proof {
            assert(p@.subrange(0, p@.len() as int) =~= p@);
        }
        eq
    } else if n > m {
        if p.as_str().get_char(n - m - 1) == '\\' {
            chars_match_at(p.as_str(), n - m, component, m)
        } else {
            false
        }
    } else {
        false
    }
}

} // verus!

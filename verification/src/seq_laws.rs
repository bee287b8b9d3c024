//! Facts about sequences used by the state-keeping modules: removing every
//! copy of one value, and appending a value that is not yet there.

use vstd::prelude::*;

verus! {

/// The test that keeps every value but `v`.
pub open spec fn except<T>(v: T) -> spec_fn(T) -> bool {
    |x: T| x != v
}

/// What removing every copy of `v` keeps: exactly the other values, and
/// each of them no more often than before.
pub proof fn filter_except<T>(s: Seq<T>, v: T)
    ensures
        forall|x: T| #[trigger] s.filter(except(v)).contains(x) <==> (x != v && s.contains(x)),
        s.no_duplicates() ==> s.filter(except(v)).no_duplicates(),
    decreases s.len(),
{
    reveal(Seq::filter);
    let p = except(v);
    let f = s.filter(p);
    if s.len() > 0 {
        let rest = s.drop_last();
        let last = s.last();
        filter_except(rest, v);
        let fr = rest.filter(p);
        assert forall|x: T| #[trigger] f.contains(x) <==> (x != v && s.contains(x)) by {
            if x != v && s.contains(x) {
                let k = choose|k: int| 0 <= k < s.len() && s[k] == x;
                if k < s.len() - 1 {
                    assert(rest[k] == x);
                    assert(fr.contains(x));
                    let j = choose|j: int| 0 <= j < fr.len() && fr[j] == x;
                    assert(f[j] == x);
                } else {
                    assert(f[f.len() - 1] == x);
                }
            }
            if f.contains(x) {
                let k = choose|k: int| 0 <= k < f.len() && f[k] == x;
                if p(last) && k == f.len() - 1 {
                    assert(s[s.len() - 1] == x);
                } else {
                    assert(fr[k] == x);
                    assert(fr.contains(x));
                    let j = choose|j: int| 0 <= j < rest.len() && rest[j] == x;
                    assert(s[j] == x);
                }
            }
        }
        if s.no_duplicates() {
            assert(rest.no_duplicates()) by {
                assert forall|i: int, j: int| 0 <= i < rest.len() && 0 <= j < rest.len() && i != j implies rest[i]
                    != rest[j] by {
                    assert(rest[i] == s[i] && rest[j] == s[j]);
                }
            }
            if p(last) {
                assert(!fr.contains(last)) by {
                    if fr.contains(last) {
                        assert(rest.contains(last));
                        let j = choose|j: int| 0 <= j < rest.len() && rest[j] == last;
                        assert(s[j] == s[s.len() - 1]);
                    }
                }
                assert forall|i: int, j: int| 0 <= i < f.len() && 0 <= j < f.len() && i != j implies f[i] != f[j] by {
                    if i < fr.len() && j < fr.len() {
                        assert(f[i] == fr[i] && f[j] == fr[j]);
                    } else if i < fr.len() {
                        assert(f[i] == fr[i]);
                        assert(fr.contains(fr[i]));
                    } else {
                        assert(f[j] == fr[j]);
                        assert(fr.contains(fr[j]));
                    }
                }
            }
        }
    }
}

/// What appending a value that is not yet there keeps: every value that
/// was there, the new one, and each of them at most once.
pub proof fn push_new<T>(s: Seq<T>, v: T)
    requires
        !s.contains(v),
    ensures
        forall|x: T| #[trigger] s.push(v).contains(x) <==> (x == v || s.contains(x)),
        s.no_duplicates() ==> s.push(v).no_duplicates(),
{
    let t = s.push(v);
    assert forall|x: T| #[trigger] t.contains(x) <==> (x == v || s.contains(x)) by {
        if x == v {
            assert(t[t.len() - 1] == x);
        }
        if s.contains(x) {
            let k = choose|k: int| 0 <= k < s.len() && s[k] == x;
            assert(t[k] == x);
        }
        if t.contains(x) {
            let k = choose|k: int| 0 <= k < t.len() && t[k] == x;
            if k < s.len() {
                assert(s[k] == x);
            }
        }
    }
    if s.no_duplicates() {
        assert forall|i: int, j: int| 0 <= i < t.len() && 0 <= j < t.len() && i != j implies t[i] != t[j] by {
            if i < s.len() && j < s.len() {
                assert(t[i] == s[i] && t[j] == s[j]);
            } else if i < s.len() {
                assert(t[i] == s[i]);
                assert(s.contains(s[i]));
            } else {
                assert(t[j] == s[j]);
                assert(s.contains(s[j]));
            }
        }
    }
}

} // verus!

//! The first element of a sequence that meets a condition.
use vstd::prelude::*;

verus! {

/// `i` is the first place in `s` at which `p` holds.
pub open spec fn is_first<T>(s: Seq<T>, p: spec_fn(T) -> bool, i: int) -> bool {
    0 <= i < s.len() && p(s[i]) && forall|j: int| 0 <= j < i ==> !p(#[trigger] s[j])
}

/// The first place in `s` at which `p` holds.
pub open spec fn first_where<T>(s: Seq<T>, p: spec_fn(T) -> bool) -> Option<int> {
    if exists|i: int| is_first(s, p, i) {
        Some(choose|i: int| is_first(s, p, i))
    } else {
        None
    }
}

/// A place at which `p` holds, with none before it, is the first one.
pub proof fn lemma_first_found<T>(s: Seq<T>, p: spec_fn(T) -> bool, i: int)
    requires
        0 <= i < s.len(),
        p(s[i]),
        forall|j: int| 0 <= j < i ==> !p(#[trigger] s[j]),
    ensures
        first_where(s, p) == Some(i),
{
    assert(is_first(s, p, i));
    let k = choose|k: int| is_first(s, p, k);
    assert(is_first(s, p, k));
    if k < i {
        assert(!p(s[k]));
    } else if i < k {
        assert(!p(s[i]));
    }
}

/// Where `p` holds nowhere, there is no first place.
pub proof fn lemma_first_missing<T>(s: Seq<T>, p: spec_fn(T) -> bool)
    requires
        forall|j: int| 0 <= j < s.len() ==> !p(#[trigger] s[j]),
    ensures
        first_where(s, p) is None,
{
}

/// What the first place guarantees of the element there and of those before it.
pub proof fn lemma_first_holds<T>(s: Seq<T>, p: spec_fn(T) -> bool)
    ensures
        match first_where(s, p) {
            Some(i) => is_first(s, p, i),
            None => forall|j: int| 0 <= j < s.len() ==> !p(#[trigger] s[j]),
        },
{
    if first_where(s, p) is None {
        assert forall|j: int| 0 <= j < s.len() implies !p(#[trigger] s[j]) by {
            if p(s[j]) {
                lemma_least(s, p, j);
            }
        }
    }
}

/// `s` with `v` in the first place at which `p` holds, or at the end.
pub open spec fn put<T>(s: Seq<T>, p: spec_fn(T) -> bool, v: T) -> Seq<T> {
    match first_where(s, p) {
        Some(i) => s.update(i, v),
        None => s.push(v),
    }
}

/// The element at the first place at which `p` holds.
pub open spec fn element_where<T>(s: Seq<T>, p: spec_fn(T) -> bool) -> Option<T> {
    match first_where(s, p) {
        Some(i) => Some(s[i]),
        None => None,
    }
}

/// What was put is found.
pub proof fn lemma_put_found<T>(s: Seq<T>, p: spec_fn(T) -> bool, v: T)
    requires
        p(v),
    ensures
        first_where(put(s, p, v), p) == Some(
            match first_where(s, p) {
                Some(i) => i,
                None => s.len() as int,
            },
        ),
        element_where(put(s, p, v), p) == Some(v),
{
    lemma_first_holds(s, p);
    let after = put(s, p, v);
    let place = match first_where(s, p) {
        Some(i) => i,
        None => s.len() as int,
    };
    assert(after[place] == v);
    assert forall|j: int| 0 <= j < place implies !p(#[trigger] after[j]) by {
        assert(after[j] == s[j]);
    }
    lemma_first_found(after, p, place);
}

/// What is found under a condition that excludes `p` stays.
pub proof fn lemma_put_others<T>(s: Seq<T>, p: spec_fn(T) -> bool, v: T, q: spec_fn(T) -> bool)
    requires
        p(v),
        forall|x: T| #[trigger] p(x) ==> !q(x),
    ensures
        first_where(put(s, p, v), q) == first_where(s, q),
        element_where(put(s, p, v), q) == element_where(s, q),
{
    lemma_first_holds(s, p);
    lemma_first_holds(s, q);
    let after = put(s, p, v);
    let place = match first_where(s, p) {
        Some(i) => i,
        None => s.len() as int,
    };
    match first_where(s, q) {
        Some(i) => {
            assert(i != place) by {
                if i == place {
                    assert(p(s[i]));
                }
            }
            assert(after[i] == s[i]);
            assert forall|j: int| 0 <= j < i implies !q(#[trigger] after[j]) by {
                if j != place {
                    assert(after[j] == s[j]);
                }
            }
            lemma_first_found(after, q, i);
        },
        None => {
            assert forall|j: int| 0 <= j < after.len() implies !q(#[trigger] after[j]) by {
                if j != place {
                    assert(after[j] == s[j]);
                }
            }
            lemma_first_missing(after, q);
        },
    }
}

/// No two elements of `s` have the same key.
pub open spec fn one_each<T, K>(s: Seq<T>, key: spec_fn(T) -> K) -> bool {
    forall|i: int, j: int| 0 <= i < j < s.len() ==> key(#[trigger] s[i]) != key(#[trigger] s[j])
}

/// Putting an element in the place of the one with its key keeps one element per key.
pub proof fn lemma_put_one_each<T, K>(
    s: Seq<T>,
    key: spec_fn(T) -> K,
    p: spec_fn(T) -> bool,
    v: T,
)
    requires
        one_each(s, key),
        forall|x: T| #[trigger] p(x) == (key(x) == key(v)),
    ensures
        one_each(put(s, p, v), key),
{
    lemma_first_holds(s, p);
    let after = put(s, p, v);
    let place = match first_where(s, p) {
        Some(i) => i,
        None => s.len() as int,
    };
    assert forall|i: int, j: int| 0 <= i < j < after.len() implies key(#[trigger] after[i]) != key(
        #[trigger] after[j],
    ) by {
        if i != place {
            assert(after[i] == s[i]);
        }
        if j != place {
            assert(after[j] == s[j]);
        }
        if i == place {
            assert(p(s[i]));
            assert(key(s[i]) != key(s[j]));
        } else if j == place {
            assert(!p(s[i]));
        } else {
            assert(key(s[i]) != key(s[j]));
        }
    }
}

/// Taking an element out keeps one element per key.
pub proof fn lemma_remove_one_each<T, K>(s: Seq<T>, key: spec_fn(T) -> K, i: int)
    requires
        one_each(s, key),
        0 <= i < s.len(),
    ensures
        one_each(s.remove(i), key),
{
    let after = s.remove(i);
    assert forall|a: int, b: int| 0 <= a < b < after.len() implies key(#[trigger] after[a]) != key(
        #[trigger] after[b],
    ) by {
        let a0 = if a < i {
            a
        } else {
            a + 1
        };
        let b0 = if b < i {
            b
        } else {
            b + 1
        };
        assert(after[a] == s[a0] && after[b] == s[b0]);
    }
}

proof fn lemma_least<T>(s: Seq<T>, p: spec_fn(T) -> bool, j: int)
    requires
        0 <= j < s.len(),
        p(s[j]),
    ensures
        exists|i: int| is_first(s, p, i),
    decreases j,
{
    if exists|k: int| 0 <= k < j && p(s[k]) {
        let k = choose|k: int| 0 <= k < j && p(s[k]);
        lemma_least(s, p, k);
    } else {
        assert(is_first(s, p, j));
    }
}

} // verus!

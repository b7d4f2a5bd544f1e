//! The first element of a sequence that satisfies a predicate, as used to
//! look up rooms by id and members by user id.

use vstd::prelude::*;

verus! {

/// Whether `i` is the first position of `s` whose element satisfies `p`.
pub open spec fn is_first_match<T>(s: Seq<T>, p: spec_fn(T) -> bool, i: int) -> bool {
    &&& 0 <= i < s.len()
    &&& p(s[i])
    &&& forall|j: int| 0 <= j < i ==> !p(#[trigger] s[j])
}

/// The first position of `s` whose element satisfies `p`, or -1 when there
/// is none.
pub open spec fn first_match<T>(s: Seq<T>, p: spec_fn(T) -> bool) -> int {
    if exists|i: int| is_first_match(s, p, i) {
        choose|i: int| is_first_match(s, p, i)
    } else {
        -1
    }
}

/// After a search that found no match before `i`, `first_match` is `i` when
/// `s[i]` matches, and -1 when the search ran to the end.
pub proof fn lemma_first_match<T>(s: Seq<T>, p: spec_fn(T) -> bool, i: int)
    requires
        0 <= i <= s.len(),
        forall|j: int| 0 <= j < i ==> !p(#[trigger] s[j]),
        i < s.len() ==> p(s[i]),
    ensures
        first_match(s, p) == (if i < s.len() {
            i
        } else {
            -1
        }),
        first_match(s, p) < s.len(),
{
    if i < s.len() {
        assert(is_first_match(s, p, i));
        let c = choose|c: int| is_first_match(s, p, c);
        if c < i {
            assert(!p(s[c]));
        }
        if c > i {
            assert(!p(s[i]));
        }
    } else {
        if exists|c: int| is_first_match(s, p, c) {
            let c = choose|c: int| is_first_match(s, p, c);
            assert(!p(s[c]));
        }
    }
}

/// When some position matches, there is a first one.
proof fn lemma_some_first_match<T>(s: Seq<T>, p: spec_fn(T) -> bool, j: int)
    requires
        0 <= j < s.len(),
        p(s[j]),
    ensures
        exists|i: int| is_first_match(s, p, i),
    decreases j,
{
    if forall|m: int| 0 <= m < j ==> !p(#[trigger] s[m]) {
        assert(is_first_match(s, p, j));
    } else {
        let m = choose|m: int| 0 <= m < j && p(#[trigger] s[m]);
        lemma_some_first_match(s, p, m);
    }
}

/// `first_match` is -1 or a matching position.
pub proof fn lemma_first_match_bounds<T>(s: Seq<T>, p: spec_fn(T) -> bool)
    ensures
        -1 <= first_match(s, p) < s.len(),
        first_match(s, p) >= 0 ==> is_first_match(s, p, first_match(s, p)),
        first_match(s, p) < 0 ==> forall|j: int| 0 <= j < s.len() ==> !p(#[trigger] s[j]),
{
    if exists|i: int| is_first_match(s, p, i) {
    } else {
        assert forall|j: int| 0 <= j < s.len() implies !p(#[trigger] s[j]) by {
            if p(s[j]) {
                lemma_some_first_match(s, p, j);
            }
        }
    }
}

/// No two elements of `s` share their key.
pub open spec fn unique_by<T>(s: Seq<T>, key: spec_fn(T) -> Seq<char>) -> bool {
    forall|i: int, j: int| 0 <= i < j < s.len() ==> key(#[trigger] s[i]) != key(#[trigger] s[j])
}

/// Keeping some elements keeps the keys apart.
pub proof fn lemma_filter_unique<T>(s: Seq<T>, key: spec_fn(T) -> Seq<char>, p: spec_fn(T) -> bool)
    requires
        unique_by(s, key),
    ensures
        unique_by(s.filter(p), key),
    decreases s.len(),
{
    reveal(Seq::filter);
    if s.len() > 0 {
        let init = s.drop_last();
        assert(unique_by(init, key)) by {
            assert forall|i: int, j: int| 0 <= i < j < init.len() implies key(#[trigger] init[i])
                != key(#[trigger] init[j]) by {
                assert(init[i] == s[i] && init[j] == s[j]);
            }
        }
        lemma_filter_unique(init, key, p);
        if p(s.last()) {
            let f = init.filter(p);
            assert forall|m: int| 0 <= m < f.len() implies key(#[trigger] f[m]) != key(s.last()) by {
                init.lemma_filter_contains_rev(p, f[m]);
                let j = choose|j: int| 0 <= j < init.len() && init[j] == f[m];
                assert(s[j] == init[j]);
            }
            assert(s.filter(p) =~= f.push(s.last()));
        }
    }
}

/// Changing an element without changing its key keeps the keys apart.
pub proof fn lemma_update_unique<T>(s: Seq<T>, key: spec_fn(T) -> Seq<char>, i: int, x: T)
    requires
        unique_by(s, key),
        0 <= i < s.len(),
        key(x) == key(s[i]),
    ensures
        unique_by(s.update(i, x), key),
{
    let t = s.update(i, x);
    assert forall|a: int, b: int| 0 <= a < b < t.len() implies key(#[trigger] t[a]) != key(
        #[trigger] t[b],
    ) by {
        assert(key(t[a]) == key(s[a]));
        assert(key(t[b]) == key(s[b]));
    }
}

/// Adding an element of a new key keeps the keys apart.
pub proof fn lemma_push_unique<T>(s: Seq<T>, key: spec_fn(T) -> Seq<char>, x: T)
    requires
        unique_by(s, key),
        forall|j: int| 0 <= j < s.len() ==> key(#[trigger] s[j]) != key(x),
    ensures
        unique_by(s.push(x), key),
{
    let t = s.push(x);
    assert forall|a: int, b: int| 0 <= a < b < t.len() implies key(#[trigger] t[a]) != key(
        #[trigger] t[b],
    ) by {
        if b == s.len() {
            assert(t[a] == s[a]);
        } else {
            assert(t[a] == s[a] && t[b] == s[b]);
        }
    }
}

/// Keeping the elements that all satisfy `p` keeps them all.
pub proof fn lemma_filter_keeps_all<T>(s: Seq<T>, p: spec_fn(T) -> bool)
    requires
        forall|i: int| 0 <= i < s.len() ==> p(#[trigger] s[i]),
    ensures
        s.filter(p) == s,
    decreases s.len(),
{
    reveal(Seq::filter);
    if s.len() > 0 {
        lemma_filter_keeps_all(s.drop_last(), p);
        assert(s.drop_last().push(s.last()) =~= s);
    } else {
        assert(s.filter(p) =~= s);
    }
}

} // verus!

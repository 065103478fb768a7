//! First-match selection: the earliest element of a list that passes a test.
//!
//! Devices, queue families, formats and extensions are all chosen by order of
//! enumeration and never by rank.

use vstd::prelude::*;

verus! {

/// Whether `i` is the position of the earliest element of `s` that passes
/// `accept`.
pub open spec fn is_first<T>(s: Seq<T>, accept: spec_fn(T) -> bool, i: int) -> bool {
    &&& 0 <= i < s.len()
    &&& accept(s[i])
    &&& forall|j: int| 0 <= j < i ==> !accept(#[trigger] s[j])
}

/// Whether no element of `s` passes `accept`.
pub open spec fn none_pass<T>(s: Seq<T>, accept: spec_fn(T) -> bool) -> bool {
    forall|j: int| 0 <= j < s.len() ==> !accept(#[trigger] s[j])
}

/// The position of the earliest element of `s` that passes `accept`, if any
/// element does.
pub open spec fn first<T>(s: Seq<T>, accept: spec_fn(T) -> bool) -> Option<int> {
    if exists|i: int| is_first(s, accept, i) {
        Some(choose|i: int| is_first(s, accept, i))
    } else {
        None
    }
}

/// The earliest passing position is unique: a position known to be the
/// earliest is the one that `first` names.
pub proof fn first_is<T>(s: Seq<T>, accept: spec_fn(T) -> bool, i: int)
    requires
        is_first(s, accept, i),
    ensures
        first(s, accept) == Some(i),
{
    let k = choose|k: int| is_first(s, accept, k);
    assert(is_first(s, accept, k));
    if k < i {
        assert(!accept(s[k]));
    } else if i < k {
        assert(!accept(s[i]));
    }
}

/// Where nothing passes, `first` names no position.
pub proof fn first_is_none<T>(s: Seq<T>, accept: spec_fn(T) -> bool)
    requires
        none_pass(s, accept),
    ensures
        first(s, accept) is None,
{
    if exists|i: int| is_first(s, accept, i) {
        let k = choose|k: int| is_first(s, accept, k);
        assert(!accept(s[k]));
    }
}

/// What `first` names is in range, passes, and has nothing passing before it;
/// where it names nothing, nothing passes.
pub proof fn first_sound<T>(s: Seq<T>, accept: spec_fn(T) -> bool)
    ensures
        match first(s, accept) {
            Some(i) => is_first(s, accept, i),
            None => none_pass(s, accept),
        },
{
    if !(exists|i: int| is_first(s, accept, i)) {
        assert forall|j: int| 0 <= j < s.len() implies !accept(#[trigger] s[j]) by {
            if accept(s[j]) {
                least_exists(s, accept, j);
            }
        }
    }
}

proof fn least_exists<T>(s: Seq<T>, accept: spec_fn(T) -> bool, j: int)
    requires
        0 <= j < s.len(),
        accept(s[j]),
    ensures
        exists|i: int| is_first(s, accept, i),
    decreases j,
{
    if exists|k: int| 0 <= k < j && accept(s[k]) {
        let k = choose|k: int| 0 <= k < j && accept(s[k]);
        least_exists(s, accept, k);
    } else {
        assert(is_first(s, accept, j));
    }
}

} // verus!

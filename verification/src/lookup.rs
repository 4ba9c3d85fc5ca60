//! First-match search over a sequence, the join primitive of the snapshot.
//!
//! Every join in the snapshot resolves an id to the first element of a
//! collection that matches it. [`find_first`] is the specification of that
//! scan; the lemmas here characterise it so that executable linear searches
//! can be proved equal to it.

use vstd::prelude::*;

verus! {

/// The index of the first element of `s` satisfying `pred`, if any.
pub open spec fn find_first<T>(s: Seq<T>, pred: spec_fn(T) -> bool) -> Option<int>
    decreases s.len(),
{
    if s.len() <= 0 {
        None
    } else if pred(s[0]) {
        Some(0)
    } else {
        match find_first(s.drop_first(), pred) {
            Some(i) => Some(i + 1),
            None => None,
        }
    }
}

/// What `find_first` returns is the first match: a found index is in range,
/// matches, and nothing before it matches; `None` means nothing matches.
pub proof fn lemma_find_first_props<T>(s: Seq<T>, pred: spec_fn(T) -> bool)
    ensures
        match find_first(s, pred) {
            Some(i) => 0 <= i < s.len() && pred(s[i]) && forall|j: int|
                0 <= j < i ==> !pred(#[trigger] s[j]),
            None => forall|j: int| 0 <= j < s.len() ==> !pred(#[trigger] s[j]),
        },
    decreases s.len(),
{
    if s.len() > 0 && !pred(s[0]) {
        lemma_find_first_props(s.drop_first(), pred);
        assert forall|j: int| 1 <= j < s.len() implies s.drop_first()[j - 1] == #[trigger] s[j] by {}
    }
}

/// An index that matches, with nothing before it matching, is exactly what
/// `find_first` returns.
pub proof fn lemma_find_first_some<T>(s: Seq<T>, pred: spec_fn(T) -> bool, i: int)
    requires
        0 <= i < s.len(),
        pred(s[i]),
        forall|j: int| 0 <= j < i ==> !pred(#[trigger] s[j]),
    ensures
        find_first(s, pred) == Some(i),
    decreases i,
{
    if i > 0 {
        assert(!pred(s[0]));
        assert(s.drop_first()[i - 1] == s[i]);
        assert forall|j: int| 0 <= j < i - 1 implies !pred(#[trigger] s.drop_first()[j]) by {
            assert(s.drop_first()[j] == s[j + 1]);
        }
        lemma_find_first_some(s.drop_first(), pred, i - 1);
    }
}

/// When nothing in `s` matches, `find_first` returns `None`.
pub proof fn lemma_find_first_none<T>(s: Seq<T>, pred: spec_fn(T) -> bool)
    requires
        forall|j: int| 0 <= j < s.len() ==> !pred(#[trigger] s[j]),
    ensures
        find_first(s, pred) is None,
{
    lemma_find_first_props(s, pred);
    if find_first(s, pred) is Some {
        let i = find_first(s, pred)->0;
        assert(!pred(s[i]));
    }
}

} // verus!

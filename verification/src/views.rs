//! Views of results, options and sequences of viewed values.
use vstd::prelude::*;

verus! {

/// A result whose value and error are taken by their views.
pub open spec fn result_view<T: View, E: View>(r: Result<T, E>) -> Result<T::V, E::V> {
    match r {
        Ok(t) => Ok(t@),
        Err(e) => Err(e@),
    }
}

/// An option whose value is taken by its view.
pub open spec fn option_view<T: View>(o: Option<T>) -> Option<T::V> {
    match o {
        Some(t) => Some(t@),
        None => None,
    }
}

/// A sequence whose elements are taken by their views.
pub open spec fn seq_view<T: View>(s: Seq<T>) -> Seq<T::V> {
    Seq::new(s.len(), |i: int| s[i]@)
}

/// The view of a sequence with one element more.
pub proof fn lemma_seq_view_push<T: View>(s: Seq<T>, t: T)
    ensures
        seq_view(s.push(t)) == seq_view(s).push(t@),
{
    assert(seq_view(s.push(t)) =~= seq_view(s).push(t@));
}

/// The view of a sequence with one element replaced.
pub proof fn lemma_seq_view_update<T: View>(s: Seq<T>, i: int, t: T)
    requires
        0 <= i < s.len(),
    ensures
        seq_view(s.update(i, t)) == seq_view(s).update(i, t@),
{
    assert(seq_view(s.update(i, t)) =~= seq_view(s).update(i, t@));
}

} // verus!

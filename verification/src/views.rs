//! Small facts about deep views of vectors, shared by the proofs here.

use vstd::prelude::*;

verus! {

/// The element-wise deep view of a sequence.
pub open spec fn seq_deep_view<T: DeepView>(s: Seq<T>) -> Seq<T::V> {
    s.map_values(|t: T| t.deep_view())
}

/// The deep view of a vector, at an index, is the deep view of the element.
pub proof fn lemma_deep_view_index<T: DeepView>(v: &Vec<T>, j: int)
    requires
        0 <= j < v@.len(),
    ensures
        v.deep_view()[j] == v@[j].deep_view(),
{
}

/// The deep view of a vector is the element-wise deep view of its contents.
pub proof fn lemma_vec_deep_view<T: DeepView>(v: &Vec<T>)
    ensures
        v.deep_view() == seq_deep_view(v@),
{
    assert forall|j: int| 0 <= j < v@.len() implies v.deep_view()[j] == seq_deep_view(v@)[j] by {
        lemma_deep_view_index(v, j);
    }
    assert(v.deep_view() =~= seq_deep_view(v@));
}

/// Two vectors with the same length and pointwise equal element deep views
/// have the same deep view.
pub proof fn lemma_deep_view_pointwise<T: DeepView>(v: &Vec<T>, s: Seq<T::V>)
    requires
        v@.len() == s.len(),
        forall|j: int| 0 <= j < s.len() ==> v@[j].deep_view() == s[j],
    ensures
        v.deep_view() == s,
{
    assert forall|j: int| 0 <= j < s.len() implies v.deep_view()[j] == s[j] by {
        lemma_deep_view_index(v, j);
    }
    assert(v.deep_view() =~= s);
}

/// Deep-viewing commutes with appending one element.
pub proof fn lemma_seq_deep_view_push<T: DeepView>(s: Seq<T>, x: T)
    ensures
        seq_deep_view(s.push(x)) == seq_deep_view(s).push(x.deep_view()),
{
    assert(seq_deep_view(s.push(x)) =~= seq_deep_view(s).push(x.deep_view()));
}

} // verus!

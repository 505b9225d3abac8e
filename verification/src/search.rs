//! Finding the first entry of a sequence that is wanted.

use vstd::prelude::*;

verus! {

/// The index of the first entry of `list` that `wanted` holds of.
pub open spec fn first_index<T>(list: Seq<T>, wanted: spec_fn(T) -> bool) -> Option<int>
    decreases list.len(),
{
    if list.len() == 0 {
        None
    } else {
        let earlier = first_index(list.drop_last(), wanted);
        if earlier is Some {
            earlier
        } else if wanted(list.last()) {
            Some(list.len() - 1)
        } else {
            None
        }
    }
}

/// `first_index` finds an entry that is wanted, with none before it that is;
/// and it finds none only where no entry is wanted.
pub proof fn lemma_first_index<T>(list: Seq<T>, wanted: spec_fn(T) -> bool)
    ensures
        match first_index(list, wanted) {
            Some(index) => {
                &&& 0 <= index < list.len()
                &&& wanted(list[index])
                &&& forall|j: int| 0 <= j < index ==> !wanted(#[trigger] list[j])
            },
            None => forall|j: int| 0 <= j < list.len() ==> !wanted(#[trigger] list[j]),
        },
    decreases list.len(),
{
    if list.len() > 0 {
        let front = list.drop_last();
        lemma_first_index(front, wanted);
        assert forall|j: int| 0 <= j < front.len() implies front[j] == list[j] by {}
    }
}

/// What is found among the first entries is found among all.
pub proof fn lemma_first_index_prefix<T>(list: Seq<T>, n: int, wanted: spec_fn(T) -> bool)
    requires
        0 <= n <= list.len(),
        first_index(list.take(n), wanted) is Some,
    ensures
        first_index(list, wanted) == first_index(list.take(n), wanted),
    decreases list.len() - n,
{
    if n == list.len() {
        assert(list.take(n) =~= list);
    } else {
        assert(list.take(n + 1).drop_last() =~= list.take(n));
        lemma_first_index_prefix(list, n + 1, wanted);
    }
}

/// Where the first entries hold nothing wanted and the next entry is
/// wanted, that entry is the first one wanted.
pub proof fn lemma_first_index_found<T>(list: Seq<T>, at: int, wanted: spec_fn(T) -> bool)
    requires
        0 <= at < list.len(),
        first_index(list.take(at), wanted) is None,
        wanted(list[at]),
    ensures
        first_index(list, wanted) == Some(at),
{
    assert(list.take(at + 1).drop_last() =~= list.take(at));
    lemma_first_index_prefix(list, at + 1, wanted);
}

/// Where the first entries hold nothing wanted and the next entry is not
/// wanted either, the entries up to and with it hold nothing wanted.
pub proof fn lemma_first_index_skip<T>(list: Seq<T>, at: int, wanted: spec_fn(T) -> bool)
    requires
        0 <= at < list.len(),
        first_index(list.take(at), wanted) is None,
        !wanted(list[at]),
    ensures
        first_index(list.take(at + 1), wanted) is None,
{
    assert(list.take(at + 1).drop_last() =~= list.take(at));
}

} // verus!

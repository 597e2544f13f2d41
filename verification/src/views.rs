//! What lists and optional values of the library's types stand for.

use vstd::prelude::*;

verus! {

/// What the items of a list stand for.
pub open spec fn views<T: View>(items: Seq<T>) -> Seq<T::V> {
    items.map_values(|x: T| x@)
}

/// What an optional value stands for.
pub open spec fn opt<T: View>(o: Option<T>) -> Option<T::V> {
    match o {
        Some(x) => Some(x@),
        None => None,
    }
}

/// What a result with a message stands for.
pub open spec fn outcome<T: View>(r: Result<T, String>) -> Result<T::V, Seq<char>> {
    match r {
        Ok(x) => Ok(x@),
        Err(e) => Err(e@),
    }
}

/// What a result with a list and a message stands for.
pub open spec fn list_outcome<T: View>(r: Result<Vec<T>, String>) -> Result<Seq<T::V>, Seq<char>> {
    match r {
        Ok(x) => Ok(views(x@)),
        Err(e) => Err(e@),
    }
}

pub broadcast proof fn lemma_views_push<T: View>(items: Seq<T>, x: T)
    ensures
        #[trigger] views(items.push(x)) == views(items).push(x@),
{
    assert(views(items.push(x)) =~= views(items).push(x@));
}

pub broadcast proof fn lemma_views_empty<T: View>()
    ensures
        #[trigger] views(Seq::<T>::empty()) == Seq::<T::V>::empty(),
{
    assert(views(Seq::<T>::empty()) =~= Seq::<T::V>::empty());
}

pub broadcast proof fn lemma_views_index<T: View>(items: Seq<T>, i: int)
    requires
        0 <= i < items.len(),
    ensures
        #[trigger] views(items)[i] == items[i]@,
{
}

pub broadcast proof fn lemma_views_len<T: View>(items: Seq<T>)
    ensures
        #[trigger] views(items).len() == items.len(),
{
}

pub broadcast group group_views {
    lemma_views_push,
    lemma_views_empty,
    lemma_views_index,
    lemma_views_len,
}

} // verus!

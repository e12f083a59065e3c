//! How results and sequences of the library's types are viewed.

use crate::error::Error;
use vstd::prelude::*;

verus! {

/// The views of the items of a sequence, one for one.
pub open spec fn views<T: View>(items: Seq<T>) -> Seq<T::V> {
    Seq::new(items.len(), |i: int| items[i]@)
}

/// The view of what succeeded, or the error as it is.
pub open spec fn view_ok<T: View>(r: Result<T, Error>) -> Result<T::V, Error> {
    match r {
        Ok(t) => Ok(t@),
        Err(e) => Err(e),
    }
}

/// The views of what succeeded, or the error as it is.
pub open spec fn views_ok<T: View>(r: Result<Vec<T>, Error>) -> Result<Seq<T::V>, Error> {
    match r {
        Ok(items) => Ok(views(items@)),
        Err(e) => Err(e),
    }
}

/// The views of a sequence with one more item are the views of the sequence
/// with the view of the item.
pub proof fn lemma_views_push<T: View>(items: Seq<T>, item: T)
    ensures
        views(items.push(item)) == views(items).push(item@),
{
    assert(views(items.push(item)) =~= views(items).push(item@));
}

/// What was gathered, followed by what is still to come.
pub open spec fn spec_followed_by<T>(done: Seq<T>, rest: Result<Seq<T>, Error>) -> Result<
    Seq<T>,
    Error,
> {
    match rest {
        Ok(r) => Ok(done + r),
        Err(e) => Err(e),
    }
}

} // verus!

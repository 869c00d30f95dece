//! Outcomes of fallible steps, by their views.
//!
//! A step of the compiler may reject its input with an error, and its
//! arithmetic may leave the machine's integer types or refer to an entry that
//! does not exist. A `checked_` function returns `None` in the latter case;
//! the function of the plain name excludes it by its precondition.
use vstd::prelude::*;

verus! {

/// The view of an outcome: that of the result, or of the error.
pub open spec fn view_of<T: View, E: View>(result: Option<Result<T, E>>) -> Option<
    Result<T::V, E::V>,
> {
    match result {
        None => None,
        Some(Ok(value)) => Some(Ok(value@)),
        Some(Err(error)) => Some(Err(error@)),
    }
}

} // verus!

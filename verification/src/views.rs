//! Helpers for stating contracts over the mathematical values of results.

use vstd::prelude::*;

verus! {

/// The mathematical value of a `Result`: that of what it holds, on either side.
pub open spec fn result_view<T: DeepView, E: DeepView>(r: Result<T, E>) -> Result<T::V, E::V> {
    match r {
        Ok(value) => Ok(value.deep_view()),
        Err(error) => Err(error.deep_view()),
    }
}

} // verus!

//! The mathematical model of a result.

use vstd::prelude::*;

verus! {

/// The model of a result: the model of its value, or the model of its error.
pub open spec fn result_view<T: DeepView, E: DeepView>(res: Result<T, E>) -> Result<T::V, E::V> {
    match res {
        Ok(value) => Ok(value.deep_view()),
        Err(error) => Err(error.deep_view()),
    }
}

} // verus!

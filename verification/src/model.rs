//! Mathematical values for results, and for the errors of outside
//! components.

use std::fmt::Display;
use vstd::prelude::*;
use vstd::string::to_string_from_display_ensures;

verus! {

/// A result as a mathematical value: the view of what it holds, on either
/// side.
pub open spec fn result_view<T: DeepView, E: DeepView>(result: Result<T, E>) -> Result<T::V, E::V> {
    match result {
        Ok(value) => Ok(value.deep_view()),
        Err(error) => Err(error.deep_view()),
    }
}

/// Whether `text` is what `error` shows: whenever `to_string` renders the
/// error, it renders this text.
pub open spec fn displays_as<E: Display>(error: &E, text: Seq<char>) -> bool {
    forall|shown: String| #[trigger]
        to_string_from_display_ensures::<E>(error, shown) ==> shown@ == text
}

} // verus!

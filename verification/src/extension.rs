//! Small extensions to `Option`, used by the validated MIDI byte types.

use vstd::prelude::*;

verus! {

/// Conditional and fallible constructors for optional values.
pub trait OptionExt<T>: Sized {
    /// Whether a value is present.
    spec fn spec_is_some(&self) -> bool;

    /// The value present, meaningful only when `spec_is_some` holds.
    spec fn spec_value(&self) -> T;

    /// Builds `Some(fa())` when `cond` holds, `None` otherwise.
    fn when<F: Fn() -> T>(cond: bool, fa: F) -> (r: Option<T>)
        requires
            cond ==> call_requires(fa, ()),
        ensures
            cond ==> (r matches Some(v) && call_ensures(fa, (), v)),
            !cond ==> r is None,
    ;

    /// Turns an empty value into `Err(on_empty())`, a present one into `Ok`.
    fn to_result<E, F: Fn() -> E>(self, on_empty: F) -> (r: Result<T, E>)
        requires
            !self.spec_is_some() ==> call_requires(on_empty, ()),
        ensures
            self.spec_is_some() ==> (r matches Ok(v) && v == self.spec_value()),
            !self.spec_is_some() ==> (r matches Err(e) && call_ensures(on_empty, (), e)),
    ;
}

impl<T> OptionExt<T> for Option<T> {
    open spec fn spec_is_some(&self) -> bool {
        self is Some
    }

    open spec fn spec_value(&self) -> T {
        self->0
    }

    fn when<F: Fn() -> T>(cond: bool, fa: F) -> (r: Option<T>) {
        if cond {
            Some(fa())
        } else {
            None
        }
    }

    fn to_result<E, F: Fn() -> E>(self, on_empty: F) -> (r: Result<T, E>) {
        match self {
            Some(v) => Ok(v),
            None => Err(on_empty()),
        }
    }
}

} // verus!

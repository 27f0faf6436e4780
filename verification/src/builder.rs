//! Two-phase construction: collect the fields, then validate.

use crate::errors::ValidationError;
use core::marker::PhantomData;
use vstd::prelude::*;
use vstd::std_specs::convert::FromSpecImpl;

verus! {

/// A representation that knows whether it is complete.
pub trait Validate: Sized {
    /// Whether every mandatory field is present.
    spec fn is_valid(&self) -> bool;

    /// Hands the value back if it is complete, and refuses it otherwise.
    fn validate(self) -> (res: Result<Self, ValidationError>)
        ensures
            res == (if self.is_valid() {
                Ok::<Self, ValidationError>(self)
            } else {
                Err::<Self, ValidationError>(ValidationError)
            }),
    ;
}

/// A builder inside which another builder can be opened.
pub trait ParentBuilder {

}

/// The parent of a builder that stands alone.
#[derive(Clone, Copy, Debug, PartialEq, Eq)]
pub struct Nil;

impl ParentBuilder for Nil {

}

/// An accumulator for a representation of type `T`, opened inside a builder
/// of type `U`.
pub struct Builder<T: Validate, U: ParentBuilder = Nil> {
    pub(crate) body: T,
    pub(crate) parent: PhantomData<U>,
}

impl<T: Validate, U: ParentBuilder> Builder<T, U> {
    /// The representation as far as it has been filled.
    pub open(crate) spec fn body(&self) -> T {
        self.body
    }

    /// Validates what was collected and hands it out.
    ///
    /// The representation comes back unchanged when it is complete; when a
    /// mandatory field is missing, nothing comes back but the refusal.
    pub fn build(self) -> (res: Result<T, ValidationError>)
        ensures
            res == (if self.body().is_valid() {
                Ok::<T, ValidationError>(self.body())
            } else {
                Err::<T, ValidationError>(ValidationError)
            }),
    {
        self.body.validate()
    }
}

impl<T: Validate> From<T> for Builder<T, Nil> {
    /// A builder that starts from `body`.
    fn from(body: T) -> (builder: Self)
        ensures
            builder.body() == body,
    {
        Builder { body, parent: PhantomData }
    }
}

impl<T: Validate> FromSpecImpl<T> for Builder<T, Nil> {
    open spec fn obeys_from_spec() -> bool {
        true
    }

    closed spec fn from_spec(body: T) -> Self {
        Builder { body, parent: PhantomData }
    }
}

} // verus!

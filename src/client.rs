//! The error of the object store.

use vstd::prelude::*;

verus! {

/// An object-store failure, as text.
#[derive(Clone, Debug)]
pub struct S3ExampleError(pub String);

impl S3ExampleError {
    pub fn new(value: String) -> (r: S3ExampleError)
        ensures
            r.0@ == value@,
    {
        S3ExampleError(value)
    }

    /// The text of the failure.
    pub fn message(&self) -> (r: &String)
        ensures
            r@ == self.0@,
    {
        &self.0
    }
}

} // verus!

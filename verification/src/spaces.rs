//! Errors and marker components of object spaces.
use vstd::prelude::*;

verus! {

/// Possible errors when attempting to access an object.
#[derive(Clone, Copy, Debug, PartialEq, Eq, Structural)]
pub enum ObjectError {
    NoSuchObject,
    WrongSpace,
}

impl ObjectError {
    /// The message that describes the error.
    pub fn message(&self) -> (m: &'static str)
        ensures
            m@ == (match self {
                ObjectError::NoSuchObject => "no such object"@,
                ObjectError::WrongSpace => "wrong space"@,
            }),
    {
        match self {
            ObjectError::NoSuchObject => "no such object",
            ObjectError::WrongSpace => "wrong space",
        }
    }
}

/// A marker component requiring an "update" call on an object that has a table of script
/// callbacks.
#[derive(Clone, Copy, Debug, PartialEq, Eq, Structural)]
pub struct UpdateHookComponent;

} // verus!

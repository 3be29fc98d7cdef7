//! The error of every operation: a message for the user.

use vstd::prelude::*;

verus! {

/// Why an operation failed.
#[derive(Debug)]
pub struct BootError {
    /// What the user is told.
    pub message: String,
}

impl View for BootError {
    type V = Seq<char>;

    open spec fn view(&self) -> Seq<char> {
        self.message@
    }
}

impl Clone for BootError {
    fn clone(&self) -> (r: Self)
        ensures
            r == *self,
    {
        BootError { message: self.message.clone() }
    }
}

impl BootError {
    /// The error with the given message.
    pub fn new(message: &str) -> (r: Self)
        ensures
            r@ == message@,
    {
        BootError { message: message.to_string() }
    }

    /// The error with the given message.
    pub fn from_message(message: String) -> (r: Self)
        ensures
            r@ == message@,
    {
        BootError { message }
    }
}

/// A result, with its error as the message.
pub open spec fn outcome(r: Result<(), BootError>) -> Result<(), Seq<char>> {
    match r {
        Ok(()) => Ok(()),
        Err(e) => Err(e@),
    }
}

} // verus!

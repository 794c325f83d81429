use vstd::prelude::*;

verus! {

/// An error that carries its message and nothing else.
#[derive(Debug)]
pub struct CustomError(pub String);

impl CustomError {
    /// Makes an error from a message.
    pub fn new(message: &str) -> (e: CustomError)
        ensures
            e.0@ == message@,
    {
        CustomError(message.to_owned())
    }

    /// The text the error shows: its message, unchanged.
    pub fn to_string(&self) -> (s: String)
        ensures
            s@ == self.0@,
    {
        self.0.clone()
    }
}

} // verus!

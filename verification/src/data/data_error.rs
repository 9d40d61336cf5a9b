//! A plain error that carries a message.

use vstd::prelude::*;

verus! {

/// An error of the data layer, described by its message.
#[derive(Debug)]
pub struct DataError {
    message: String,
}

impl View for DataError {
    type V = Seq<char>;

    closed spec fn view(&self) -> Seq<char> {
        self.message@
    }
}

impl DataError {
    /// An error with the given message.
    pub fn new(message: &str) -> (r: Self)
        ensures
            r@ == message@,
    {
        DataError { message: String::from_str(message) }
    }

    /// The message of the error.
    pub fn get_message(&self) -> (r: &str)
        ensures
            r@ == self@,
    {
        self.message.as_str()
    }
}

} // verus!

//! A plain error that carries a message.

use vstd::prelude::*;

verus! {

/// An error described by its message alone.
#[derive(Debug)]
pub struct ErrorX {
    details: String,
}

impl View for ErrorX {
    type V = Seq<char>;

    /// The message.
    closed spec fn view(&self) -> Seq<char> {
        self.details@
    }
}

impl ErrorX {
    /// An error with the message `msg`.
    pub fn _new(msg: &str) -> (e: ErrorX)
        ensures
            e@ == msg@,
    {
        ErrorX { details: msg.to_owned() }
    }

    /// A boxed error with the message `msg`.
    pub fn new_box(msg: &str) -> (e: Box<ErrorX>)
        ensures
            e@ == msg@,
    {
        Box::new(ErrorX { details: msg.to_owned() })
    }

    /// The message.
    pub fn description(&self) -> (r: &str)
        ensures
            r@ == self@,
    {
        self.details.as_str()
    }

    /// The message, as the error is shown to the user.
    pub fn to_string(&self) -> (r: String)
        ensures
            r@ == self@,
    {
        self.details.clone()
    }
}

} // verus!

//! The error that the bot's handlers report.
use vstd::prelude::*;

verus! {

/// An error with a message for the logs.
#[derive(Debug)]
pub struct BidibipError {
    pub msg: String,
}

impl BidibipError {
    /// An error carrying the given message.
    pub fn msg(message: &str) -> (r: BidibipError)
        ensures
            r.msg@ == message@,
    {
        BidibipError { msg: message.to_owned() }
    }

    /// An error carrying the given message, taken as it is.
    pub fn from_string(message: String) -> (r: BidibipError)
        ensures
            r.msg@ == message@,
    {
        BidibipError { msg: message }
    }

    /// The message, as the error displays it.
    pub fn message(&self) -> (r: &str)
        ensures
            r@ == self.msg@,
    {
        self.msg.as_str()
    }
}

/// Reports whether an operation went through; handlers use it on results whose failure they only log.
pub trait ResultDebug {
    /// True when the operation succeeded.
    fn on_fail(&self, message: &str) -> bool;
}

impl<T, E> ResultDebug for Result<T, E> {
    fn on_fail(&self, message: &str) -> (r: bool)
        ensures
            r == self is Ok,
    {
        self.is_ok()
    }
}

} // verus!

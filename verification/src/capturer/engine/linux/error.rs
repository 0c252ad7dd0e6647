use vstd::prelude::*;

verus! {

/// An error of the Linux capture back end, carrying a message.
#[derive(Debug)]
pub struct LinCapError {
    msg: String,
}

impl View for LinCapError {
    type V = Seq<char>;

    /// The error's message.
    closed spec fn view(&self) -> Seq<char> {
        self.msg@
    }
}

impl LinCapError {
    /// Creates an error with the given message.
    pub fn new(msg: String) -> (err: Self)
        ensures
            err@ == msg@,
    {
        Self { msg }
    }

    /// The error's message.
    pub fn message(&self) -> (msg: &str)
        ensures
            msg@ == self@,
    {
        self.msg.as_str()
    }
}

} // verus!

use vstd::prelude::*;

verus! {

/// An error carrying a human-readable message.
#[derive(Debug)]
pub struct ExampleError {
    pub msg: String,
}

impl ExampleError {
    /// Builds an error whose message is `d`.
    pub fn new(d: &str) -> (r: ExampleError)
        ensures
            r.msg@ == d@,
    {
        ExampleError { msg: String::from_str(d) }
    }

    /// The message of this error.
    pub fn message(&self) -> (r: String)
        ensures
            r@ == self.msg@,
    {
        self.msg.clone()
    }
}

} // verus!

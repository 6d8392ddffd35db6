//! The error type of the site generator.
use vstd::prelude::*;

verus! {

/// A failure of the site generator, with its rendered message.
pub struct GenError {
    pub msg: String,
}

impl GenError {
    /// The error for an I/O failure whose cause reads `cause`.
    pub fn io(cause: &str) -> (r: GenError)
        ensures
            r.msg@ == "IO Error: "@ + cause@,
    {
        GenError { msg: String::from_str("IO Error: ").concat(cause) }
    }
}

} // verus!

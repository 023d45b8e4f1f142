use vstd::prelude::*;

verus! {

/// A failure of the byte source, carried as its description.
#[derive(Debug, Clone, Copy, PartialEq, Eq)]
pub struct Error(pub &'static str);

impl Error {
    /// The description, as it is displayed.
    pub fn message(&self) -> (r: &'static str)
        ensures
            r@ == self.0@,
    {
        self.0
    }
}

} // verus!

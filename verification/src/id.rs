use vstd::prelude::*;

verus! {

/// An opaque identifier a storage backend assigns to a stored image.
#[derive(Clone, Copy, PartialEq, Eq, Structural, Debug)]
pub struct ImageId(pub i32);

impl ImageId {
    /// The raw integer behind the identifier.
    pub fn inner(self) -> (r: i32)
        ensures
            r == self.0,
    {
        self.0
    }
}

} // verus!

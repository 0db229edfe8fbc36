use vstd::prelude::*;

use crate::id::ImageId;

verus! {

/// An upload outcome as reported to the caller: either the assigned ids,
/// in request order, or a structured error message.
#[derive(Debug, PartialEq, Eq)]
pub enum Response {
    Error(String),
    Ids(Vec<ImageId>),
}

} // verus!

//! The classes of answer that a service gives for an outcome.

use vstd::prelude::*;

verus! {

/// The class of answer that an outcome is reported with.
#[derive(Clone, Copy, Debug, PartialEq, Eq, Structural)]
pub enum ResponseStatus {
    /// The request was carried out.
    Success,
    /// The request was refused for what it asked.
    BadRequest,
    /// The request named an account that does not exist.
    NotFound,
}

} // verus!

//! Clients.

use vstd::prelude::*;

verus! {

/// A client, known by a 16-bit number. Two clients are the same client when
/// their numbers are equal.
#[derive(Copy, Clone, PartialEq, Eq, PartialOrd, Ord, Debug, Hash)]
pub struct Client(pub u16);

impl Client {
    /// The client with the number `id`.
    pub fn new(id: u16) -> (r: Self)
        ensures
            r == Client(id),
    {
        Self(id)
    }

    /// The client's number.
    pub fn id(&self) -> (r: u16)
        ensures
            r == self.0,
    {
        self.0
    }
}

} // verus!

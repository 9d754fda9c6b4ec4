//! The two kinds of connection to the store.

use vstd::prelude::*;

verus! {

/// What a connection to the store is for. A reading connection may go to a
/// read-only replica; a writing one goes to a store that takes updates.
#[derive(Debug, Clone, Copy, PartialEq, Eq)]
pub enum ConnectionType {
    Read,
    Write,
}

impl ConnectionType {
    /// The name of the environment variable that holds the store's address
    /// for connections of this kind.
    pub open spec fn spec_variable(self) -> Seq<char> {
        match self {
            ConnectionType::Read => "DB_READ_URL"@,
            ConnectionType::Write => "DB_WRITE_URL"@,
        }
    }

    /// The name of the environment variable that holds the store's address
    /// for connections of this kind.
    pub fn variable(&self) -> (name: &'static str)
        ensures
            name@ == self.spec_variable(),
    {
        match self {
            ConnectionType::Read => "DB_READ_URL",
            ConnectionType::Write => "DB_WRITE_URL",
        }
    }
}

} // verus!

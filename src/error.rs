use vstd::prelude::*;

verus! {

/// The kind of record that a read found missing.
#[derive(Clone, Copy, Debug, PartialEq, Eq)]
pub enum Entity {
    Config,
    Asset,
    Price,
}

/// Why an operation was rejected; a rejected operation leaves the store as it was.
#[derive(Clone, Copy, Debug, PartialEq, Eq)]
pub enum ContractError {
    /// A record that the operation reads is absent.
    NotFound(Entity),
    /// The caller does not hold the role that the operation requires.
    Unauthorized,
    /// An asset is already registered under the symbol.
    AlreadyExists,
}

} // verus!

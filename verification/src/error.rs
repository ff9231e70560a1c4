use vstd::prelude::*;

verus! {

/// The four terminal error kinds surfaced by registry operations.
///
/// `DeviceNotFound` doubles as the rejection for an insert whose device name
/// already exists; that reuse is kept as the store's observable behaviour.
#[derive(Clone, Copy, Debug, PartialEq, Eq, Structural)]
pub enum RegistryError {
    /// The referenced registry name has no matching entry in the contract.
    RegistryNotFound,
    /// No device with the given name (also returned on an insert collision).
    DeviceNotFound,
    /// The caller identity does not match the registry's `owner_id`.
    UnauthorizedAccess,
    /// The supplied registry name exceeds the 64-character bound.
    NameTooLong,
}

} // verus!

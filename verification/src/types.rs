use vstd::prelude::*;

verus! {

/// Selects one of the three storage media.
#[derive(Clone, Copy, Debug, PartialEq, Eq, Structural)]
pub enum StorageLocation {
    /// Persistent and always available.
    Internal,
    /// Persistent, but absent when the device is powered over NFC.
    External,
    /// Backed by RAM: lost on reset.
    Volatile,
}

/// What kind of key a blob of key material is.
#[derive(Clone, Copy, Debug, PartialEq, Eq, Structural)]
pub enum KeyKind {
    Ed25519,
    Entropy32,
    P256,
    SharedSecret32,
    SymmetricKey16,
    SymmetricKey32,
    Symmetric32Nonce12,
}

} // verus!

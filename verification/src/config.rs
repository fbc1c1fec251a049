use vstd::prelude::*;

verus! {

/// The largest number of bytes of key material that a serialized key holds.
pub const MAX_SERIALIZED_KEY_LENGTH: usize = 128;

/// The byte that separates the components of a path.
pub const PATH_SEPARATOR: u8 = 47;

} // verus!

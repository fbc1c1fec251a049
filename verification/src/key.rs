//! The form in which a cryptographic key is persisted: its kind and a
//! bounded buffer of key material.
use vstd::prelude::*;
use vstd::std_specs::cmp::PartialEqSpecImpl;
use vstd::std_specs::convert::TryFromSpecImpl;
use crate::config::MAX_SERIALIZED_KEY_LENGTH;
use crate::error::Error;
use crate::types::KeyKind;

verus! {

/// The byte buffer of fixed capacity of the crate `heapless-bytes`. What it
/// holds is known through [`material_bytes`] alone.
#[verifier::external_type_specification]
#[verifier::external_body]
pub struct ExBytes<const N: usize>(heapless_bytes::Bytes<N>);

/// The buffer that holds the material of a serialized key.
pub type KeyMaterial = heapless_bytes::Bytes<MAX_SERIALIZED_KEY_LENGTH>;

/// The bytes that a buffer of key material holds, in order.
pub uninterp spec fn material_bytes(material: KeyMaterial) -> Seq<u8>;

/// Calls `Bytes::try_from` on a slice, which fills a new buffer from the
/// slice. Not proved: that it succeeds exactly when the slice is no longer
/// than the buffer's capacity, and that the buffer then holds the bytes of
/// the slice.
#[verifier::external_body]
fn material_from_slice(bytes: &[u8]) -> (filled: Result<KeyMaterial, ()>)
    ensures
        filled is Ok <==> bytes@.len() <= MAX_SERIALIZED_KEY_LENGTH,
        filled is Ok ==> material_bytes(filled->Ok_0) == bytes@,
{
    KeyMaterial::try_from(bytes)
}

/// Calls `Bytes::as_slice`. Not proved: that the slice holds the bytes of
/// the buffer, which are never more than its capacity.
#[verifier::external_body]
fn material_as_slice(material: &KeyMaterial) -> (bytes: &[u8])
    ensures
        bytes@ == material_bytes(*material),
        bytes@.len() <= MAX_SERIALIZED_KEY_LENGTH,
{
    material.as_slice()
}

/// Calls `Bytes::clone`. Not proved: that the copy holds the same bytes.
#[verifier::external_body]
fn material_clone(material: &KeyMaterial) -> (copy: KeyMaterial)
    ensures
        material_bytes(copy) == material_bytes(*material),
{
    material.clone()
}

/// A cryptographic key as it is persisted.
#[derive(Debug)]
pub struct SerializedKey {
    pub kind: KeyKind,
    pub value: KeyMaterial,
}

/// A serialized key with its material as a sequence of bytes.
pub struct SerializedKeyView {
    pub kind: KeyKind,
    pub value: Seq<u8>,
}

impl View for SerializedKey {
    type V = SerializedKeyView;

    open spec fn view(&self) -> SerializedKeyView {
        SerializedKeyView { kind: self.kind, value: material_bytes(self.value) }
    }
}

impl SerializedKey {
    /// The key material, which is never longer than
    /// `MAX_SERIALIZED_KEY_LENGTH`.
    pub fn material(&self) -> (bytes: &[u8])
        ensures
            bytes@ == self@.value,
            bytes@.len() <= MAX_SERIALIZED_KEY_LENGTH,
    {
        material_as_slice(&self.value)
    }
}

impl Clone for SerializedKey {
    fn clone(&self) -> (copy: Self)
        ensures
            copy@ == self@,
    {
        SerializedKey { kind: self.kind, value: material_clone(&self.value) }
    }
}

impl PartialEqSpecImpl for SerializedKey {
    open spec fn obeys_eq_spec() -> bool {
        true
    }

    open spec fn eq_spec(&self, other: &SerializedKey) -> bool {
        self@ == other@
    }
}

impl PartialEq for SerializedKey {
    /// Two serialized keys are equal when they are of one kind and hold the
    /// same material.
    fn eq(&self, other: &SerializedKey) -> (equal: bool) {
        let mine = self.material();
        let theirs = other.material();
        if self.kind != other.kind || mine.len() != theirs.len() {
            return false;
        }
        let mut i: usize = 0;
        while i < mine.len()
            invariant
                i <= mine@.len(),
                mine@.len() == theirs@.len(),
                mine@ == self@.value,
                theirs@ == other@.value,
                self.kind == other.kind,
                forall|j: int| 0 <= j < i ==> mine@[j] == theirs@[j],
            decreases mine@.len() - i,
        {
            if mine[i] != theirs[i] {
                assert(mine@[i + 0] != theirs@[i + 0]);
                return false;
            }
            i += 1;
        }
        assert(mine@ =~= theirs@);
        true
    }
}

impl Eq for SerializedKey {

}

/// What `try_from` returns is stated by its own `ensures`: the material of
/// the key it makes is known by its bytes alone, so no spec function can name
/// that key, and none is claimed here.
impl<'a> TryFromSpecImpl<(KeyKind, &'a [u8])> for SerializedKey {
    open spec fn obeys_try_from_spec() -> bool {
        false
    }

    open spec fn try_from_spec(from: (KeyKind, &'a [u8])) -> Result<Self, Error> {
        Err(Error::InternalError)
    }
}

impl<'a> TryFrom<(KeyKind, &'a [u8])> for SerializedKey {
    type Error = Error;

    /// The serialized key of the given kind that holds a copy of the given
    /// material, or `InternalError` where the material is longer than
    /// `MAX_SERIALIZED_KEY_LENGTH`.
    fn try_from(from: (KeyKind, &'a [u8])) -> (key: Result<Self, Error>)
        ensures
            key is Ok <==> from.1@.len() <= MAX_SERIALIZED_KEY_LENGTH,
            key is Ok ==> key->Ok_0@ == (SerializedKeyView { kind: from.0, value: from.1@ }),
            key is Err ==> key->Err_0 == Error::InternalError,
    {
        match material_from_slice(from.1) {
            Ok(value) => Ok(SerializedKey { kind: from.0, value }),
            Err(_) => Err(Error::InternalError),
        }
    }
}

} // verus!

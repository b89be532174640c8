//! Type identity: the per-type token that keys the store.
//!
//! Each storable type is identified by its runtime `core::any::TypeId`, an
//! opaque token that is equal between two types exactly when they are the
//! same type.  The store does not use the token directly as a table key;
//! it first derives a 64-bit key from it, written here as the
//! uninterpreted function [`type_key`].
use vstd::prelude::*;

verus! {

/// Declares std's `core::any::TypeId` to the verifier: an opaque per-type
/// token, equal between two values exactly when they denote the same type.
#[verifier::external_type_specification]
#[verifier::external_body]
pub struct ExTypeId(core::any::TypeId);

/// Relies on `TypeId::of`: the token of a compile-time type.  No two calls
/// are related by contract, since a type has no specification-level name
/// to pin the token to; within a process the tokens are stable in fact.
pub assume_specification<T: ?Sized + 'static>[ core::any::TypeId::of::<T> ]() -> (r: core::any::TypeId);

/// The 64-bit table key derived from a type identifier.  The derivation is
/// a fixed deterministic digest of the identifier, so equal identifiers
/// always yield equal keys; nothing more is assumed of it.
pub uninterp spec fn type_key(id: core::any::TypeId) -> u64;

/// Relies on `std::hash::DefaultHasher` over `TypeId`'s `Hash`
/// implementation: hashers created through `DefaultHasher::new` are
/// documented to be identical to one another, so the digest is a pure
/// function of the identifier alone, which is all the contract states.
#[verifier::external_body]
pub(crate) fn key_for(id: &core::any::TypeId) -> (r: u64)
    ensures
        r == type_key(*id),
{
    let mut hasher = std::hash::DefaultHasher::new();
    std::hash::Hash::hash(id, &mut hasher);
    std::hash::Hasher::finish(&hasher)
}

/// A type that may be stored in the map: any owned type with a stable
/// process-lifetime identity that is safe to move across threads.
pub trait Type: 'static + Send + Sync {
    /// Returns the runtime identity token of `Self`.
    fn id() -> core::any::TypeId {
        core::any::TypeId::of::<Self>()
    }
}

impl<T: 'static + Send + Sync> Type for T {

}

/// Tag standing for a value whose concrete type is not statically known:
/// the sentinel type of the raw, dynamically typed path.
pub struct RawType;

} // verus!

//! Domain entities and their system identifiers.

use vstd::prelude::*;

verus! {

/// A domain entity, identified by its system identifier type.
pub trait Entity {
    type SysId;
}

/// A system identifier scheme: a type that can mint fresh identifiers.
/// Minting typically draws on a clock or a process-wide generator, so
/// nothing is promised of the minted value.
pub trait SysId: Sized {
    fn generate() -> Self;
}

} // verus!

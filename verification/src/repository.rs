//! Outcomes of persistence operations, as values a caller must inspect:
//! saving may conflict, deleting may find nothing, updating may do either.

use vstd::prelude::*;

verus! {

/// Outcome of saving a new entity.
#[must_use]
pub enum SaveEffect {
    Effected,
    Conflict,
}

/// Outcome of deleting an entity.
#[must_use]
pub enum DeleteEffect {
    Effected,
    NotFound,
}

/// Outcome of updating an existing entity.
#[must_use]
pub enum UpdateEffect {
    Effected,
    Conflict,
    NotFound,
}

impl UpdateEffect {
    pub fn is_not_found(&self) -> (r: bool)
        ensures
            r == (*self is NotFound),
    {
        matches!(self, UpdateEffect::NotFound)
    }

    pub fn is_ok(&self) -> (r: bool)
        ensures
            r == (*self is Effected),
    {
        matches!(self, UpdateEffect::Effected)
    }

    pub fn is_effected(&self) -> (r: bool)
        ensures
            r == (*self is Effected),
    {
        self.is_ok()
    }

    pub fn is_conflict(&self) -> (r: bool)
        ensures
            r == (*self is Conflict),
    {
        matches!(self, UpdateEffect::Conflict)
    }

    /// Discards the effect on purpose, satisfying the must-use demand.
    pub fn ignore_effect(self) {
    }
}

impl SaveEffect {
    pub fn is_conflict(&self) -> (r: bool)
        ensures
            r == (*self is Conflict),
    {
        matches!(self, SaveEffect::Conflict)
    }

    pub fn is_ok(&self) -> (r: bool)
        ensures
            r == (*self is Effected),
    {
        matches!(self, SaveEffect::Effected)
    }

    pub fn is_effected(&self) -> (r: bool)
        ensures
            r == (*self is Effected),
    {
        self.is_ok()
    }

    /// Discards the effect on purpose, satisfying the must-use demand.
    pub fn ignore_effect(self) {
    }
}

impl DeleteEffect {
    pub fn is_not_found(&self) -> (r: bool)
        ensures
            r == (*self is NotFound),
    {
        matches!(self, DeleteEffect::NotFound)
    }

    pub fn is_ok(&self) -> (r: bool)
        ensures
            r == (*self is Effected),
    {
        matches!(self, DeleteEffect::Effected)
    }

    pub fn is_effected(&self) -> (r: bool)
        ensures
            r == (*self is Effected),
    {
        self.is_ok()
    }

    /// Discards the effect on purpose, satisfying the must-use demand.
    pub fn ignore_effect(self) {
    }
}

} // verus!

//! Conversions between resource models and stored entities.

use vstd::prelude::*;

verus! {

/// A model that can be stored as an entity.
pub trait ToEntity<E> {
    fn to_entity(&self) -> E;
}

/// A model that can be read back from an entity.
pub trait FromEntity<E>: Sized {
    fn from_entity(entity: &E) -> Self;
}

} // verus!

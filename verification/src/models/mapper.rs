//! The mapping between a stored model and its domain entity.
use vstd::prelude::*;

verus! {

/// A model that maps to and from the domain entity `E`, field by field.
pub trait ModelMapper<E>: Sized {
    /// The model of an entity.
    spec fn model_of(entity: E) -> Self;

    /// The entity of a model.
    spec fn entity_of(model: Self) -> E;

    fn from_entity(entity: E) -> (res: Self)
        ensures
            res == Self::model_of(entity),
    ;

    fn to_entity(&self) -> (res: E)
        ensures
            res == Self::entity_of(*self),
    ;
}

} // verus!

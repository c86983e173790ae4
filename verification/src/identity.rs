//! Type identity and type-erased storage.
//!
//! Modules are keyed by their type and endpoints are matched by their
//! payload type, so both travel as `TypeId` values. A value whose type was
//! forgotten is kept as an `Erased`, which gives it back only to a reader
//! that names the type it was made from.

use vstd::prelude::*;
use std::any::Any;
use std::any::TypeId;
use std::sync::Arc;
use crate::event::EventHandler;
use crate::event::InnerEventHandler;

verus! {

/// `std::any::TypeId`: the identity of a type, as a plain comparable value.
#[verifier::external_type_specification]
#[verifier::external_body]
pub struct ExTypeId(TypeId);

/// A value of a forgotten type, shared by reference count. Holds
/// `Arc<dyn Any + Send + Sync>`, a trait object of three traits.
#[verifier::external_body]
pub struct Erased {
    inner: Arc<dyn Any + Send + Sync>,
}

/// `TypeId::of`: the identity of `T`.
#[verifier::external_body]
pub(crate) fn type_id_of<T: 'static>() -> (id: TypeId)
{
    TypeId::of::<T>()
}

/// `PartialEq::eq` of `TypeId`: two identities are equal exactly when they
/// are the same value.
#[verifier::external_body]
pub(crate) fn same_type(a: &TypeId, b: &TypeId) -> (same: bool)
    ensures
        same == (*a == *b),
{
    a == b
}

/// `Arc::new`, unsized to `Arc<dyn Any + Send + Sync>`: forgets the type of
/// a state value.
#[verifier::external_body]
pub(crate) fn erase_state<T: Send + Sync + 'static>(state: T) -> (erased: Erased)
{
    Erased { inner: Arc::new(state) }
}

/// The unsizing of `Arc<InnerEventHandler<T>>` to
/// `Arc<dyn Any + Send + Sync>`: forgets the payload type of a bus.
#[verifier::external_body]
pub(crate) fn erase_bus<T: Send + 'static>(bus: EventHandler<T>) -> (erased: Erased)
{
    Erased { inner: bus.inner }
}

/// `<dyn Any>::downcast_ref` to `T`: the state, if it was made from a `T`.
#[verifier::external_body]
pub(crate) fn recall_state<T: 'static>(erased: &Erased) -> (state: Option<&T>)
{
    erased.inner.downcast_ref::<T>()
}

/// `<dyn Any>::downcast_ref` to `InnerEventHandler<T>`: the bus, if it
/// carries `T`.
#[verifier::external_body]
pub(crate) fn recall_bus<T: 'static>(erased: &Erased) -> (bus: Option<&InnerEventHandler<T>>)
{
    erased.inner.downcast_ref::<InnerEventHandler<T>>()
}

} // verus!

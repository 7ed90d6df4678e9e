//! Exclusive ownership with handles: one keeper owns a value, and any number
//! of tags can reach it for as long as the keeper lives.

use super::identity::{Identity, IdentitySource};
use crate::error::Error;
use async_object::{CArc, WCArc};
use vstd::prelude::*;

verus! {

/// The owning pointer of `async_object`: the value lives as long as one of
/// these points to it.
#[verifier::external_type_specification]
#[verifier::external_body]
#[verifier::reject_recursive_types(T)]
pub struct ExCArc<T: 'static>(CArc<T>);

/// The non-owning pointer of `async_object`: it does not keep the value
/// alive.
#[verifier::external_type_specification]
#[verifier::external_body]
#[verifier::reject_recursive_types(T)]
pub struct ExWCArc<T: 'static>(WCArc<T>);

/// Calls `CArc::new`, which moves the value behind a lock and returns the
/// pointer that owns it. Nothing is assumed of the result.
#[verifier::external_body]
fn object_new<T: 'static>(value: T) -> CArc<T> {
    CArc::new(value)
}

/// Calls `CArc::downgrade`, which makes a non-owning pointer to the same
/// value. Nothing is assumed of the result.
#[verifier::external_body]
fn object_downgrade<T: 'static>(object: &CArc<T>) -> WCArc<T> {
    object.downgrade()
}

/// Calls `WCArc::upgrade`, which returns an owning pointer if the value is
/// still alive and `None` if it is not. Which of the two it is depends on
/// what other tasks have done, so nothing is assumed of the result.
#[verifier::external_body]
fn object_upgrade<T: 'static>(object: &WCArc<T>) -> Option<CArc<T>> {
    object.upgrade()
}

/// Calls `WCArc::clone`, which makes another non-owning pointer to the same
/// value. Nothing is assumed of the result.
#[verifier::external_body]
fn object_share<T: 'static>(object: &WCArc<T>) -> WCArc<T> {
    object.clone()
}

/// What a tag answers, given what became of its value.
pub open spec fn answer_for<V: 'static>(object: Option<CArc<V>>) -> Result<CArc<V>, Error> {
    match object {
        Some(object) => Ok(object),
        None => Err(Error::ActorGone),
    }
}

/// What a tag answers, given what became of its value: the value, or the
/// news that it is gone.
pub fn found<V: 'static>(object: Option<CArc<V>>) -> (answer: Result<CArc<V>, Error>)
    ensures
        answer == answer_for(object),
{
    match object {
        Some(object) => Ok(object),
        None => Err(Error::ActorGone),
    }
}

/// The owner of a value that other tasks reach through tags. The value
/// lives as long as its keeper, and beyond that only while an operation that
/// reached it through a tag is still at work on it.
#[verifier::reject_recursive_types(V)]
pub struct Keeper<V: 'static> {
    id: Identity,
    object: CArc<V>,
}

/// A handle on a kept value. It can be copied freely and does not keep the
/// value alive: once the keeper is gone, the tag answers
/// [`Error::ActorGone`].
#[verifier::reject_recursive_types(V)]
pub struct Tag<V: 'static> {
    id: Identity,
    object: WCArc<V>,
}

impl<V: 'static> Keeper<V> {
    /// The identity of the kept value.
    pub closed spec fn identity(&self) -> Identity {
        self.id
    }

    /// Takes ownership of `value` under an identity minted for it from
    /// `ids`. If `ids` has no identity left to give, the value comes back.
    pub fn new(ids: &mut IdentitySource, value: V) -> (made: Result<Self, V>)
        ensures
            match made {
                Ok(keeper) => IdentitySource::mints(*old(ids), *final(ids), keeper.identity()),
                Err(unkept) => unkept == value && old(ids).exhausted() && *final(ids) == *old(ids),
            },
    {
        match ids.mint() {
            Some(id) => Ok(Keeper { id, object: object_new(value) }),
            None => Err(value),
        }
    }

    /// The identity of the kept value.
    pub fn id(&self) -> (id: Identity)
        ensures
            id == self.identity(),
    {
        self.id
    }

    /// A new handle on the kept value.
    pub fn tag(&self) -> (tag: Tag<V>)
        ensures
            tag.identity() == self.identity(),
    {
        Tag { id: self.id, object: object_downgrade(&self.object) }
    }

    /// The pointer through which the keeper owns its value.
    pub closed spec fn pointer(&self) -> CArc<V> {
        self.object
    }

    /// The kept value, behind its lock: the keeper's own pointer to it.
    pub fn object(&self) -> (object: &CArc<V>)
        ensures
            *object == self.pointer(),
    {
        &self.object
    }
}

impl<V: 'static> Tag<V> {
    /// The identity of the value that the tag stands for.
    pub closed spec fn identity(&self) -> Identity {
        self.id
    }

    /// The identity of the value that the tag stands for.
    pub fn id(&self) -> (id: Identity)
        ensures
            id == self.identity(),
    {
        self.id
    }

    /// That this tag's pointer was called for its value, and the call gave
    /// `outcome`. This says which call gave the outcome and no more.
    pub closed spec fn upgraded(&self, outcome: Option<CArc<V>>) -> bool {
        object_upgrade::<V>.ensures((&self.object,), outcome)
    }

    /// Reaches for the value: the value behind its lock while it is alive,
    /// and [`Error::ActorGone`] from then on. The answer is what [`found`]
    /// makes of what this tag's own pointer gave. The pointer that comes
    /// back keeps the value alive, so it is to be dropped when the operation
    /// it was fetched for is done.
    pub fn object(&self) -> (answer: Result<CArc<V>, Error>)
        ensures
            answer matches Err(error) ==> error == Error::ActorGone,
            self.upgraded(
                match answer {
                    Ok(object) => Some(object),
                    Err(_) => None,
                },
            ),
    {
        found(object_upgrade(&self.object))
    }
}

impl<V: 'static> Clone for Tag<V> {
    /// Another handle on the same value.
    fn clone(&self) -> (tag: Self)
        ensures
            tag.identity() == self.identity(),
    {
        Tag { id: self.id, object: object_share(&self.object) }
    }
}

impl<V: 'static> PartialEq for Tag<V> {
    /// Whether two tags stand for the same value. That is a matter of
    /// identity alone, whatever the value holds.
    fn eq(&self, other: &Self) -> (same: bool) {
        self.id == other.id
    }
}

impl<V: 'static> vstd::std_specs::cmp::PartialEqSpecImpl for Tag<V> {
    open spec fn obeys_eq_spec() -> bool {
        true
    }

    open spec fn eq_spec(&self, other: &Self) -> bool {
        self.identity() == other.identity()
    }
}

} // verus!

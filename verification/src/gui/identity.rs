//! Identities: stable, comparable names for the entities of an interface.

use vstd::prelude::*;

verus! {

/// The name of one entity. It is given out once, by an [`IdentitySource`],
/// and copies of it denote the same entity: two identities are equal exactly
/// when their numbers are.
#[derive(Clone, Copy, Debug, PartialEq, Eq, Hash, Structural)]
pub struct Identity {
    raw: u64,
}

impl Identity {
    /// The number that stands for this identity.
    pub closed spec fn number(self) -> nat {
        self.raw as nat
    }

    /// The number that stands for this identity, for use as a key.
    pub fn raw(&self) -> (raw: u64)
        ensures
            raw == self.number(),
    {
        self.raw
    }
}

/// Gives out identities, each of them once.
pub struct IdentitySource {
    next: u64,
}

impl IdentitySource {
    /// How many identities this source has given out so far.
    pub closed spec fn issued(&self) -> nat {
        self.next as nat
    }

    /// Whether `id` is one of the identities this source has given out.
    pub open spec fn has_issued(&self, id: Identity) -> bool {
        id.number() < self.issued()
    }

    /// Whether the source has run out of numbers.
    pub open spec fn exhausted(&self) -> bool {
        self.issued() >= u64::MAX
    }

    /// What it means for `before` to give out `id` and become `after`.
    pub open spec fn mints(before: Self, after: Self, id: Identity) -> bool {
        &&& !before.exhausted()
        &&& id.number() == before.issued()
        &&& after.issued() == before.issued() + 1
    }

    /// What it means for `before` to give out `first`, then `second`, and
    /// become `after`.
    pub open spec fn mints_two(before: Self, after: Self, first: Identity, second: Identity) -> bool {
        &&& before.issued() + 2 <= u64::MAX
        &&& first.number() == before.issued()
        &&& second.number() == before.issued() + 1
        &&& after.issued() == before.issued() + 2
    }

    /// A source that has given out nothing yet.
    pub fn new() -> (source: Self)
        ensures
            source.issued() == 0,
    {
        IdentitySource { next: 0 }
    }

    /// How many identities the source can still give out.
    pub fn left(&self) -> (left: u64)
        ensures
            left == u64::MAX - self.issued(),
    {
        u64::MAX - self.next
    }

    /// Gives out an identity that this source has never given out before, or
    /// `None` once its numbers are used up; the source is then left as it was.
    pub fn mint(&mut self) -> (minted: Option<Identity>)
        ensures
            old(self).exhausted() ==> minted is None && *final(self) == *old(self),
            !old(self).exhausted() ==> minted is Some && Self::mints(
                *old(self),
                *final(self),
                minted->0,
            ),
    {
        if self.next == u64::MAX {
            None
        } else {
            let id = Identity { raw: self.next };
            self.next = self.next + 1;
            Some(id)
        }
    }
}

/// An identity is determined by its number.
pub proof fn law_number_names_identity(a: Identity, b: Identity)
    ensures
        a == b <==> a.number() == b.number(),
{
}

/// A freshly minted identity was not given out before, and is afterwards.
pub proof fn law_minted_identity_is_fresh(
    before: IdentitySource,
    after: IdentitySource,
    id: Identity,
)
    requires
        IdentitySource::mints(before, after, id),
    ensures
        !before.has_issued(id),
        after.has_issued(id),
        forall|other: Identity| before.has_issued(other) ==> after.has_issued(other),
{
}

/// Two identities minted by one source are never equal: if the source gave
/// out `first`, went on to any later state, and then gave out `second`, the
/// two differ.
pub proof fn law_minted_identities_differ(
    start: IdentitySource,
    then: IdentitySource,
    first: Identity,
    later: IdentitySource,
    last: IdentitySource,
    second: Identity,
)
    requires
        IdentitySource::mints(start, then, first),
        then.issued() <= later.issued(),
        IdentitySource::mints(later, last, second),
    ensures
        first != second,
{
}

/// Two identities minted in a row are two mints: both are fresh, and they
/// differ.
pub proof fn law_two_in_a_row_are_two_mints(
    before: IdentitySource,
    after: IdentitySource,
    first: Identity,
    second: Identity,
)
    requires
        IdentitySource::mints_two(before, after, first, second),
    ensures
        first != second,
        !before.has_issued(first),
        !before.has_issued(second),
        after.has_issued(first),
        after.has_issued(second),
        forall|other: Identity| before.has_issued(other) ==> after.has_issued(other),
{
}

} // verus!

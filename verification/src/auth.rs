use vstd::prelude::*;

verus! {

/// Why an operation refused to run. The substrate executes every operation
/// as one atomic transaction, so a refused operation has no effect at all:
/// whenever one of these is returned, every `&mut` argument is unchanged.
#[derive(Clone, Copy, PartialEq, Eq, Structural, Debug)]
pub enum AbortReason {
    /// The caller presented no capability that the operation demands.
    NotAuthorized,
    /// A payment or proof names a resource the operation does not accept.
    WrongResourceKind,
    /// A trophy id names no live record.
    UnknownTrophy,
    /// A merge input disagrees with the first record on collection id,
    /// info url or name.
    MixedTrophies,
    /// A donated total would no longer fit in the amount type.
    AmountOverflow,
}

/// Some amount of one fungible resource, moved by value. Resources are named
/// by the substrate's addresses, modelled as plain integers.
#[derive(PartialEq, Eq, Structural, Debug)]
pub struct Bucket {
    pub resource: u64,
    pub amount: u128,
}

/// Custody of one fungible resource inside a component.
#[derive(Debug)]
pub struct Vault {
    pub resource: u64,
    pub amount: u128,
}

impl Vault {
    /// Moves a bucket's content into the vault. The substrate refuses a
    /// bucket of another resource; callers check before depositing.
    pub fn put(&mut self, tokens: Bucket)
        requires
            tokens.resource == old(self).resource,
            old(self).amount + tokens.amount <= u128::MAX,
        ensures
            final(self).resource == old(self).resource,
            final(self).amount == old(self).amount + tokens.amount,
    {
        self.amount = self.amount + tokens.amount;
    }

    /// Drains the vault in one step and hands its whole content back.
    pub fn take_all(&mut self) -> (r: Bucket)
        ensures
            r.resource == old(self).resource,
            r.amount == old(self).amount,
            final(self).resource == old(self).resource,
            final(self).amount == 0,
    {
        let amount = self.amount;
        self.amount = 0;
        Bucket { resource: self.resource, amount }
    }
}

/// A transient attestation that the caller holds a badge of the named
/// resource. The substrate mints badges unforgeably; here the address alone
/// stands for the badge, so holding the right address is holding the badge.
#[derive(Clone, Copy, PartialEq, Eq, Structural, Debug)]
pub struct BadgeProof {
    pub resource: u64,
}

/// A transient attestation that the caller owns one specific trophy record
/// of the named record resource.
#[derive(Clone, Copy, PartialEq, Eq, Structural, Debug)]
pub struct TrophyProof {
    pub resource: u64,
    pub trophy_id: u64,
}

/// The delegated minting capability handed to one collection when it is
/// provisioned. It carries both the credential (the minter badge resource)
/// and an origin restriction: the record-type authority accepts it only when
/// presented by the component it is scoped to, so possession alone is not
/// enough.
#[derive(Clone, Copy, PartialEq, Eq, Structural, Debug)]
pub struct MinterBadge {
    pub resource: u64,
    pub scoped_to: u64,
}

} // verus!

use vstd::prelude::*;

use crate::auth::{AbortReason, MinterBadge};
use crate::date::Date;

verus! {

/// One trophy record: a non-fungible unit certifying the cumulative value a
/// supporter has donated to one creator.
#[derive(Debug)]
pub struct TrophyData {
    /// Display label, fixed at mint time.
    pub name: String,
    /// Canonical creator profile url, fixed at mint time.
    pub info_url: String,
    /// Identifier of the owning creator's collection, immutable after mint.
    pub collection_id: String,
    /// Creation date; rewritten only by a merge, to the earliest input date.
    pub created: Date,
    /// Running donated total; grows with donations, replaced by a merge.
    pub donated: u128,
    /// Derived display url: cache over the other fields, never source of
    /// truth, recomputed on every mutation of its inputs.
    pub key_image_url: String,
}

impl TrophyData {
    /// Two records belong to the same merge template when they agree on
    /// collection id, info url and name.
    pub open spec fn matches_template(self, template: TrophyData) -> bool {
        &&& self.collection_id@ == template.collection_id@
        &&& self.info_url@ == template.info_url@
        &&& self.name@ == template.name@
    }
}

/// The shared record-type authority: it stores every trophy record, carries
/// the mutable "domain" metadata entry (the global base path), and guards
/// every mutation with the substrate's capability check.
///
/// A record's id is its index in the store; a burned record leaves `None`
/// behind, so ids are never reused.
#[derive(Debug)]
pub struct TrophyResourceManager {
    /// The record store, indexed by trophy id.
    pub records: Vec<Option<TrophyData>>,
    /// The mutable base path every key image url is derived from.
    pub domain: String,
    /// Resource address of the trophy records themselves.
    pub resource_address: u64,
    /// Resource address of the minter badges the registry issues.
    pub minter_badge_address: u64,
    /// Global address of the registry component: the one caller that may
    /// mutate records and metadata without a minter badge.
    pub repository_address: u64,
}

impl TrophyResourceManager {
    /// The capability rule for minting and updating records: either the
    /// registry calls for itself, or the caller presents a minter badge that
    /// is scoped to the caller's own address. A badge presented from any
    /// other origin is refused even though it is genuine.
    pub open spec fn spec_allows_mutation(self, caller: u64, badge: Option<MinterBadge>) -> bool {
        ||| caller == self.repository_address
        ||| (badge matches Some(b) && b.resource == self.minter_badge_address && b.scoped_to
            == caller)
    }

    /// The capability rule for burning records: the registry alone.
    pub open spec fn spec_allows_burn(self, caller: u64) -> bool {
        caller == self.repository_address
    }

    /// An id names a live (minted, not yet burned) record.
    pub open spec fn spec_live(self, id: u64) -> bool {
        id < self.records@.len() && self.records@[id as int] is Some
    }

    /// The record behind a live id.
    pub open spec fn spec_trophy(self, id: u64) -> TrophyData
        recommends
            self.spec_live(id),
    {
        self.records@[id as int]->0
    }

    /// The configuration that no record operation may change.
    pub open spec fn same_authority(self, other: TrophyResourceManager) -> bool {
        &&& self.domain == other.domain
        &&& self.resource_address == other.resource_address
        &&& self.minter_badge_address == other.minter_badge_address
        &&& self.repository_address == other.repository_address
    }

    pub fn allows_mutation(&self, caller: u64, badge: Option<MinterBadge>) -> (r: bool)
        ensures
            r == self.spec_allows_mutation(caller, badge),
    {
        if caller == self.repository_address {
            true
        } else {
            match badge {
                Some(b) => b.resource == self.minter_badge_address && b.scoped_to == caller,
                None => false,
            }
        }
    }

    /// Mints a fresh record and hands back its id. Succeeds exactly when the
    /// capability rule admits the caller; a refused mint changes nothing.
    pub fn mint_ruid_non_fungible(
        &mut self,
        caller: u64,
        badge: Option<MinterBadge>,
        data: TrophyData,
    ) -> (r: Result<u64, AbortReason>)
        ensures
            match r {
                Ok(id) => {
                    &&& old(self).spec_allows_mutation(caller, badge)
                    &&& id == old(self).records@.len()
                    &&& final(self).records@ == old(self).records@.push(Some(data))
                    &&& final(self).same_authority(*old(self))
                },
                Err(e) => {
                    &&& e == AbortReason::NotAuthorized
                    &&& !old(self).spec_allows_mutation(caller, badge)
                    &&& *final(self) == *old(self)
                },
            },
    {
        if !self.allows_mutation(caller, badge) {
            return Err(AbortReason::NotAuthorized);
        }
        let id = self.records.len() as u64;
        self.records.push(Some(data));
        Ok(id)
    }

    /// Reads a record without any capability check.
    pub fn get_non_fungible_data(&self, id: u64) -> (r: Option<&TrophyData>)
        ensures
            match r {
                Some(t) => self.spec_live(id) && *t == self.spec_trophy(id),
                None => !self.spec_live(id),
            },
    {
        if id >= self.records.len() as u64 {
            return None;
        }
        match &self.records[id as usize] {
            Some(t) => Some(t),
            None => None,
        }
    }

    /// Rewrites the two mutable fields of a live record: the donated total
    /// and the derived key image url. All other fields are kept. Succeeds
    /// exactly when the capability rule admits the caller and the id is
    /// live; a refused update changes nothing.
    pub fn update_non_fungible_data(
        &mut self,
        caller: u64,
        badge: Option<MinterBadge>,
        id: u64,
        donated: u128,
        key_image_url: String,
    ) -> (r: Result<(), AbortReason>)
        ensures
            match r {
                Ok(()) => {
                    &&& old(self).spec_allows_mutation(caller, badge)
                    &&& old(self).spec_live(id)
                    &&& final(self).records@.len() == old(self).records@.len()
                    &&& forall|j: int|
                        0 <= j < old(self).records@.len() && j != id ==> final(self).records@[j]
                            == old(self).records@[j]
                    &&& final(self).spec_live(id)
                    &&& final(self).spec_trophy(id).name@ == old(self).spec_trophy(id).name@
                    &&& final(self).spec_trophy(id).info_url@ == old(self).spec_trophy(
                        id,
                    ).info_url@
                    &&& final(self).spec_trophy(id).collection_id@ == old(self).spec_trophy(
                        id,
                    ).collection_id@
                    &&& final(self).spec_trophy(id).created == old(self).spec_trophy(id).created
                    &&& final(self).spec_trophy(id).donated == donated
                    &&& final(self).spec_trophy(id).key_image_url@ == key_image_url@
                    &&& final(self).same_authority(*old(self))
                },
                Err(e) => {
                    &&& *final(self) == *old(self)
                    &&& (e == AbortReason::NotAuthorized <==> !old(self).spec_allows_mutation(
                        caller,
                        badge,
                    ))
                    &&& (e == AbortReason::UnknownTrophy <==> old(self).spec_allows_mutation(
                        caller,
                        badge,
                    ) && !old(self).spec_live(id))
                    &&& (e == AbortReason::NotAuthorized || e == AbortReason::UnknownTrophy)
                },
            },
            r is Ok <==> old(self).spec_allows_mutation(caller, badge) && old(self).spec_live(id),
    {
        if !self.allows_mutation(caller, badge) {
            return Err(AbortReason::NotAuthorized);
        }
        if id >= self.records.len() as u64 {
            return Err(AbortReason::UnknownTrophy);
        }
        let idx = id as usize;
        let updated = match &self.records[idx] {
            Some(t) => TrophyData {
                name: t.name.clone(),
                info_url: t.info_url.clone(),
                collection_id: t.collection_id.clone(),
                created: t.created,
                donated,
                key_image_url,
            },
            None => {
                return Err(AbortReason::UnknownTrophy);
            },
        };
        self.records[idx] = Some(updated);
        Ok(())
    }

    /// Burns a live record: its id keeps its slot but names nothing any
    /// more. Only the registry itself may burn. A refused burn changes
    /// nothing.
    pub fn burn(&mut self, caller: u64, id: u64) -> (r: Result<(), AbortReason>)
        ensures
            match r {
                Ok(()) => {
                    &&& old(self).spec_allows_burn(caller)
                    &&& old(self).spec_live(id)
                    &&& final(self).records@ == old(self).records@.update(id as int, None)
                    &&& final(self).same_authority(*old(self))
                },
                Err(e) => {
                    &&& *final(self) == *old(self)
                    &&& (e == AbortReason::NotAuthorized <==> !old(self).spec_allows_burn(caller))
                    &&& (e == AbortReason::UnknownTrophy <==> old(self).spec_allows_burn(caller)
                        && !old(self).spec_live(id))
                    &&& (e == AbortReason::NotAuthorized || e == AbortReason::UnknownTrophy)
                },
            },
            r is Ok <==> old(self).spec_allows_burn(caller) && old(self).spec_live(id),
    {
        if caller != self.repository_address {
            return Err(AbortReason::NotAuthorized);
        }
        if id >= self.records.len() as u64 {
            return Err(AbortReason::UnknownTrophy);
        }
        let idx = id as usize;
        match &self.records[idx] {
            Some(_) => {},
            None => {
                return Err(AbortReason::UnknownTrophy);
            },
        }
        self.records[idx] = None;
        Ok(())
    }

    /// Reads the "domain" metadata entry: the global base path.
    pub fn get_metadata_domain(&self) -> (r: &String)
        ensures
            *r == self.domain,
    {
        &self.domain
    }

    /// Rewrites the "domain" metadata entry. Only the registry itself may:
    /// the metadata-setter role is scoped to the registry's address.
    pub fn set_metadata_domain(&mut self, caller: u64, value: String) -> (r: Result<
        (),
        AbortReason,
    >)
        ensures
            match r {
                Ok(()) => {
                    &&& caller == old(self).repository_address
                    &&& final(self).domain == value
                    &&& final(self).records@ == old(self).records@
                    &&& final(self).resource_address == old(self).resource_address
                    &&& final(self).minter_badge_address == old(self).minter_badge_address
                    &&& final(self).repository_address == old(self).repository_address
                },
                Err(e) => {
                    &&& e == AbortReason::NotAuthorized
                    &&& caller != old(self).repository_address
                    &&& *final(self) == *old(self)
                },
            },
    {
        if caller != self.repository_address {
            return Err(AbortReason::NotAuthorized);
        }
        self.domain = value;
        Ok(())
    }
}

} // verus!

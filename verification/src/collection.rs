use vstd::prelude::*;

use crate::auth::{AbortReason, BadgeProof, Bucket, MinterBadge, TrophyProof, Vault};
use crate::date::Date;
use crate::manager::{TrophyData, TrophyResourceManager};
use crate::text::{amount_to_string, dec_chars, part_to_string};

verus! {

/// The text of a record's key image url, as a function of the base path,
/// the donated total, the created date's text and the collection id. The
/// url is always recomputed whole from these four inputs, never patched.
pub open spec fn url_chars(
    base_path: Seq<char>,
    donated: int,
    created: Seq<char>,
    collection_id: Seq<char>,
) -> Seq<char> {
    base_path + "/nft/collection/"@ + collection_id + "?donated="@ + dec_chars(donated)
        + "&created="@ + created
}

/// The text of a date as it is stored on a record: year, month and day as
/// plain numerals joined by dashes, without padding.
pub open spec fn created_chars(d: Date) -> Seq<char> {
    dec_chars(d.year as int) + "-"@ + dec_chars(d.month as int) + "-"@ + dec_chars(d.day as int)
}

/// Derives the display url for a record. A pure function of its four
/// inputs: the result text is pinned exactly, so two calls on identical
/// inputs yield identical urls.
pub fn generate_url(base_path: String, donated: u128, created: String, collection_id: String) -> (r:
    String)
    ensures
        r@ == url_chars(base_path@, donated as int, created@, collection_id@),
{
    let mut r = base_path;
    r.append("/nft/collection/");
    r.append(collection_id.as_str());
    r.append("?donated=");
    let amount = amount_to_string(donated);
    r.append(amount.as_str());
    r.append("&created=");
    r.append(created.as_str());
    r
}

/// Renders a date in the stored "year-month-day" form.
pub fn generate_created_string(d: &Date) -> (r: String)
    ensures
        r@ == created_chars(*d),
{
    let mut r = part_to_string(d.year);
    r.append("-");
    let month = part_to_string(d.month);
    r.append(month.as_str());
    r.append("-");
    let day = part_to_string(d.day);
    r.append(day.as_str());
    r
}

/// One creator's component: custodies that creator's in-flight donations
/// and mediates the two donation flows with the minter badge the registry
/// delegated to it.
#[derive(Debug)]
pub struct Collection {
    /// Global address of this component; every use of the minter badge is
    /// checked against it.
    pub component_address: u64,
    /// The delegated minting capability, custodied for the component's
    /// whole lifetime and never handed out.
    pub minter_badge: MinterBadge,
    /// Custody of collected donations.
    pub donations: Vault,
    /// The creator's display name; trophy names are derived from it.
    pub user_name: String,
    /// The creator's profile slug; info urls are derived from it.
    pub user_slug: String,
    /// The collection id stamped on every record this component mints.
    pub collection_id: String,
    /// The platform's fixed per-collection cut, accounted into the donated
    /// total of every donation.
    pub royalty_amount: u128,
    /// Resource address of the admin badge whose holder may withdraw.
    pub admin_badge_address: u64,
    /// Resource address of the registry owner badge, the component's
    /// ownership role.
    pub owner_badge_address: u64,
}

impl Collection {
    /// A record freshly minted by this collection: every field is a pure
    /// function of the collection's configuration, the current base path,
    /// the paid amount and the date of the donation.
    pub open spec fn spec_fresh_trophy(
        self,
        t: TrophyData,
        domain: Seq<char>,
        amount: u128,
        now: Date,
    ) -> bool {
        &&& t.name@ == self.user_name@ + "'s Trophy"@
        &&& t.info_url@ == domain + "/p/"@ + self.user_slug@
        &&& t.collection_id@ == self.collection_id@
        &&& t.created == now
        &&& t.donated == amount + self.royalty_amount
        &&& t.key_image_url@ == url_chars(
            domain,
            amount + self.royalty_amount,
            created_chars(now),
            self.collection_id@,
        )
    }

    /// The configuration that donations never change: everything but the
    /// vault's balance.
    pub open spec fn same_collection(self, other: Collection) -> bool {
        &&& self.component_address == other.component_address
        &&& self.minter_badge == other.minter_badge
        &&& self.donations.resource == other.donations.resource
        &&& self.user_name == other.user_name
        &&& self.user_slug == other.user_slug
        &&& self.collection_id == other.collection_id
        &&& self.royalty_amount == other.royalty_amount
        &&& self.admin_badge_address == other.admin_badge_address
        &&& self.owner_badge_address == other.owner_badge_address
    }

    /// Instantiates a collection and mints its one admin badge, which is
    /// handed straight back to the creator. The minter badge moves into the
    /// component's custody.
    pub fn new(
        owner_badge: u64,
        royalty_amount: u128,
        minter_badge: MinterBadge,
        user_name: String,
        user_slug: String,
        collection_id: String,
        component_address: u64,
        admin_badge_address: u64,
        donation_resource: u64,
    ) -> (r: (Collection, Bucket))
        ensures
            ({
                let (c, admin_badge) = r;
                &&& c.component_address == component_address
                &&& c.minter_badge == minter_badge
                &&& c.donations.resource == donation_resource
                &&& c.donations.amount == 0
                &&& c.user_name == user_name
                &&& c.user_slug == user_slug
                &&& c.collection_id == collection_id
                &&& c.royalty_amount == royalty_amount
                &&& c.admin_badge_address == admin_badge_address
                &&& c.owner_badge_address == owner_badge
                &&& admin_badge == (Bucket { resource: admin_badge_address, amount: 1 })
            }),
    {
        let collection = Collection {
            component_address,
            minter_badge,
            donations: Vault { resource: donation_resource, amount: 0 },
            user_name,
            user_slug,
            collection_id,
            royalty_amount,
            admin_badge_address,
            owner_badge_address: owner_badge,
        };
        let admin_badge = Bucket { resource: admin_badge_address, amount: 1 };
        (collection, admin_badge)
    }

    /// First-time donation: mints a brand-new record for the supporter,
    /// accounts the paid amount plus the royalty into it, derives its
    /// display url, custodies the payment and returns the new record's id.
    ///
    /// Succeeds exactly when the record-type authority admits this
    /// component's minter badge, the payment is of the vault's resource and
    /// no total overflows; any refusal leaves collection and records
    /// untouched.
    pub fn donate_mint(
        &mut self,
        rm: &mut TrophyResourceManager,
        tokens: Bucket,
        now: Date,
    ) -> (r: Result<u64, AbortReason>)
        ensures
            match r {
                Ok(id) => {
                    &&& old(rm).spec_allows_mutation(
                        old(self).component_address,
                        Some(old(self).minter_badge),
                    )
                    &&& tokens.resource == old(self).donations.resource
                    &&& id == old(rm).records@.len()
                    &&& final(rm).records@.len() == old(rm).records@.len() + 1
                    &&& forall|j: int|
                        0 <= j < old(rm).records@.len() ==> final(rm).records@[j]
                            == old(rm).records@[j]
                    &&& final(rm).spec_live(id)
                    &&& old(self).spec_fresh_trophy(
                        final(rm).spec_trophy(id),
                        old(rm).domain@,
                        tokens.amount,
                        now,
                    )
                    &&& final(rm).same_authority(*old(rm))
                    &&& final(self).same_collection(*old(self))
                    &&& final(self).donations.amount == old(self).donations.amount + tokens.amount
                },
                Err(e) => {
                    &&& *final(self) == *old(self)
                    &&& *final(rm) == *old(rm)
                    &&& (e == AbortReason::NotAuthorized <==> !old(rm).spec_allows_mutation(
                        old(self).component_address,
                        Some(old(self).minter_badge),
                    ))
                    &&& (e == AbortReason::WrongResourceKind <==> old(rm).spec_allows_mutation(
                        old(self).component_address,
                        Some(old(self).minter_badge),
                    ) && tokens.resource != old(self).donations.resource)
                    &&& (e == AbortReason::AmountOverflow <==> old(rm).spec_allows_mutation(
                        old(self).component_address,
                        Some(old(self).minter_badge),
                    ) && tokens.resource == old(self).donations.resource && (tokens.amount + old(
                        self,
                    ).royalty_amount > u128::MAX || old(self).donations.amount + tokens.amount
                        > u128::MAX))
                    &&& (e == AbortReason::NotAuthorized || e == AbortReason::WrongResourceKind
                        || e == AbortReason::AmountOverflow)
                },
            },
            r is Ok <==> {
                &&& old(rm).spec_allows_mutation(
                    old(self).component_address,
                    Some(old(self).minter_badge),
                )
                &&& tokens.resource == old(self).donations.resource
                &&& tokens.amount + old(self).royalty_amount <= u128::MAX
                &&& old(self).donations.amount + tokens.amount <= u128::MAX
            },
    {
        // the component presents a proof of its custodied minter badge for
        // the duration of the call
        if !rm.allows_mutation(self.component_address, Some(self.minter_badge)) {
            return Err(AbortReason::NotAuthorized);
        }
        if tokens.resource != self.donations.resource {
            return Err(AbortReason::WrongResourceKind);
        }
        let donated = match tokens.amount.checked_add(self.royalty_amount) {
            Some(v) => v,
            None => {
                return Err(AbortReason::AmountOverflow);
            },
        };
        match self.donations.amount.checked_add(tokens.amount) {
            Some(_) => {},
            None => {
                return Err(AbortReason::AmountOverflow);
            },
        }
        let domain = rm.get_metadata_domain().clone();
        let created = generate_created_string(&now);
        let name = {
            let mut n = self.user_name.clone();
            n.append("'s Trophy");
            n
        };
        let info_url = {
            let mut u = domain.clone();
            u.append("/p/");
            u.append(self.user_slug.as_str());
            u
        };
        let data = TrophyData {
            name,
            info_url,
            collection_id: self.collection_id.clone(),
            created: now,
            donated: 0,
            key_image_url: String::new(),
        };
        let id = match rm.mint_ruid_non_fungible(
            self.component_address,
            Some(self.minter_badge),
            data,
        ) {
            Ok(id) => id,
            Err(e) => {
                return Err(e);
            },
        };
        let key_image_url = generate_url(domain, donated, created, self.collection_id.clone());
        match rm.update_non_fungible_data(
            self.component_address,
            Some(self.minter_badge),
            id,
            donated,
            key_image_url,
        ) {
            Ok(()) => {},
            Err(e) => {
                return Err(e);
            },
        }
        self.donations.put(tokens);
        Ok(id)
    }

    /// Repeat donation: grows the donated total of the record the caller
    /// proved to own, re-derives its display url whole from the current
    /// base path and the record's own fields, and custodies the payment.
    /// No record is minted and none is returned; the caller already holds
    /// it.
    ///
    /// Succeeds exactly when the minter badge is admitted, the proof is of
    /// the trophy record type, the payment is of the vault's resource, the
    /// proved record is live and no total overflows; any refusal leaves
    /// collection and records untouched.
    pub fn donate_update(
        &mut self,
        rm: &mut TrophyResourceManager,
        tokens: Bucket,
        proof: TrophyProof,
    ) -> (r: Result<(), AbortReason>)
        ensures
            match r {
                Ok(()) => {
                    &&& old(rm).spec_allows_mutation(
                        old(self).component_address,
                        Some(old(self).minter_badge),
                    )
                    &&& proof.resource == old(rm).resource_address
                    &&& tokens.resource == old(self).donations.resource
                    &&& old(rm).spec_live(proof.trophy_id)
                    &&& final(rm).records@.len() == old(rm).records@.len()
                    &&& forall|j: int|
                        0 <= j < old(rm).records@.len() && j != proof.trophy_id ==> final(rm).records@[j] == old(rm).records@[j]
                    &&& final(rm).spec_live(proof.trophy_id)
                    &&& ({
                        let before = old(rm).spec_trophy(proof.trophy_id);
                        let after = final(rm).spec_trophy(proof.trophy_id);
                        &&& after.name@ == before.name@
                        &&& after.info_url@ == before.info_url@
                        &&& after.collection_id@ == before.collection_id@
                        &&& after.created == before.created
                        &&& after.donated == before.donated + tokens.amount + old(self).royalty_amount
                        &&& after.key_image_url@ == url_chars(
                            old(rm).domain@,
                            after.donated as int,
                            created_chars(before.created),
                            before.collection_id@,
                        )
                    })
                    &&& final(rm).same_authority(*old(rm))
                    &&& final(self).same_collection(*old(self))
                    &&& final(self).donations.amount == old(self).donations.amount + tokens.amount
                },
                Err(e) => {
                    &&& *final(self) == *old(self)
                    &&& *final(rm) == *old(rm)
                    &&& (e == AbortReason::NotAuthorized <==> !old(rm).spec_allows_mutation(
                        old(self).component_address,
                        Some(old(self).minter_badge),
                    ))
                    &&& (e == AbortReason::WrongResourceKind <==> old(rm).spec_allows_mutation(
                        old(self).component_address,
                        Some(old(self).minter_badge),
                    ) && (proof.resource != old(rm).resource_address || tokens.resource != old(
                        self,
                    ).donations.resource))
                    &&& (e == AbortReason::UnknownTrophy <==> old(rm).spec_allows_mutation(
                        old(self).component_address,
                        Some(old(self).minter_badge),
                    ) && proof.resource == old(rm).resource_address && tokens.resource == old(
                        self,
                    ).donations.resource && !old(rm).spec_live(proof.trophy_id))
                    &&& (e == AbortReason::AmountOverflow <==> old(rm).spec_allows_mutation(
                        old(self).component_address,
                        Some(old(self).minter_badge),
                    ) && proof.resource == old(rm).resource_address && tokens.resource == old(
                        self,
                    ).donations.resource && old(rm).spec_live(proof.trophy_id) && (old(
                        rm,
                    ).spec_trophy(proof.trophy_id).donated + tokens.amount + old(
                        self,
                    ).royalty_amount > u128::MAX || old(self).donations.amount + tokens.amount
                        > u128::MAX))
                    &&& (e == AbortReason::NotAuthorized || e == AbortReason::WrongResourceKind
                        || e == AbortReason::UnknownTrophy || e == AbortReason::AmountOverflow)
                },
            },
            r is Ok <==> {
                &&& old(rm).spec_allows_mutation(
                    old(self).component_address,
                    Some(old(self).minter_badge),
                )
                &&& proof.resource == old(rm).resource_address
                &&& tokens.resource == old(self).donations.resource
                &&& old(rm).spec_live(proof.trophy_id)
                &&& old(rm).spec_trophy(proof.trophy_id).donated + tokens.amount + old(self).royalty_amount <= u128::MAX
                &&& old(self).donations.amount + tokens.amount <= u128::MAX
            },
    {
        if !rm.allows_mutation(self.component_address, Some(self.minter_badge)) {
            return Err(AbortReason::NotAuthorized);
        }
        // the presented proof must be of the record type this authority
        // manages; a proof of anything else is a hard error
        if proof.resource != rm.resource_address {
            return Err(AbortReason::WrongResourceKind);
        }
        if tokens.resource != self.donations.resource {
            return Err(AbortReason::WrongResourceKind);
        }
        let (donated_before, created, collection_id) = match rm.get_non_fungible_data(
            proof.trophy_id,
        ) {
            Some(t) => (t.donated, t.created, t.collection_id.clone()),
            None => {
                return Err(AbortReason::UnknownTrophy);
            },
        };
        let donated = match donated_before.checked_add(tokens.amount) {
            Some(v) => match v.checked_add(self.royalty_amount) {
                Some(w) => w,
                None => {
                    return Err(AbortReason::AmountOverflow);
                },
            },
            None => {
                return Err(AbortReason::AmountOverflow);
            },
        };
        match self.donations.amount.checked_add(tokens.amount) {
            Some(_) => {},
            None => {
                return Err(AbortReason::AmountOverflow);
            },
        }
        let domain = rm.get_metadata_domain().clone();
        let created_text = generate_created_string(&created);
        let key_image_url = generate_url(domain, donated, created_text, collection_id);
        match rm.update_non_fungible_data(
            self.component_address,
            Some(self.minter_badge),
            proof.trophy_id,
            donated,
            key_image_url,
        ) {
            Ok(()) => {},
            Err(e) => {
                return Err(e);
            },
        }
        self.donations.put(tokens);
        Ok(())
    }

    /// Drains the whole donation vault in one atomic step. Restricted to
    /// the holder of this collection's admin badge; anyone else is refused
    /// and the vault's balance is unchanged.
    pub fn withdraw_donations(&mut self, proof: BadgeProof) -> (r: Result<Bucket, AbortReason>)
        ensures
            match r {
                Ok(funds) => {
                    &&& proof.resource == old(self).admin_badge_address
                    &&& funds.resource == old(self).donations.resource
                    &&& funds.amount == old(self).donations.amount
                    &&& final(self).same_collection(*old(self))
                    &&& final(self).donations.amount == 0
                },
                Err(e) => {
                    &&& e == AbortReason::NotAuthorized
                    &&& proof.resource != old(self).admin_badge_address
                    &&& *final(self) == *old(self)
                },
            },
    {
        if proof.resource != self.admin_badge_address {
            return Err(AbortReason::NotAuthorized);
        }
        Ok(self.donations.take_all())
    }
}

} // verus!

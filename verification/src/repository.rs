use vstd::prelude::*;

use crate::auth::{AbortReason, BadgeProof, Bucket, MinterBadge};
use crate::collection::{
    created_chars, generate_created_string, generate_url, url_chars, Collection,
};
use crate::date::Date;
use crate::manager::{TrophyData, TrophyResourceManager};

verus! {

/// Every id in the set names a live record.
pub open spec fn spec_all_live(rm: TrophyResourceManager, ids: Seq<u64>) -> bool {
    forall|i: int| 0 <= i < ids.len() ==> rm.spec_live(ids[i])
}

/// Every record in the set agrees with the first one on collection id,
/// info url and name.
pub open spec fn spec_all_match(rm: TrophyResourceManager, ids: Seq<u64>) -> bool
    recommends
        spec_all_live(rm, ids),
        ids.len() > 0,
{
    forall|i: int|
        0 <= i < ids.len() ==> rm.spec_trophy(ids[i]).matches_template(rm.spec_trophy(ids[0]))
}

/// The exact sum of the donated totals over the listed records.
pub open spec fn spec_sum_donated(rm: TrophyResourceManager, ids: Seq<u64>) -> int
    recommends
        spec_all_live(rm, ids),
    decreases ids.len(),
{
    if ids.len() == 0 {
        0
    } else {
        spec_sum_donated(rm, ids.drop_last()) + rm.spec_trophy(ids.last()).donated
    }
}

/// The earliest creation date over the listed records, scanned in order
/// with a strict comparison: an equal date never replaces the running
/// minimum, so ties keep the first-seen value.
pub open spec fn spec_min_created(rm: TrophyResourceManager, ids: Seq<u64>) -> Date
    recommends
        spec_all_live(rm, ids),
        ids.len() > 0,
    decreases ids.len(),
{
    if ids.len() <= 1 {
        rm.spec_trophy(ids[0]).created
    } else {
        let prev = spec_min_created(rm, ids.drop_last());
        let d = rm.spec_trophy(ids.last()).created;
        if d.spec_lt(prev) {
            d
        } else {
            prev
        }
    }
}

/// The one record a merge mints in place of its inputs: the template's
/// identity, the earliest input date, the summed total, and a url derived
/// from all of them under the current base path.
pub open spec fn spec_merged_trophy(
    t: TrophyData,
    rm: TrophyResourceManager,
    ids: Seq<u64>,
) -> bool
    recommends
        spec_all_live(rm, ids),
        ids.len() > 0,
{
    let template = rm.spec_trophy(ids[0]);
    &&& t.name@ == template.name@
    &&& t.info_url@ == template.info_url@
    &&& t.collection_id@ == template.collection_id@
    &&& t.created == spec_min_created(rm, ids)
    &&& t.donated == spec_sum_donated(rm, ids)
    &&& t.key_image_url@ == url_chars(
        rm.domain@,
        spec_sum_donated(rm, ids),
        created_chars(spec_min_created(rm, ids)),
        template.collection_id@,
    )
}

/// A record kept its identity and accounting across an operation: it is
/// still live and agrees with its old self on everything but the derived
/// url.
pub open spec fn spec_core_kept(
    rm_old: TrophyResourceManager,
    rm_new: TrophyResourceManager,
    id: u64,
) -> bool {
    let before = rm_old.spec_trophy(id);
    let after = rm_new.spec_trophy(id);
    &&& rm_new.spec_live(id)
    &&& after.name@ == before.name@
    &&& after.info_url@ == before.info_url@
    &&& after.collection_id@ == before.collection_id@
    &&& after.created == before.created
    &&& after.donated == before.donated
}

/// A record whose derived url has been recomputed under a new base path,
/// with every other field kept.
pub open spec fn spec_repathed(
    rm_old: TrophyResourceManager,
    rm_new: TrophyResourceManager,
    id: u64,
    base: Seq<char>,
) -> bool {
    let before = rm_old.spec_trophy(id);
    &&& spec_core_kept(rm_old, rm_new, id)
    &&& rm_new.spec_trophy(id).key_image_url@ == url_chars(
        base,
        before.donated as int,
        created_chars(before.created),
        before.collection_id@,
    )
}

/// A scan prefix one element longer is the shorter prefix plus that
/// element.
proof fn lemma_take_step<A>(s: Seq<A>, i: int)
    requires
        0 <= i < s.len(),
    ensures
        s.take(i + 1).drop_last() =~= s.take(i),
        s.take(i + 1).last() == s[i],
{
}

/// Donated totals are non-negative, so the sum over any scan prefix never
/// exceeds the sum over the whole set.
proof fn lemma_sum_donated_prefix(rm: TrophyResourceManager, ids: Seq<u64>, i: int)
    requires
        0 <= i <= ids.len(),
        spec_all_live(rm, ids),
    ensures
        spec_sum_donated(rm, ids.take(i)) <= spec_sum_donated(rm, ids),
    decreases ids.len() - i,
{
    if i == ids.len() {
        assert(ids.take(i) =~= ids);
    } else {
        lemma_take_step(ids, i);
        lemma_sum_donated_prefix(rm, ids, i + 1);
    }
}

/// Membership in a scan prefix grows one element at a time.
proof fn lemma_take_contains_step(s: Seq<u64>, i: int, x: u64)
    requires
        0 <= i < s.len(),
    ensures
        s.take(i + 1).contains(x) <==> s.take(i).contains(x) || x == s[i],
{
    if s.take(i + 1).contains(x) {
        let k = choose|k: int| 0 <= k < s.take(i + 1).len() && #[trigger] s.take(i + 1)[k] == x;
        if k < i {
            assert(s.take(i)[k] == x);
        }
    }
    if s.take(i).contains(x) {
        let k = choose|k: int| 0 <= k < s.take(i).len() && #[trigger] s.take(i)[k] == x;
        assert(s.take(i + 1)[k] == x);
    }
    if x == s[i] {
        assert(s.take(i + 1)[i] == x);
    }
}

/// In a duplicate-free sequence, an element never occurs before its own
/// position.
proof fn lemma_no_dup_prefix_absent(s: Seq<u64>, i: int)
    requires
        s.no_duplicates(),
        0 <= i < s.len(),
    ensures
        !s.take(i).contains(s[i]),
{
    if s.take(i).contains(s[i]) {
        let k = choose|k: int| 0 <= k < s.take(i).len() && #[trigger] s.take(i)[k] == s[i];
        assert(s[k] == s[i]);
    }
}

/// The registry: sole owner of the record type's mint and mutate
/// authority, gatekeeper for provisioning collections, and home of the
/// cross-cutting administrative operations.
#[derive(Debug)]
pub struct Repository {
    /// Global address of the registry component.
    pub component_address: u64,
    /// Resource address of the owner badge that guards administrative
    /// operations.
    pub repository_owner_access_badge_address: u64,
    /// Address of the deployment this registry belongs to.
    pub dapp_definition_address: u64,
    /// Resource address of the minter badges this registry issues to
    /// collections.
    pub minter_badge_address: u64,
    /// Resource address of the trophy records.
    pub trophy_resource_address: u64,
    /// The model's stand-in for the substrate's address allocation: the
    /// next unused global address.
    pub next_address: u64,
}

impl Repository {
    /// The record-type authority this registry created and addresses.
    pub open spec fn manages(self, rm: TrophyResourceManager) -> bool {
        rm.repository_address == self.component_address
    }

    /// Deploys a registry: wires up the minter badge resource and the
    /// shared record-type authority, whose mutable "domain" metadata is
    /// seeded with the given base path. The substrate's address allocation
    /// is modelled by the seed: the registry takes the first three
    /// addresses and keeps the rest for the collections it will provision.
    pub fn new(
        base_path: String,
        repository_owner_access_badge_address: u64,
        dapp_definition_address: u64,
        address_seed: u64,
    ) -> (r: (Repository, TrophyResourceManager))
        requires
            address_seed <= u64::MAX - 3,
        ensures
            ({
                let (repo, rm) = r;
                &&& repo.component_address == address_seed
                &&& repo.repository_owner_access_badge_address
                    == repository_owner_access_badge_address
                &&& repo.dapp_definition_address == dapp_definition_address
                &&& repo.minter_badge_address == address_seed + 1
                &&& repo.trophy_resource_address == address_seed + 2
                &&& repo.next_address == address_seed + 3
                &&& rm.records@.len() == 0
                &&& rm.domain == base_path
                &&& rm.resource_address == repo.trophy_resource_address
                &&& rm.minter_badge_address == repo.minter_badge_address
                &&& repo.manages(rm)
            }),
    {
        let component_address = address_seed;
        let minter_badge_address = address_seed + 1;
        let trophy_resource_address = address_seed + 2;
        let repo = Repository {
            component_address,
            repository_owner_access_badge_address,
            dapp_definition_address,
            minter_badge_address,
            trophy_resource_address,
            next_address: address_seed + 3,
        };
        let rm = TrophyResourceManager {
            records: Vec::new(),
            domain: base_path,
            resource_address: trophy_resource_address,
            minter_badge_address,
            repository_address: component_address,
        };
        (repo, rm)
    }

    /// Provisions a new collection for a creator: mints one fresh minter
    /// badge scoped to the new component's own address (so only that
    /// component can ever use it), instantiates the collection around it,
    /// and hands the collection's admin badge back to the caller. The
    /// ownership proof identifies the creator the admin badge is returned
    /// to; possession of the returned badge is what ownership means here.
    pub fn new_collection_component(
        &mut self,
        user_name: String,
        user_slug: String,
        _collection_owner_badge_proof: BadgeProof,
        collection_id: String,
        royalty_amount: u128,
        donation_resource: u64,
    ) -> (r: (Collection, Bucket))
        requires
            old(self).next_address <= u64::MAX - 2,
        ensures
            final(self).component_address == old(self).component_address,
            final(self).repository_owner_access_badge_address == old(
                self,
            ).repository_owner_access_badge_address,
            final(self).dapp_definition_address == old(self).dapp_definition_address,
            final(self).minter_badge_address == old(self).minter_badge_address,
            final(self).trophy_resource_address == old(self).trophy_resource_address,
            final(self).next_address == old(self).next_address + 2,
            ({
                let (c, admin_badge) = r;
                &&& c.component_address == old(self).next_address
                &&& c.minter_badge == (MinterBadge {
                    resource: old(self).minter_badge_address,
                    scoped_to: old(self).next_address,
                })
                &&& c.donations.resource == donation_resource
                &&& c.donations.amount == 0
                &&& c.user_name == user_name
                &&& c.user_slug == user_slug
                &&& c.collection_id == collection_id
                &&& c.royalty_amount == royalty_amount
                &&& c.admin_badge_address == old(self).next_address + 1
                &&& c.owner_badge_address == old(self).repository_owner_access_badge_address
                &&& admin_badge == (Bucket { resource: c.admin_badge_address, amount: 1 })
            }),
    {
        let component_address = self.next_address;
        let admin_badge_address = self.next_address + 1;
        self.next_address = self.next_address + 2;
        let mint_badge = MinterBadge {
            resource: self.minter_badge_address,
            scoped_to: component_address,
        };
        Collection::new(
            self.repository_owner_access_badge_address,
            royalty_amount,
            mint_badge,
            user_name,
            user_slug,
            collection_id,
            component_address,
            admin_badge_address,
            donation_resource,
        )
    }

    /// Rewrites the global base path and refreshes the derived url of every
    /// listed record under it. Records not listed keep their stale url until
    /// a later operation touches them: lazy migration is deliberate, and
    /// callers wanting a consistent view pass the full known id set.
    ///
    /// Restricted to the holder of the registry owner badge. Succeeds
    /// exactly when the badge is presented and every listed id is live; a
    /// refusal leaves the base path and every record untouched.
    #[verifier::loop_isolation(false)]
    pub fn update_base_path(
        &mut self,
        rm: &mut TrophyResourceManager,
        new_base_path: String,
        update_nft_ids: Vec<u64>,
        owner_badge_proof: BadgeProof,
    ) -> (r: Result<(), AbortReason>)
        requires
            old(self).manages(*old(rm)),
        ensures
            *final(self) == *old(self),
            match r {
                Ok(()) => {
                    &&& owner_badge_proof.resource == old(
                        self,
                    ).repository_owner_access_badge_address
                    &&& spec_all_live(*old(rm), update_nft_ids@)
                    &&& final(rm).domain@ == new_base_path@
                    &&& final(rm).resource_address == old(rm).resource_address
                    &&& final(rm).minter_badge_address == old(rm).minter_badge_address
                    &&& final(rm).repository_address == old(rm).repository_address
                    &&& final(rm).records@.len() == old(rm).records@.len()
                    &&& forall|j: int|
                        0 <= j < old(rm).records@.len() && !update_nft_ids@.contains(j as u64)
                            ==> final(rm).records@[j] == old(rm).records@[j]
                    &&& forall|i: int|
                        0 <= i < update_nft_ids@.len() ==> spec_repathed(
                            *old(rm),
                            *final(rm),
                            update_nft_ids@[i],
                            new_base_path@,
                        )
                },
                Err(e) => {
                    &&& *final(rm) == *old(rm)
                    &&& (e == AbortReason::NotAuthorized <==> owner_badge_proof.resource != old(
                        self,
                    ).repository_owner_access_badge_address)
                    &&& (e == AbortReason::UnknownTrophy <==> owner_badge_proof.resource == old(
                        self,
                    ).repository_owner_access_badge_address && !spec_all_live(
                        *old(rm),
                        update_nft_ids@,
                    ))
                    &&& (e == AbortReason::NotAuthorized || e == AbortReason::UnknownTrophy)
                },
            },
            r is Ok <==> owner_badge_proof.resource == old(
                self,
            ).repository_owner_access_badge_address && spec_all_live(*old(rm), update_nft_ids@),
    {
        if owner_badge_proof.resource != self.repository_owner_access_badge_address {
            return Err(AbortReason::NotAuthorized);
        }
        let n = update_nft_ids.len();
        let mut i: usize = 0;
        while i < n
            invariant
                i <= n,
                n == update_nft_ids@.len(),
                forall|k: int| 0 <= k < i ==> rm.spec_live(update_nft_ids@[k]),
            decreases n - i,
        {
            match rm.get_non_fungible_data(update_nft_ids[i]) {
                Some(_) => {},
                None => {
                    return Err(AbortReason::UnknownTrophy);
                },
            }
            i = i + 1;
        }
        match rm.set_metadata_domain(self.component_address, new_base_path.clone()) {
            Ok(()) => {},
            Err(_) => {
                return Err(AbortReason::NotAuthorized);
            },
        }
        let mut i: usize = 0;
        while i < n
            invariant
                i <= n,
                n == update_nft_ids@.len(),
                spec_all_live(*old(rm), update_nft_ids@),
                old(self).manages(*old(rm)),
                self.component_address == old(self).component_address,
                rm.domain@ == new_base_path@,
                rm.resource_address == old(rm).resource_address,
                rm.minter_badge_address == old(rm).minter_badge_address,
                rm.repository_address == old(rm).repository_address,
                rm.records@.len() == old(rm).records@.len(),
                forall|j: int|
                    0 <= j < old(rm).records@.len() && !update_nft_ids@.contains(j as u64)
                        ==> rm.records@[j] == old(rm).records@[j],
                forall|j: int|
                    0 <= j < old(rm).records@.len() && #[trigger] update_nft_ids@.contains(
                        j as u64,
                    ) ==> spec_core_kept(*old(rm), *rm, j as u64),
                forall|k: int|
                    0 <= k < i ==> spec_repathed(*old(rm), *rm, update_nft_ids@[k], new_base_path@),
            decreases n - i,
        {
            let id = update_nft_ids[i];
            let (donated, created, cid) = match rm.get_non_fungible_data(id) {
                Some(t) => (t.donated, t.created, t.collection_id.clone()),
                None => {
                    return Err(AbortReason::UnknownTrophy);
                },
            };
            let created_text = generate_created_string(&created);
            let url = generate_url(new_base_path.clone(), donated, created_text, cid);
            match rm.update_non_fungible_data(self.component_address, None, id, donated, url) {
                Ok(()) => {},
                Err(_) => {
                    return Err(AbortReason::UnknownTrophy);
                },
            }
            i = i + 1;
        }
        Ok(())
    }

    /// Merges trophies of one creator into one. Every input record must
    /// agree with the first on collection id, info url and name; the inputs
    /// are burned and one new record is minted carrying their exact summed
    /// donated total, their earliest creation date, the shared identity,
    /// and a freshly derived url. A single-element input is a legal trivial
    /// merge. Ownership of the inputs is what the caller hands in: the ids
    /// stand for the bucket of records presented, hence distinct.
    ///
    /// Any mismatch, dead id or overflowing sum aborts with zero records
    /// burned and zero minted.
    #[verifier::loop_isolation(false)]
    pub fn merge_trophies(&mut self, rm: &mut TrophyResourceManager, trophies: Vec<u64>) -> (r:
        Result<u64, AbortReason>)
        requires
            old(self).manages(*old(rm)),
            trophies@.len() > 0,
            trophies@.no_duplicates(),
        ensures
            *final(self) == *old(self),
            match r {
                Ok(new_id) => {
                    &&& spec_all_live(*old(rm), trophies@)
                    &&& spec_all_match(*old(rm), trophies@)
                    &&& spec_sum_donated(*old(rm), trophies@) <= u128::MAX
                    &&& new_id == old(rm).records@.len()
                    &&& final(rm).records@.len() == old(rm).records@.len() + 1
                    &&& forall|j: int|
                        0 <= j < old(rm).records@.len() ==> final(rm).records@[j] == (
                        if trophies@.contains(j as u64) {
                            None
                        } else {
                            old(rm).records@[j]
                        })
                    &&& final(rm).spec_live(new_id)
                    &&& spec_merged_trophy(final(rm).spec_trophy(new_id), *old(rm), trophies@)
                    &&& final(rm).same_authority(*old(rm))
                },
                Err(e) => {
                    &&& *final(rm) == *old(rm)
                    &&& (e == AbortReason::UnknownTrophy <==> !spec_all_live(*old(rm), trophies@))
                    &&& (e == AbortReason::MixedTrophies <==> spec_all_live(*old(rm), trophies@)
                        && !spec_all_match(*old(rm), trophies@))
                    &&& (e == AbortReason::AmountOverflow <==> spec_all_live(*old(rm), trophies@)
                        && spec_all_match(*old(rm), trophies@) && spec_sum_donated(
                        *old(rm),
                        trophies@,
                    ) > u128::MAX)
                    &&& (e == AbortReason::UnknownTrophy || e == AbortReason::MixedTrophies || e
                        == AbortReason::AmountOverflow)
                },
            },
            r is Ok <==> spec_all_live(*old(rm), trophies@) && spec_all_match(*old(rm), trophies@)
                && spec_sum_donated(*old(rm), trophies@) <= u128::MAX,
    {
        let n = trophies.len();
        // every input must name a live record
        let mut i: usize = 0;
        while i < n
            invariant
                i <= n,
                forall|k: int| 0 <= k < i ==> rm.spec_live(trophies@[k]),
            decreases n - i,
        {
            match rm.get_non_fungible_data(trophies[i]) {
                Some(_) => {},
                None => {
                    return Err(AbortReason::UnknownTrophy);
                },
            }
            i = i + 1;
        }
        assert(spec_all_live(*old(rm), trophies@));
        // every input must share the template taken from the first record
        let template = match rm.get_non_fungible_data(trophies[0]) {
            Some(t) => t,
            None => {
                return Err(AbortReason::UnknownTrophy);
            },
        };
        let mut i: usize = 1;
        while i < n
            invariant
                1 <= i <= n,
                forall|k: int|
                    0 <= k < i ==> rm.spec_trophy(trophies@[k]).matches_template(
                        rm.spec_trophy(trophies@[0]),
                    ),
            decreases n - i,
        {
            let t = match rm.get_non_fungible_data(trophies[i]) {
                Some(t) => t,
                None => {
                    return Err(AbortReason::UnknownTrophy);
                },
            };
            let same_cid = t.collection_id == template.collection_id;
            let same_info = t.info_url == template.info_url;
            let same_name = t.name == template.name;
            if !same_cid || !same_info || !same_name {
                proof {
                    assert(!rm.spec_trophy(trophies@[i as int]).matches_template(
                        rm.spec_trophy(trophies@[0]),
                    ));
                    assert(!spec_all_match(*old(rm), trophies@));
                }
                return Err(AbortReason::MixedTrophies);
            }
            i = i + 1;
        }
        assert(spec_all_match(*old(rm), trophies@));
        // the exact sum of the donated totals, refused if it cannot be held
        let mut donated: u128 = 0;
        let mut i: usize = 0;
        while i < n
            invariant
                i <= n,
                donated == spec_sum_donated(*old(rm), trophies@.take(i as int)),
            decreases n - i,
        {
            let t = match rm.get_non_fungible_data(trophies[i]) {
                Some(t) => t,
                None => {
                    return Err(AbortReason::UnknownTrophy);
                },
            };
            proof {
                lemma_take_step(trophies@, i as int);
            }
            donated = match donated.checked_add(t.donated) {
                Some(v) => v,
                None => {
                    proof {
                        lemma_sum_donated_prefix(*old(rm), trophies@, i as int + 1);
                    }
                    return Err(AbortReason::AmountOverflow);
                },
            };
            i = i + 1;
        }
        proof {
            assert(trophies@.take(n as int) =~= trophies@);
        }
        // the earliest creation date; the strict comparison keeps the
        // first-seen date on ties
        let mut earliest: Date = template.created;
        proof {
            assert(trophies@.take(1)[0] == trophies@[0]);
        }
        let mut i: usize = 1;
        while i < n
            invariant
                1 <= i <= n,
                earliest == spec_min_created(*old(rm), trophies@.take(i as int)),
            decreases n - i,
        {
            let t = match rm.get_non_fungible_data(trophies[i]) {
                Some(t) => t,
                None => {
                    return Err(AbortReason::UnknownTrophy);
                },
            };
            proof {
                lemma_take_step(trophies@, i as int);
            }
            if t.created.lt(&earliest) {
                earliest = t.created;
            }
            i = i + 1;
        }
        // keep the template's identity and the base path before any record
        // is touched
        let name = template.name.clone();
        let info_url = template.info_url.clone();
        let collection_id = template.collection_id.clone();
        let domain = rm.get_metadata_domain().clone();
        // burn every input; the mint below commits the merge
        let mut i: usize = 0;
        while i < n
            invariant
                i <= n,
                rm.records@.len() == old(rm).records@.len(),
                forall|j: int|
                    0 <= j < old(rm).records@.len() ==> rm.records@[j] == (
                    if trophies@.take(i as int).contains(j as u64) {
                        None
                    } else {
                        old(rm).records@[j]
                    }),
                rm.same_authority(*old(rm)),
            decreases n - i,
        {
            let id = trophies[i];
            proof {
                lemma_no_dup_prefix_absent(trophies@, i as int);
            }
            let ghost prev = *rm;
            match rm.burn(self.component_address, id) {
                Ok(()) => {},
                Err(_) => {
                    return Err(AbortReason::UnknownTrophy);
                },
            }
            proof {
                assert forall|j: int| 0 <= j < old(rm).records@.len() implies rm.records@[j] == (
                if trophies@.take(i as int + 1).contains(j as u64) {
                    None
                } else {
                    old(rm).records@[j]
                }) by {
                    lemma_take_contains_step(trophies@, i as int, j as u64);
                    assert(prev.records@[j] == (if trophies@.take(i as int).contains(j as u64) {
                        None
                    } else {
                        old(rm).records@[j]
                    }));
                    assert(rm.records@ == prev.records@.update(id as int, None));
                    if j == id as int {
                        assert(j as u64 == trophies@[i as int]);
                        assert(trophies@.take(i as int + 1).contains(j as u64));
                        assert(rm.records@[j] is None);
                    } else {
                        assert(rm.records@[j] == prev.records@[j]);
                        assert(old(rm).spec_live(trophies@[i as int]));
                        // the store's length fits usize, so the index cast
                        // below is lossless
                        assert(prev.records.len() == prev.records@.len());
                        assert(j as u64 != id);
                        assert(trophies@.take(i as int + 1).contains(j as u64)
                            == trophies@.take(i as int).contains(j as u64));
                    }
                }
            }
            i = i + 1;
        }
        let created_text = generate_created_string(&earliest);
        let key_image_url = generate_url(domain, donated, created_text, collection_id.clone());
        let new_trophy_data = TrophyData {
            name,
            info_url,
            collection_id,
            created: earliest,
            donated,
            key_image_url,
        };
        match rm.mint_ruid_non_fungible(self.component_address, None, new_trophy_data) {
            Ok(new_id) => {
                proof {
                    assert(trophies@.take(n as int) =~= trophies@);
                }
                Ok(new_id)
            },
            Err(_) => Err(AbortReason::UnknownTrophy),
        }
    }
}

} // verus!

use trophy_registry::auth::{AbortReason, BadgeProof, Bucket, MinterBadge, TrophyProof, Vault};
use trophy_registry::collection::{generate_url, Collection};
use trophy_registry::date::Date;
use trophy_registry::manager::TrophyResourceManager;
use trophy_registry::repository::Repository;

const XRD: u64 = 2;

fn setup(royalty: u128) -> (Repository, TrophyResourceManager, Collection) {
    let (mut repo, rm) = Repository::new(String::from("https://backeum.test"), 900, 901, 1000);
    let (coll, admin_badge) = repo.new_collection_component(
        String::from("alice"),
        String::from("alice"),
        BadgeProof { resource: 555 },
        String::from("collection-alice"),
        royalty,
        XRD,
    );
    assert_eq!(admin_badge.amount, 1);
    assert_eq!(admin_badge.resource, coll.admin_badge_address);
    (repo, rm, coll)
}

#[test]
fn mint_accounts_payment_plus_royalty() {
    let (_repo, mut rm, mut coll) = setup(5);
    let now = Date { year: 2024, month: 1, day: 10 };
    let id = coll
        .donate_mint(&mut rm, Bucket { resource: XRD, amount: 100 }, now)
        .unwrap();
    let trophy = rm.get_non_fungible_data(id).unwrap();
    assert_eq!(trophy.donated, 105);
    assert_eq!(trophy.name, "alice's Trophy");
    assert_eq!(trophy.info_url, "https://backeum.test/p/alice");
    assert_eq!(trophy.collection_id, "collection-alice");
    assert_eq!(trophy.created, now);
    assert_eq!(
        trophy.key_image_url,
        "https://backeum.test/nft/collection/collection-alice?donated=105&created=2024-1-10"
    );
    assert_eq!(coll.donations.amount, 100);
}

#[test]
fn update_grows_the_same_record() {
    let (_repo, mut rm, mut coll) = setup(5);
    let now = Date { year: 2024, month: 1, day: 10 };
    let id = coll
        .donate_mint(&mut rm, Bucket { resource: XRD, amount: 100 }, now)
        .unwrap();
    let proof = TrophyProof { resource: rm.resource_address, trophy_id: id };
    coll.donate_update(&mut rm, Bucket { resource: XRD, amount: 50 }, proof)
        .unwrap();
    // no new record was minted and the id still names the same trophy
    assert_eq!(rm.records.len(), 1);
    let trophy = rm.get_non_fungible_data(id).unwrap();
    assert_eq!(trophy.donated, 160);
    assert_eq!(trophy.created, now);
    assert_eq!(coll.donations.amount, 150);
}

#[test]
fn donated_totals_over_a_run_of_donations() {
    let (_repo, mut rm, mut coll) = setup(5);
    let now = Date { year: 2024, month: 2, day: 29 };
    let id = coll
        .donate_mint(&mut rm, Bucket { resource: XRD, amount: 100 }, now)
        .unwrap();
    let proof = TrophyProof { resource: rm.resource_address, trophy_id: id };
    coll.donate_update(&mut rm, Bucket { resource: XRD, amount: 50 }, proof)
        .unwrap();
    coll.donate_update(&mut rm, Bucket { resource: XRD, amount: 25 }, proof)
        .unwrap();
    let trophy = rm.get_non_fungible_data(id).unwrap();
    // sum of payments plus the royalty once per donation
    assert_eq!(trophy.donated, 100 + 50 + 25 + 3 * 5);
    // the cached url always matches a fresh derivation from the post-update
    // fields
    let expected = generate_url(
        rm.domain.clone(),
        trophy.donated,
        String::from("2024-2-29"),
        trophy.collection_id.clone(),
    );
    assert_eq!(trophy.key_image_url, expected);
}

#[test]
fn payment_of_a_foreign_resource_is_refused() {
    let (_repo, mut rm, mut coll) = setup(5);
    let now = Date { year: 2024, month: 1, day: 10 };
    let r = coll.donate_mint(&mut rm, Bucket { resource: 99, amount: 100 }, now);
    assert_eq!(r, Err(AbortReason::WrongResourceKind));
    assert_eq!(rm.records.len(), 0);
    assert_eq!(coll.donations.amount, 0);
}

#[test]
fn proof_of_a_foreign_record_type_is_refused() {
    let (_repo, mut rm, mut coll) = setup(5);
    let now = Date { year: 2024, month: 1, day: 10 };
    let id = coll
        .donate_mint(&mut rm, Bucket { resource: XRD, amount: 100 }, now)
        .unwrap();
    let bad_proof = TrophyProof { resource: 99, trophy_id: id };
    let r = coll.donate_update(&mut rm, Bucket { resource: XRD, amount: 50 }, bad_proof);
    assert_eq!(r, Err(AbortReason::WrongResourceKind));
    assert_eq!(rm.get_non_fungible_data(id).unwrap().donated, 105);
    assert_eq!(coll.donations.amount, 100);
}

#[test]
fn overflowing_donation_is_refused() {
    let (_repo, mut rm, mut coll) = setup(5);
    let now = Date { year: 2024, month: 1, day: 10 };
    let r = coll.donate_mint(&mut rm, Bucket { resource: XRD, amount: u128::MAX }, now);
    assert_eq!(r, Err(AbortReason::AmountOverflow));
    assert_eq!(rm.records.len(), 0);
    assert_eq!(coll.donations.amount, 0);
}

#[test]
fn update_keeps_the_records_own_collection_id_in_the_url() {
    let (mut repo, mut rm, mut coll) = setup(5);
    // a second collection of the same registry; its records carry its own id
    let (mut other, _badge) = repo.new_collection_component(
        String::from("bob"),
        String::from("bob"),
        BadgeProof { resource: 555 },
        String::from("collection-bob"),
        3,
        XRD,
    );
    let now = Date { year: 2024, month: 1, day: 10 };
    let id = other
        .donate_mint(&mut rm, Bucket { resource: XRD, amount: 100 }, now)
        .unwrap();
    // the record is of the shared trophy resource, so the first collection
    // accepts the proof; the refreshed url is still derived from the
    // record's own fields, not from the collection it passed through
    let proof = TrophyProof { resource: rm.resource_address, trophy_id: id };
    coll.donate_update(&mut rm, Bucket { resource: XRD, amount: 50 }, proof)
        .unwrap();
    let trophy = rm.get_non_fungible_data(id).unwrap();
    assert_eq!(trophy.collection_id, "collection-bob");
    assert_eq!(trophy.donated, 103 + 50 + 5);
    assert_eq!(
        trophy.key_image_url,
        "https://backeum.test/nft/collection/collection-bob?donated=158&created=2024-1-10"
    );
}

#[test]
fn minter_badge_is_useless_from_another_component() {
    let (_repo, mut rm, coll) = setup(5);
    // a component at another address that somehow copied the genuine badge:
    // the origin restriction refuses it
    let (mut rogue, _badge) = Collection::new(
        900,
        5,
        MinterBadge { resource: coll.minter_badge.resource, scoped_to: coll.component_address },
        String::from("mallory"),
        String::from("mallory"),
        String::from("collection-mallory"),
        4242,
        4243,
        XRD,
    );
    let now = Date { year: 2024, month: 1, day: 10 };
    let r = rogue.donate_mint(&mut rm, Bucket { resource: XRD, amount: 100 }, now);
    assert_eq!(r, Err(AbortReason::NotAuthorized));
    assert_eq!(rm.records.len(), 0);
}

#[test]
fn withdraw_requires_the_admin_badge() {
    let (_repo, mut rm, mut coll) = setup(5);
    let now = Date { year: 2024, month: 1, day: 10 };
    coll.donate_mint(&mut rm, Bucket { resource: XRD, amount: 100 }, now)
        .unwrap();
    // a non-admin-badge holder is refused and the vault is unchanged
    let r = coll.withdraw_donations(BadgeProof { resource: 77 });
    assert_eq!(r, Err(AbortReason::NotAuthorized));
    assert_eq!(coll.donations.amount, 100);
    // the admin badge holder drains the whole vault in one step
    let admin = BadgeProof { resource: coll.admin_badge_address };
    let funds = coll.withdraw_donations(admin).unwrap();
    assert_eq!(funds, Bucket { resource: XRD, amount: 100 });
    assert_eq!(coll.donations.amount, 0);
}

#[test]
fn vault_takes_and_drains() {
    let mut vault = Vault { resource: XRD, amount: 0 };
    vault.put(Bucket { resource: XRD, amount: 30 });
    vault.put(Bucket { resource: XRD, amount: 12 });
    let all = vault.take_all();
    assert_eq!(all, Bucket { resource: XRD, amount: 42 });
    assert_eq!(vault.amount, 0);
}

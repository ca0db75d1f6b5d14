use trophy_registry::auth::{BadgeProof, Bucket};
use trophy_registry::collection::{generate_created_string, generate_url};
use trophy_registry::date::Date;
use trophy_registry::repository::Repository;

const XRD: u64 = 2;

#[test]
fn url_has_the_canonical_shape() {
    let url = generate_url(
        String::from("https://backeum.test"),
        105,
        String::from("2024-1-10"),
        String::from("collection-alice"),
    );
    assert_eq!(
        url,
        "https://backeum.test/nft/collection/collection-alice?donated=105&created=2024-1-10"
    );
}

#[test]
fn url_derivation_is_idempotent() {
    let first = generate_url(
        String::from("https://backeum.test"),
        12345678901234567890,
        String::from("1999-12-31"),
        String::from("c-9"),
    );
    let second = generate_url(
        String::from("https://backeum.test"),
        12345678901234567890,
        String::from("1999-12-31"),
        String::from("c-9"),
    );
    assert_eq!(first, second);
}

#[test]
fn created_string_is_unpadded() {
    assert_eq!(
        generate_created_string(&Date { year: 2024, month: 1, day: 10 }),
        "2024-1-10"
    );
    assert_eq!(
        generate_created_string(&Date { year: 987, month: 11, day: 3 }),
        "987-11-3"
    );
    assert_eq!(generate_created_string(&Date { year: 0, month: 0, day: 0 }), "0-0-0");
}

#[test]
fn zero_donation_still_renders_a_zero_amount() {
    let url = generate_url(
        String::from("b"),
        0,
        String::from("2024-1-1"),
        String::from("c"),
    );
    assert_eq!(url, "b/nft/collection/c?donated=0&created=2024-1-1");
}

#[test]
fn stale_urls_persist_until_a_record_is_touched() {
    let owner_badge: u64 = 900;
    let (mut repo, mut rm) = Repository::new(String::from("https://backeum.test"), owner_badge, 901, 1000);
    let (mut coll, _admin_badge) = repo.new_collection_component(
        String::from("alice"),
        String::from("alice"),
        BadgeProof { resource: 555 },
        String::from("collection-alice"),
        5,
        XRD,
    );
    let id = coll
        .donate_mint(
            &mut rm,
            Bucket { resource: XRD, amount: 100 },
            Date { year: 2024, month: 1, day: 10 },
        )
        .unwrap();
    let url_before = rm.get_non_fungible_data(id).unwrap().key_image_url.clone();

    // an empty id set changes the global base path and nothing else
    repo.update_base_path(
        &mut rm,
        String::from("https://moved.test"),
        vec![],
        BadgeProof { resource: owner_badge },
    )
    .unwrap();
    assert_eq!(rm.domain, "https://moved.test");
    assert_eq!(rm.get_non_fungible_data(id).unwrap().key_image_url, url_before);

    // the next donation touches the record and re-derives its url under
    // the new base path
    let proof = trophy_registry::auth::TrophyProof {
        resource: rm.resource_address,
        trophy_id: id,
    };
    coll.donate_update(&mut rm, Bucket { resource: XRD, amount: 10 }, proof)
        .unwrap();
    assert_eq!(
        rm.get_non_fungible_data(id).unwrap().key_image_url,
        "https://moved.test/nft/collection/collection-alice?donated=120&created=2024-1-10"
    );
}

use trophy_registry::auth::{BadgeProof, Bucket};
use trophy_registry::date::Date;
use trophy_registry::repository::Repository;

#[test]
fn repository_test() {
    let (repo, rm) = Repository::new(
        String::from("https://localhost:8080/nft_image"),
        900,
        901,
        1000,
    );
    assert_eq!(rm.domain, "https://localhost:8080/nft_image");
    assert_eq!(rm.repository_address, repo.component_address);
    assert_eq!(rm.minter_badge_address, repo.minter_badge_address);
    assert_eq!(rm.resource_address, repo.trophy_resource_address);
    assert_eq!(rm.records.len(), 0);
}

#[test]
fn repository_update_base_path() {
    let owner_badge: u64 = 900;
    let xrd: u64 = 2;
    let (mut repo, mut rm) = Repository::new(
        String::from("https://localhost:8080/nft_image"),
        owner_badge,
        901,
        1000,
    );
    let (mut coll, _admin_badge) = repo.new_collection_component(
        String::from("bob"),
        String::from("bob"),
        BadgeProof { resource: 555 },
        String::from("collection-bob"),
        0,
        xrd,
    );

    // donate and mint a trophy
    let now = Date { year: 2023, month: 10, day: 5 };
    let trophy_id = coll
        .donate_mint(&mut rm, Bucket { resource: xrd, amount: 100 }, now)
        .unwrap();
    assert_eq!(rm.records.len(), 1);

    // an account without the owner badge cannot update the base path
    let r = repo.update_base_path(
        &mut rm,
        String::from("https://some_other_url/nft_image"),
        vec![trophy_id],
        BadgeProof { resource: 555 },
    );
    assert!(r.is_err());
    assert_eq!(rm.domain, "https://localhost:8080/nft_image");

    let r = repo.update_base_path(
        &mut rm,
        String::from("https://some_other_url/nft_image"),
        vec![trophy_id],
        BadgeProof { resource: 123 },
    );
    assert!(r.is_err());
    assert_eq!(rm.domain, "https://localhost:8080/nft_image");

    // the owner badge holder can
    let r = repo.update_base_path(
        &mut rm,
        String::from("https://some_other_url/nft_image"),
        vec![trophy_id],
        BadgeProof { resource: owner_badge },
    );
    assert!(r.is_ok());
    assert_eq!(rm.domain, "https://some_other_url/nft_image");
    let trophy = rm.get_non_fungible_data(trophy_id).unwrap();
    assert!(trophy
        .key_image_url
        .starts_with("https://some_other_url/nft_image/nft/collection/"));
}

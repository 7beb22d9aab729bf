use solspace::auth::Identity;
use solspace::counter::Counter;
use solspace::record::ErrorCode;
use solspace::store::RecordStore;

fn ident(key: u64) -> Identity {
    Identity { key }
}

#[test]
fn full_lifecycle_scenario() {
    let mut store = RecordStore::new();
    let mut slot: Option<Counter> = None;
    let a = ident(1);

    // mint ("post-1", "alice") by authority A: tier 1, unclaimed
    let minted = store
        .mint_viral_post(
            "post-1".to_string(),
            "alice".to_string(),
            None,
            a,
            100,
            &mut slot,
        )
        .unwrap();
    assert_eq!(minted.tier, 1);
    assert!(!minted.claimed);
    assert_eq!(minted.created_at, 100);
    assert_eq!(minted.authority, a);
    assert_eq!(minted.content_id, "post-1".to_string());
    assert_eq!(minted.author_id, "alice".to_string());
    assert_eq!(minted.claimer, None);
    assert_eq!(minted.claimed_at, None);
    assert_eq!(minted.last_upgraded, None);

    // upgrade by A to tier 2 succeeds and stamps last_upgraded
    let id = "post-1".to_string();
    let upgraded = store.upgrade_tier(&id, 2, None, a, 200).unwrap();
    assert_eq!(upgraded.tier, 2);
    assert_eq!(upgraded.last_upgraded, Some(200));

    // upgrade by a non-authority caller to tier 3 fails; tier stays 2
    let b = ident(2);
    let denied = store.upgrade_tier(&id, 3, None, b, 201);
    assert_eq!(denied.unwrap_err(), ErrorCode::Unauthorized);
    assert_eq!(store.get(&id).unwrap().tier, 2);

    // claim by any caller C succeeds
    let c = ident(9);
    let claimed = store.claim_viral_post(&id, c, 300, &mut slot).unwrap();
    assert!(claimed.claimed);
    assert_eq!(claimed.claimer, Some(c));
    assert_eq!(claimed.claimed_at, Some(300));

    // second claim by D fails; claimer remains C
    let d = ident(4);
    let again = store.claim_viral_post(&id, d, 301, &mut slot);
    assert_eq!(again.unwrap_err(), ErrorCode::AlreadyClaimed);
    let stored = store.get(&id).unwrap();
    assert_eq!(stored.claimer, Some(c));
    assert_eq!(stored.claimed_at, Some(300));
}

#[test]
fn duplicate_mint_rejected_and_existing_record_untouched() {
    let mut store = RecordStore::new();
    let mut slot: Option<Counter> = None;
    let a = ident(1);
    store
        .mint_viral_post(
            "post-1".to_string(),
            "alice".to_string(),
            Some("ipfs://one".to_string()),
            a,
            10,
            &mut slot,
        )
        .unwrap();

    let b = ident(2);
    let r = store.mint_viral_post(
        "post-1".to_string(),
        "mallory".to_string(),
        Some("ipfs://two".to_string()),
        b,
        20,
        &mut slot,
    );
    assert_eq!(r.unwrap_err(), ErrorCode::DuplicateRecord);

    let id = "post-1".to_string();
    let stored = store.get(&id).unwrap();
    assert_eq!(stored.author_id, "alice".to_string());
    assert_eq!(stored.authority, a);
    assert_eq!(stored.created_at, 10);
    assert_eq!(stored.metadata_uri, Some("ipfs://one".to_string()));
}

#[test]
fn upgrade_to_same_tier_rejected() {
    let mut store = RecordStore::new();
    let mut slot: Option<Counter> = None;
    let a = ident(1);
    store
        .mint_viral_post("post-1".to_string(), "alice".to_string(), None, a, 10, &mut slot)
        .unwrap();

    let id = "post-1".to_string();
    let same = store.upgrade_tier(&id, 1, None, a, 20);
    assert_eq!(same.unwrap_err(), ErrorCode::InvalidTierUpgrade);
    assert_eq!(store.get(&id).unwrap().tier, 1);
    assert_eq!(store.get(&id).unwrap().last_upgraded, None);

    let lower = store.upgrade_tier(&id, 0, None, a, 21);
    assert_eq!(lower.unwrap_err(), ErrorCode::InvalidTierUpgrade);
    assert_eq!(store.get(&id).unwrap().tier, 1);
}

#[test]
fn operations_on_unknown_id_fail_not_found() {
    let mut store = RecordStore::new();
    let mut slot: Option<Counter> = None;
    let a = ident(1);
    let id = "missing".to_string();

    assert_eq!(
        store.upgrade_tier(&id, 2, None, a, 5).unwrap_err(),
        ErrorCode::NotFound
    );
    assert_eq!(
        store.claim_viral_post(&id, a, 5, &mut slot).unwrap_err(),
        ErrorCode::NotFound
    );
    assert!(store.get(&id).is_none());
}

#[test]
fn upgrade_replaces_metadata_uri() {
    let mut store = RecordStore::new();
    let mut slot: Option<Counter> = None;
    let a = ident(1);
    store
        .mint_viral_post(
            "post-7".to_string(),
            "dana".to_string(),
            Some("ipfs://old".to_string()),
            a,
            10,
            &mut slot,
        )
        .unwrap();

    let id = "post-7".to_string();
    let upgraded = store
        .upgrade_tier(&id, 3, Some("ipfs://new".to_string()), a, 20)
        .unwrap();
    assert_eq!(upgraded.metadata_uri, Some("ipfs://new".to_string()));
    assert_eq!(store.get(&id).unwrap().metadata_uri, Some("ipfs://new".to_string()));
}

#[test]
fn tiers_climb_across_successive_upgrades() {
    let mut store = RecordStore::new();
    let mut slot: Option<Counter> = None;
    let a = ident(1);
    store
        .mint_viral_post("post-9".to_string(), "eli".to_string(), None, a, 10, &mut slot)
        .unwrap();
    let id = "post-9".to_string();

    let mut seen: u8 = store.get(&id).unwrap().tier;
    for (target, at) in [(2u8, 20i64), (3, 30), (7, 40)] {
        let r = store.upgrade_tier(&id, target, None, a, at).unwrap();
        assert!(r.tier > seen);
        seen = r.tier;
    }
    // a stale (non-increasing) target is rejected and the tier stays put
    assert_eq!(
        store.upgrade_tier(&id, 3, None, a, 50).unwrap_err(),
        ErrorCode::InvalidTierUpgrade
    );
    assert_eq!(store.get(&id).unwrap().tier, 7);
}

#[test]
fn records_with_distinct_ids_live_side_by_side() {
    let mut store = RecordStore::new();
    let mut slot: Option<Counter> = None;
    let a = ident(1);
    store
        .mint_viral_post("post-1".to_string(), "alice".to_string(), None, a, 10, &mut slot)
        .unwrap();
    store
        .mint_viral_post("post-2".to_string(), "bob".to_string(), None, a, 11, &mut slot)
        .unwrap();

    let one = "post-1".to_string();
    let two = "post-2".to_string();
    store.upgrade_tier(&two, 5, None, a, 20).unwrap();
    assert_eq!(store.get(&one).unwrap().tier, 1);
    assert_eq!(store.get(&two).unwrap().tier, 5);
    assert_eq!(store.get(&one).unwrap().author_id, "alice".to_string());
    assert_eq!(store.get(&two).unwrap().author_id, "bob".to_string());
}

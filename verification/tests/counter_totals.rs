use solspace::auth::Identity;
use solspace::counter::Counter;
use solspace::record::ErrorCode;
use solspace::store::RecordStore;

fn ident(key: u64) -> Identity {
    Identity { key }
}

#[test]
fn initialize_zeroes_the_counter() {
    let mut slot: Option<Counter> = None;
    let a = ident(3);
    Counter::initialize(&mut slot, a).unwrap();
    let c = slot.unwrap();
    assert_eq!(c.authority, a);
    assert_eq!(c.count, 0);
    assert_eq!(c.viral_posts_minted, 0);
    assert_eq!(c.viral_posts_claimed, 0);
}

#[test]
fn reinitialize_rejected_and_counter_untouched() {
    let mut slot: Option<Counter> = None;
    let a = ident(3);
    Counter::initialize(&mut slot, a).unwrap();
    slot.as_mut().unwrap().record_mint();

    let b = ident(4);
    let r = Counter::initialize(&mut slot, b);
    assert_eq!(r.unwrap_err(), ErrorCode::AlreadyInitialized);
    let c = slot.unwrap();
    assert_eq!(c.authority, a);
    assert_eq!(c.viral_posts_minted, 1);
}

#[test]
fn mint_and_claim_totals_grow_by_exactly_one() {
    let mut store = RecordStore::new();
    let mut slot: Option<Counter> = None;
    let a = ident(1);
    Counter::initialize(&mut slot, a).unwrap();

    store
        .mint_viral_post("post-1".to_string(), "alice".to_string(), None, a, 10, &mut slot)
        .unwrap();
    assert_eq!(slot.unwrap().viral_posts_minted, 1);
    assert_eq!(slot.unwrap().viral_posts_claimed, 0);

    store
        .mint_viral_post("post-2".to_string(), "bob".to_string(), None, a, 11, &mut slot)
        .unwrap();
    assert_eq!(slot.unwrap().viral_posts_minted, 2);

    let id = "post-1".to_string();
    store.claim_viral_post(&id, ident(9), 20, &mut slot).unwrap();
    assert_eq!(slot.unwrap().viral_posts_claimed, 1);
    assert_eq!(slot.unwrap().viral_posts_minted, 2);
}

#[test]
fn failed_operations_leave_the_counter_unchanged() {
    let mut store = RecordStore::new();
    let mut slot: Option<Counter> = None;
    let a = ident(1);
    Counter::initialize(&mut slot, a).unwrap();
    store
        .mint_viral_post("post-1".to_string(), "alice".to_string(), None, a, 10, &mut slot)
        .unwrap();
    let id = "post-1".to_string();
    store.claim_viral_post(&id, ident(9), 20, &mut slot).unwrap();
    let before = slot.unwrap();

    // duplicate mint: minted total unchanged
    let dup = store.mint_viral_post(
        "post-1".to_string(),
        "alice".to_string(),
        None,
        a,
        30,
        &mut slot,
    );
    assert_eq!(dup.unwrap_err(), ErrorCode::DuplicateRecord);
    assert_eq!(slot.unwrap(), before);

    // second claim: claimed total unchanged
    let again = store.claim_viral_post(&id, ident(5), 31, &mut slot);
    assert_eq!(again.unwrap_err(), ErrorCode::AlreadyClaimed);
    assert_eq!(slot.unwrap(), before);

    // claim of a missing record: unchanged
    let missing = "missing".to_string();
    let r = store.claim_viral_post(&missing, ident(5), 32, &mut slot);
    assert_eq!(r.unwrap_err(), ErrorCode::NotFound);
    assert_eq!(slot.unwrap(), before);
}

#[test]
fn operations_succeed_without_a_counter() {
    let mut store = RecordStore::new();
    let mut slot: Option<Counter> = None;
    let a = ident(1);

    let minted = store
        .mint_viral_post("post-1".to_string(), "alice".to_string(), None, a, 10, &mut slot)
        .unwrap();
    assert_eq!(minted.tier, 1);
    assert!(slot.is_none());

    let id = "post-1".to_string();
    let claimed = store.claim_viral_post(&id, ident(9), 20, &mut slot).unwrap();
    assert!(claimed.claimed);
    assert!(slot.is_none());
}

//! Laws of the record lifecycle, stated over the spec-level models that the
//! executable operations are proved against: tier monotonicity, one-time
//! claiming, duplicate rejection, and counter accounting.

use vstd::prelude::*;

use crate::auth::Identity;
use crate::counter::Counter;
use crate::counter::can_count_claim;
use crate::counter::can_count_mint;
use crate::counter::spec_claim_counted;
use crate::counter::spec_mint_counted;
use crate::record::ErrorCode;
use crate::record::ViralPostView;
use crate::record::spec_claimed;
use crate::record::spec_upgraded;
use crate::store::id_in;
use crate::store::idx_of;
use crate::store::lemma_idx_of;
use crate::store::spec_claim_op;
use crate::store::spec_mint;
use crate::store::spec_upgrade_op;
use crate::store::unique_ids;

verus! {

/// `post` is `pre` after one successful tier upgrade: for some target tier
/// strictly above `pre.tier`, some metadata reference and some timestamp.
pub open spec fn upgrade_step(pre: ViralPostView, post: ViralPostView) -> bool {
    exists|new_tier: u8, new_metadata_uri: Option<Seq<char>>, now: i64|
        new_tier > pre.tier && post == spec_upgraded(pre, new_tier, new_metadata_uri, now)
}

/// Law: every successful tier upgrade strictly increases the tier.
pub proof fn lemma_upgrade_step_strictly_increases(pre: ViralPostView, post: ViralPostView)
    requires
        upgrade_step(pre, post),
    ensures
        post.tier > pre.tier,
{
    let (t, u, n) = choose|t: u8, u: Option<Seq<char>>, n: i64|
        t > pre.tier && post == spec_upgraded(pre, t, u, n);
    assert(post == spec_upgraded(pre, t, u, n));
}

/// Law: across any sequence of `upgrade_tier` calls on a record — each call
/// either leaves the record unchanged (a failure) or applies a successful
/// upgrade — the observed tier is non-decreasing.
pub proof fn lemma_tier_monotonic(chain: Seq<ViralPostView>, i: int, j: int)
    requires
        forall|k: int|
            0 <= k < chain.len() - 1 ==> (#[trigger] chain[k]) == chain[k + 1] || upgrade_step(
                chain[k],
                chain[k + 1],
            ),
        0 <= i <= j < chain.len(),
    ensures
        chain[i].tier <= chain[j].tier,
    decreases j - i,
{
    if i < j {
        lemma_tier_monotonic(chain, i, j - 1);
        assert(chain[j - 1] == chain[j] || upgrade_step(chain[j - 1], chain[j]));
        if upgrade_step(chain[j - 1], chain[j]) {
            lemma_upgrade_step_strictly_increases(chain[j - 1], chain[j]);
        }
    }
}

/// Every successful `upgrade_tier` call performs an `upgrade_step` on the
/// record it addresses, so the chain law above applies to the states a
/// record passes through in the store.
pub proof fn lemma_upgrade_op_is_step(
    s: Seq<ViralPostView>,
    id: Seq<char>,
    new_tier: u8,
    new_metadata_uri: Option<Seq<char>>,
    caller: Identity,
    now: i64,
)
    requires
        unique_ids(s),
        spec_upgrade_op(s, id, new_tier, new_metadata_uri, caller, now).1 is Ok,
    ensures
        ({
            let (s2, _) = spec_upgrade_op(s, id, new_tier, new_metadata_uri, caller, now);
            upgrade_step(s[idx_of(s, id)], s2[idx_of(s, id)])
        }),
{
    let i = idx_of(s, id);
    let (s2, _) = spec_upgrade_op(s, id, new_tier, new_metadata_uri, caller, now);
    assert(s2[i] == spec_upgraded(s[i], new_tier, new_metadata_uri, now));
}

/// Law: one `upgrade_tier` call never decreases the tier of any record in
/// the store, and on success it strictly increases the tier of the record
/// it addresses.
pub proof fn lemma_upgrade_op_tier_monotonic(
    s: Seq<ViralPostView>,
    id: Seq<char>,
    new_tier: u8,
    new_metadata_uri: Option<Seq<char>>,
    caller: Identity,
    now: i64,
)
    requires
        unique_ids(s),
    ensures
        ({
            let (s2, m) = spec_upgrade_op(s, id, new_tier, new_metadata_uri, caller, now);
            s2.len() == s.len() && (forall|k: int| 0 <= k < s.len() ==> s2[k].tier >= s[k].tier)
                && (m is Ok ==> s2[idx_of(s, id)].tier > s[idx_of(s, id)].tier)
        }),
{
}

/// Law: upgrading to the current tier (or below) is rejected, never a
/// successful no-op; when the caller holds the record's authority the
/// rejection is `InvalidTierUpgrade`, and the store is unchanged.
pub proof fn lemma_upgrade_same_tier_rejected(
    s: Seq<ViralPostView>,
    id: Seq<char>,
    new_metadata_uri: Option<Seq<char>>,
    caller: Identity,
    now: i64,
)
    requires
        unique_ids(s),
        id_in(s, id),
    ensures
        ({
            let pre = s[idx_of(s, id)];
            let (s2, m) = spec_upgrade_op(s, id, pre.tier, new_metadata_uri, caller, now);
            s2 == s && m is Err && (caller == pre.authority ==> m == Err::<
                ViralPostView,
                ErrorCode,
            >(ErrorCode::InvalidTierUpgrade))
        }),
{
}

/// Law: a claim succeeds at most once per record.  After a successful claim,
/// a second claim of the same identifier — by any caller, with any counter
/// slot — always fails with `AlreadyClaimed` and changes nothing: the store,
/// the counter slot, and in particular the `claimer` and `claimed_at` set by
/// the first claim all stay as they were.
pub proof fn lemma_claim_at_most_once(
    s: Seq<ViralPostView>,
    slot1: Option<Counter>,
    id: Seq<char>,
    claimer1: Identity,
    now1: i64,
    slot2: Option<Counter>,
    claimer2: Identity,
    now2: i64,
)
    requires
        unique_ids(s),
        spec_claim_op(s, slot1, id, claimer1, now1).2 is Ok,
    ensures
        ({
            let (s1, _, _) = spec_claim_op(s, slot1, id, claimer1, now1);
            let (s2, slot2b, m2) = spec_claim_op(s1, slot2, id, claimer2, now2);
            m2 == Err::<ViralPostView, ErrorCode>(ErrorCode::AlreadyClaimed) && s2 == s1
                && slot2b == slot2 && s1[idx_of(s1, id)].claimer == Some(claimer1)
                && s1[idx_of(s1, id)].claimed_at == Some(now1)
        }),
{
    let i = idx_of(s, id);
    assert(0 <= i < s.len() && s[i].content_id == id);
    let (s1, _, _) = spec_claim_op(s, slot1, id, claimer1, now1);
    assert(s1 == s.update(i, spec_claimed(s[i], claimer1, now1)));
    assert forall|a: int, b: int|
        0 <= a < s1.len() && 0 <= b < s1.len() && s1[a].content_id == s1[b].content_id implies a
        == b by {
        assert(s1[a].content_id == s[a].content_id);
        assert(s1[b].content_id == s[b].content_id);
    }
    lemma_idx_of(s1, id, i);
}

/// Law: counter accounting for a mint.  A supplied counter's mint total
/// grows by exactly 1 on success and is untouched on failure; an empty slot
/// stays empty; and whether a counter is supplied has no bearing on whether
/// the mint succeeds.
pub proof fn lemma_counter_accounting_mint(
    s: Seq<ViralPostView>,
    slot: Option<Counter>,
    content_id: Seq<char>,
    author_id: Seq<char>,
    metadata_uri: Option<Seq<char>>,
    authority: Identity,
    now: i64,
)
    requires
        can_count_mint(slot),
    ensures
        ({
            let (s2, slot2, m) = spec_mint(s, slot, content_id, author_id, metadata_uri, authority, now);
            (m is Err ==> slot2 == slot) && (m is Ok ==> match slot {
                Some(c) => slot2 == Some(spec_mint_counted(c)) && spec_mint_counted(
                    c,
                ).viral_posts_minted == c.viral_posts_minted + 1,
                None => slot2 is None,
            }) && (forall|other: Option<Counter>|
                spec_mint(s, other, content_id, author_id, metadata_uri, authority, now).2 is Ok
                    <==> m is Ok)
        }),
{
}

/// Law: counter accounting for a claim, in the same form as for a mint: the
/// claim total grows by exactly 1 on success, is untouched on failure, an
/// empty slot stays empty, and the slot has no bearing on the outcome.
pub proof fn lemma_counter_accounting_claim(
    s: Seq<ViralPostView>,
    slot: Option<Counter>,
    id: Seq<char>,
    claimer: Identity,
    now: i64,
)
    requires
        can_count_claim(slot),
    ensures
        ({
            let (s2, slot2, m) = spec_claim_op(s, slot, id, claimer, now);
            (m is Err ==> slot2 == slot) && (m is Ok ==> match slot {
                Some(c) => slot2 == Some(spec_claim_counted(c)) && spec_claim_counted(
                    c,
                ).viral_posts_claimed == c.viral_posts_claimed + 1,
                None => slot2 is None,
            }) && (forall|other: Option<Counter>|
                spec_claim_op(s, other, id, claimer, now).2 is Ok <==> m is Ok)
        }),
{
}

/// Law: a mint against an existing identifier always fails with
/// `DuplicateRecord` and mutates nothing — neither the store (in particular
/// the existing record) nor the counter slot.
pub proof fn lemma_mint_duplicate_rejected(
    s: Seq<ViralPostView>,
    slot: Option<Counter>,
    content_id: Seq<char>,
    author_id: Seq<char>,
    metadata_uri: Option<Seq<char>>,
    authority: Identity,
    now: i64,
)
    requires
        id_in(s, content_id),
    ensures
        spec_mint(s, slot, content_id, author_id, metadata_uri, authority, now) == (
            s,
            slot,
            Err::<ViralPostView, ErrorCode>(ErrorCode::DuplicateRecord),
        ),
{
}

} // verus!

//! The record store: the collection of content records, keyed by
//! `content_id`, and the three lifecycle operations on it.
//!
//! Each operation validates first and mutates only on success, as one
//! all-or-nothing step: on failure neither the store nor the counter slot
//! changes.  The spec functions `spec_mint`, `spec_upgrade_op` and
//! `spec_claim_op` give the complete functional behaviour of the
//! operations; each executable method ensures that it returns and mutates
//! exactly what its spec function says.

use vstd::prelude::*;

use crate::auth::AuthDecision;
use crate::auth::Identity;
use crate::auth::check_authority;
use crate::counter::Counter;
use crate::counter::can_count_claim;
use crate::counter::can_count_mint;
use crate::counter::spec_claim_counted;
use crate::counter::spec_mint_counted;
use crate::record::ErrorCode;
use crate::record::ViralPost;
use crate::record::ViralPostView;
use crate::record::spec_claimed;
use crate::record::spec_minted;
use crate::record::spec_upgraded;
use crate::record::uri_view;

verus! {

/// Some record in `s` carries the content identifier `id`.
pub open spec fn id_in(s: Seq<ViralPostView>, id: Seq<char>) -> bool {
    exists|i: int| 0 <= i < s.len() && s[i].content_id == id
}

/// The index of the record carrying `id`; meaningful only when `id_in`
/// holds, and unique when `unique_ids` holds.
pub open spec fn idx_of(s: Seq<ViralPostView>, id: Seq<char>) -> int {
    choose|i: int| 0 <= i < s.len() && s[i].content_id == id
}

/// No two records in `s` share a content identifier.
pub open spec fn unique_ids(s: Seq<ViralPostView>) -> bool {
    forall|i: int, j: int|
        0 <= i < s.len() && 0 <= j < s.len() && s[i].content_id == s[j].content_id ==> i == j
}

/// Under `unique_ids`, any index whose record carries `id` is the one that
/// `idx_of` denotes.
pub proof fn lemma_idx_of(s: Seq<ViralPostView>, id: Seq<char>, i: int)
    requires
        unique_ids(s),
        0 <= i < s.len(),
        s[i].content_id == id,
    ensures
        id_in(s, id),
        idx_of(s, id) == i,
{
    assert(id_in(s, id));
    let j = idx_of(s, id);
    assert(0 <= j < s.len() && s[j].content_id == id);
}

/// The exact outcome of a mint: a duplicate identifier fails with
/// `DuplicateRecord` and changes nothing; otherwise the fresh tier-1 record
/// is appended, and a supplied counter has its mint total grow by exactly 1
/// in the same step (an empty slot stays empty and does not block the mint).
pub open spec fn spec_mint(
    s: Seq<ViralPostView>,
    slot: Option<Counter>,
    content_id: Seq<char>,
    author_id: Seq<char>,
    metadata_uri: Option<Seq<char>>,
    authority: Identity,
    now: i64,
) -> (Seq<ViralPostView>, Option<Counter>, Result<ViralPostView, ErrorCode>) {
    if id_in(s, content_id) {
        (s, slot, Err(ErrorCode::DuplicateRecord))
    } else {
        let post = spec_minted(content_id, author_id, metadata_uri, authority, now);
        let slot2 = match slot {
            Some(c) => Some(spec_mint_counted(c)),
            None => None,
        };
        (s.push(post), slot2, Ok(post))
    }
}

/// The exact outcome of a tier upgrade: `NotFound` for an unknown
/// identifier, `Unauthorized` when the caller is not the record's stored
/// authority, `InvalidTierUpgrade` when the target tier is not strictly
/// greater than the current one — each leaving the store unchanged — and
/// otherwise the record is replaced by its upgraded value.
pub open spec fn spec_upgrade_op(
    s: Seq<ViralPostView>,
    id: Seq<char>,
    new_tier: u8,
    new_metadata_uri: Option<Seq<char>>,
    caller: Identity,
    now: i64,
) -> (Seq<ViralPostView>, Result<ViralPostView, ErrorCode>) {
    if !id_in(s, id) {
        (s, Err(ErrorCode::NotFound))
    } else {
        let i = idx_of(s, id);
        let pre = s[i];
        if caller != pre.authority {
            (s, Err(ErrorCode::Unauthorized))
        } else if new_tier <= pre.tier {
            (s, Err(ErrorCode::InvalidTierUpgrade))
        } else {
            let post = spec_upgraded(pre, new_tier, new_metadata_uri, now);
            (s.update(i, post), Ok(post))
        }
    }
}

/// The exact outcome of a claim: `NotFound` for an unknown identifier,
/// `AlreadyClaimed` when the record was claimed before — each leaving store
/// and counter unchanged — and otherwise the claim is recorded with the
/// caller bound as claimer (no authority check: any caller may claim an
/// unclaimed record), and a supplied counter has its claim total grow by
/// exactly 1 in the same step.
pub open spec fn spec_claim_op(
    s: Seq<ViralPostView>,
    slot: Option<Counter>,
    id: Seq<char>,
    claimer: Identity,
    now: i64,
) -> (Seq<ViralPostView>, Option<Counter>, Result<ViralPostView, ErrorCode>) {
    if !id_in(s, id) {
        (s, slot, Err(ErrorCode::NotFound))
    } else {
        let i = idx_of(s, id);
        let pre = s[i];
        if pre.claimed {
            (s, slot, Err(ErrorCode::AlreadyClaimed))
        } else {
            let post = spec_claimed(pre, claimer, now);
            let slot2 = match slot {
                Some(c) => Some(spec_claim_counted(c)),
                None => None,
            };
            (s.update(i, post), slot2, Ok(post))
        }
    }
}

/// The returned snapshot or error agrees with the modelled outcome `m`.
pub open spec fn matches_result(
    r: Result<ViralPost, ErrorCode>,
    m: Result<ViralPostView, ErrorCode>,
) -> bool {
    match (r, m) {
        (Ok(p), Ok(v)) => p@ == v,
        (Err(e), Err(f)) => e == f,
        _ => false,
    }
}

/// The collection of content records. The well-formedness invariant
/// `wf` — content identifiers are unique — is established by `new` and
/// preserved by every operation.
pub struct RecordStore {
    pub records: Vec<ViralPost>,
}

impl View for RecordStore {
    type V = Seq<ViralPostView>;

    open spec fn view(&self) -> Seq<ViralPostView> {
        self.records@.map_values(|p: ViralPost| p@)
    }
}

impl RecordStore {
    /// Content identifiers are unique across the store.
    pub open spec fn wf(&self) -> bool {
        unique_ids(self@)
    }

    /// An empty store.
    pub fn new() -> (s: RecordStore)
        ensures
            s@ == Seq::<ViralPostView>::empty(),
            s.wf(),
    {
        let s = RecordStore { records: Vec::new() };
        proof {
            assert(s@ =~= Seq::<ViralPostView>::empty());
        }
        s
    }

    /// The index of the record carrying `content_id`, if any.
    fn find_index(&self, content_id: &String) -> (r: Option<usize>)
        ensures
            match r {
                Some(i) => 0 <= i < self@.len() && self@[i as int].content_id == content_id@,
                None => !id_in(self@, content_id@),
            },
    {
        let n = self.records.len();
        let mut j: usize = 0;
        while j < n
            invariant
                j <= n,
                n == self.records@.len(),
                forall|k: int| 0 <= k < j ==> self@[k].content_id != content_id@,
            decreases n - j,
        {
            if self.records[j].content_id == *content_id {
                return Some(j);
            }
            j = j + 1;
        }
        None
    }

    /// Mints a new record for `content_id`, written by `author_id`, with
    /// tier 1, unclaimed, `created_at = now` and the minting caller stored
    /// as the record's authority.  Fails with `DuplicateRecord`, mutating
    /// nothing, exactly when `content_id` is already present.  A counter in
    /// the slot is updated in the same atomic step; an empty slot never
    /// blocks the mint.
    pub fn mint_viral_post(
        &mut self,
        content_id: String,
        author_id: String,
        metadata_uri: Option<String>,
        authority: Identity,
        now: i64,
        counter: &mut Option<Counter>,
    ) -> (r: Result<ViralPost, ErrorCode>)
        requires
            old(self).wf(),
            can_count_mint(*old(counter)),
        ensures
            final(self).wf(),
            ({
                let (s2, slot2, m) = spec_mint(
                    old(self)@,
                    *old(counter),
                    content_id@,
                    author_id@,
                    uri_view(metadata_uri),
                    authority,
                    now,
                );
                final(self)@ == s2 && *final(counter) == slot2 && matches_result(r, m)
            }),
    {
        if let Some(_) = self.find_index(&content_id) {
            return Err(ErrorCode::DuplicateRecord);
        }
        match counter {
            Some(c) => c.record_mint(),
            None => {},
        }
        let post = ViralPost {
            authority,
            content_id,
            author_id,
            created_at: now,
            tier: 1,
            claimed: false,
            claimed_at: None,
            last_upgraded: None,
            claimer: None,
            metadata_uri,
        };
        let snap = post.snapshot();
        self.records.push(post);
        proof {
            let s = old(self)@;
            let s2 = s.push(snap@);
            assert(self@ =~= s2);
            assert forall|i: int, j: int|
                0 <= i < s2.len() && 0 <= j < s2.len() && s2[i].content_id == s2[j].content_id
                    implies i == j by {
                if i < s.len() && j == s.len() {
                    assert(id_in(s, s2[i].content_id));
                }
                if j < s.len() && i == s.len() {
                    assert(id_in(s, s2[j].content_id));
                }
            }
        }
        Ok(snap)
    }

    /// Upgrades the tier of the record carrying `content_id` to `new_tier`,
    /// replacing its metadata reference and stamping `last_upgraded = now`.
    /// Fails — mutating nothing — with `NotFound` when the identifier is
    /// unknown, `Unauthorized` when `caller` is not the record's stored
    /// authority, and `InvalidTierUpgrade` when `new_tier` is not strictly
    /// greater than the current tier (upgrading to the same tier is a
    /// rejection, not a no-op).
    pub fn upgrade_tier(
        &mut self,
        content_id: &String,
        new_tier: u8,
        new_metadata_uri: Option<String>,
        caller: Identity,
        now: i64,
    ) -> (r: Result<ViralPost, ErrorCode>)
        requires
            old(self).wf(),
        ensures
            final(self).wf(),
            ({
                let (s2, m) = spec_upgrade_op(
                    old(self)@,
                    content_id@,
                    new_tier,
                    uri_view(new_metadata_uri),
                    caller,
                    now,
                );
                final(self)@ == s2 && matches_result(r, m)
            }),
    {
        let i = match self.find_index(content_id) {
            None => {
                return Err(ErrorCode::NotFound);
            },
            Some(i) => i,
        };
        proof {
            lemma_idx_of(self@, content_id@, i as int);
        }
        let pre = &self.records[i];
        match check_authority(pre.authority, caller) {
            AuthDecision::Denied => {
                return Err(ErrorCode::Unauthorized);
            },
            AuthDecision::Allowed => {},
        }
        if new_tier <= pre.tier {
            return Err(ErrorCode::InvalidTierUpgrade);
        }
        let upgraded = ViralPost {
            authority: pre.authority,
            content_id: pre.content_id.clone(),
            author_id: pre.author_id.clone(),
            created_at: pre.created_at,
            tier: new_tier,
            claimed: pre.claimed,
            claimed_at: pre.claimed_at,
            last_upgraded: Some(now),
            claimer: pre.claimer,
            metadata_uri: new_metadata_uri,
        };
        let snap = upgraded.snapshot();
        self.records.set(i, upgraded);
        proof {
            let s = old(self)@;
            let s2 = s.update(i as int, snap@);
            assert(self@ =~= s2);
            assert forall|a: int, b: int|
                0 <= a < s2.len() && 0 <= b < s2.len() && s2[a].content_id == s2[b].content_id
                    implies a == b by {
                assert(s2[a].content_id == s[a].content_id);
                assert(s2[b].content_id == s[b].content_id);
            }
        }
        Ok(snap)
    }

    /// Claims the record carrying `content_id` for `claimer`, setting
    /// `claimed`, `claimed_at = now` and the claimer together, exactly once
    /// in the record's life.  Fails — mutating nothing — with `NotFound`
    /// when the identifier is unknown and `AlreadyClaimed` when the record
    /// was claimed before; no authority is required to claim an unclaimed
    /// record.  A counter in the slot has its claim total grow by exactly 1
    /// in the same atomic step; an empty slot never blocks the claim.
    pub fn claim_viral_post(
        &mut self,
        content_id: &String,
        claimer: Identity,
        now: i64,
        counter: &mut Option<Counter>,
    ) -> (r: Result<ViralPost, ErrorCode>)
        requires
            old(self).wf(),
            can_count_claim(*old(counter)),
        ensures
            final(self).wf(),
            ({
                let (s2, slot2, m) = spec_claim_op(
                    old(self)@,
                    *old(counter),
                    content_id@,
                    claimer,
                    now,
                );
                final(self)@ == s2 && *final(counter) == slot2 && matches_result(r, m)
            }),
    {
        let i = match self.find_index(content_id) {
            None => {
                return Err(ErrorCode::NotFound);
            },
            Some(i) => i,
        };
        proof {
            lemma_idx_of(self@, content_id@, i as int);
        }
        let pre = &self.records[i];
        if pre.claimed {
            return Err(ErrorCode::AlreadyClaimed);
        }
        let claimed = ViralPost {
            authority: pre.authority,
            content_id: pre.content_id.clone(),
            author_id: pre.author_id.clone(),
            created_at: pre.created_at,
            tier: pre.tier,
            claimed: true,
            claimed_at: Some(now),
            last_upgraded: pre.last_upgraded,
            claimer: Some(claimer),
            metadata_uri: match &pre.metadata_uri {
                Some(s) => Some(s.clone()),
                None => None,
            },
        };
        match counter {
            Some(c) => c.record_claim(),
            None => {},
        }
        let snap = claimed.snapshot();
        self.records.set(i, claimed);
        proof {
            let s = old(self)@;
            let s2 = s.update(i as int, snap@);
            assert(self@ =~= s2);
            assert forall|a: int, b: int|
                0 <= a < s2.len() && 0 <= b < s2.len() && s2[a].content_id == s2[b].content_id
                    implies a == b by {
                assert(s2[a].content_id == s[a].content_id);
                assert(s2[b].content_id == s[b].content_id);
            }
        }
        Ok(snap)
    }

    /// A borrow of the record carrying `content_id`, if any.
    pub fn get(&self, content_id: &String) -> (r: Option<&ViralPost>)
        requires
            self.wf(),
        ensures
            match r {
                Some(p) => id_in(self@, content_id@) && p@ == self@[idx_of(self@, content_id@)],
                None => !id_in(self@, content_id@),
            },
    {
        match self.find_index(content_id) {
            Some(i) => {
                proof {
                    lemma_idx_of(self@, content_id@, i as int);
                }
                Some(&self.records[i])
            },
            None => None,
        }
    }
}

} // verus!

//! Content records and their lifecycle model.
//!
//! A `ViralPost` represents one piece of tracked content: its platform
//! identifiers, the authority allowed to upgrade it, its popularity tier,
//! and its claim status.  The spec functions here give the mathematical
//! model of a record and of the two mutations it can undergo (a tier
//! upgrade and a one-time claim); the store applies them.

use vstd::prelude::*;

use crate::auth::Identity;

verus! {

/// Every failure a record or counter operation can report.  All failures
/// are detected before any mutation is applied; none is retryable without
/// changing the input.
#[derive(Clone, Copy, PartialEq, Eq, Structural, Debug)]
pub enum ErrorCode {
    /// Creation against a `content_id` that already exists.
    DuplicateRecord,
    /// Operation against an unknown `content_id`.
    NotFound,
    /// Caller lacks the authority required for the mutation.
    Unauthorized,
    /// Target tier is not strictly greater than the current tier.
    InvalidTierUpgrade,
    /// Claim attempted on an already-claimed record.
    AlreadyClaimed,
    /// Counter re-initialization attempted.
    AlreadyInitialized,
}

/// One tracked content record.
#[derive(Debug)]
pub struct ViralPost {
    /// Identity permitted to upgrade this record's tier; set at mint.
    pub authority: Identity,
    /// Externally-sourced content identifier, unique per record.
    pub content_id: String,
    /// Identifier of the original content author on its platform.
    pub author_id: String,
    /// Timestamp set once at mint.
    pub created_at: i64,
    /// Popularity tier: starts at 1, strictly increases on each upgrade.
    pub tier: u8,
    /// Whether the record has been claimed; flips false to true at most once.
    pub claimed: bool,
    /// Timestamp of the claim, set together with `claimer`.
    pub claimed_at: Option<i64>,
    /// Timestamp of the most recent successful tier upgrade.
    pub last_upgraded: Option<i64>,
    /// Identity bound by the claim; once set, never changes.
    pub claimer: Option<Identity>,
    /// Reference to externally-hosted descriptive metadata; replaceable on
    /// upgrade, never parsed here.
    pub metadata_uri: Option<String>,
}

/// The mathematical value of a record: its strings as character sequences,
/// everything else as plain values.
pub ghost struct ViralPostView {
    pub authority: Identity,
    pub content_id: Seq<char>,
    pub author_id: Seq<char>,
    pub created_at: i64,
    pub tier: u8,
    pub claimed: bool,
    pub claimed_at: Option<i64>,
    pub last_upgraded: Option<i64>,
    pub claimer: Option<Identity>,
    pub metadata_uri: Option<Seq<char>>,
}

/// The view of an optional string.
pub open spec fn uri_view(uri: Option<String>) -> Option<Seq<char>> {
    match uri {
        Some(s) => Some(s@),
        None => None,
    }
}

impl View for ViralPost {
    type V = ViralPostView;

    open spec fn view(&self) -> ViralPostView {
        ViralPostView {
            authority: self.authority,
            content_id: self.content_id@,
            author_id: self.author_id@,
            created_at: self.created_at,
            tier: self.tier,
            claimed: self.claimed,
            claimed_at: self.claimed_at,
            last_upgraded: self.last_upgraded,
            claimer: self.claimer,
            metadata_uri: uri_view(self.metadata_uri),
        }
    }
}

/// The record that a successful mint produces: tier 1, unclaimed, with the
/// given identifiers, metadata reference and minting authority.
pub open spec fn spec_minted(
    content_id: Seq<char>,
    author_id: Seq<char>,
    metadata_uri: Option<Seq<char>>,
    authority: Identity,
    now: i64,
) -> ViralPostView {
    ViralPostView {
        authority,
        content_id,
        author_id,
        created_at: now,
        tier: 1,
        claimed: false,
        claimed_at: None,
        last_upgraded: None,
        claimer: None,
        metadata_uri,
    }
}

/// `pre` after a successful tier upgrade: only the tier, the metadata
/// reference and the upgrade timestamp change.
pub open spec fn spec_upgraded(
    pre: ViralPostView,
    new_tier: u8,
    new_metadata_uri: Option<Seq<char>>,
    now: i64,
) -> ViralPostView {
    ViralPostView { tier: new_tier, metadata_uri: new_metadata_uri, last_upgraded: Some(now), ..pre }
}

/// `pre` after a successful claim: `claimed`, `claimed_at` and `claimer`
/// are set together; everything else is unchanged.
pub open spec fn spec_claimed(pre: ViralPostView, claimer: Identity, now: i64) -> ViralPostView {
    ViralPostView { claimed: true, claimed_at: Some(now), claimer: Some(claimer), ..pre }
}

impl ViralPost {
    /// A field-for-field copy of the record, handed to callers as the
    /// snapshot a successful operation returns.
    pub fn snapshot(&self) -> (r: ViralPost)
        ensures
            r@ == self@,
    {
        ViralPost {
            authority: self.authority,
            content_id: self.content_id.clone(),
            author_id: self.author_id.clone(),
            created_at: self.created_at,
            tier: self.tier,
            claimed: self.claimed,
            claimed_at: self.claimed_at,
            last_upgraded: self.last_upgraded,
            claimer: self.claimer,
            metadata_uri: match &self.metadata_uri {
                Some(s) => Some(s.clone()),
                None => None,
            },
        }
    }
}

/// The display label of a popularity tier band: 1 is Rising, 2 is Trending,
/// 3 is Viral, and every other value falls in the reserved band.
pub fn tier_label(tier: u8) -> (r: &'static str)
    ensures
        tier == 1 ==> r@ == "Rising Content"@,
        tier == 2 ==> r@ == "Trending Content"@,
        tier == 3 ==> r@ == "Viral Content"@,
        !(1 <= tier <= 3) ==> r@ == "Content NFT"@,
{
    match tier {
        1 => "Rising Content",
        2 => "Trending Content",
        3 => "Viral Content",
        _ => "Content NFT",
    }
}

} // verus!

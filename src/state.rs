use vstd::prelude::*;

use crate::identity::Identity;
use crate::progress::has_target;

verus! {

/// Longest campaign name, in bytes.
pub const MAX_NAME_LEN: usize = 100;

/// Longest campaign description, in bytes.
pub const MAX_DESCRIPTION_LEN: usize = 500;

/// Longest Instagram handle, in bytes.
pub const MAX_USERNAME_LEN: usize = 50;

/// Longest post URL, in bytes.
pub const MAX_POST_URL_LEN: usize = 200;

/// Longest post identifier, in bytes.
pub const MAX_POST_ID_LEN: usize = 100;

/// Most evidence entries a campaign holds.
pub const MAX_POSTS: usize = 50;

/// Length of a text in bytes, as UTF-8.
pub open spec fn text_len(s: Seq<char>) -> nat {
    vstd::utf8::encode_utf8(s).len()
}

/// Where a campaign stands in its lifecycle.
#[derive(Clone, Copy, Debug, PartialEq, Eq, Structural)]
pub enum CampaignStatus {
    Pending,
    Active,
    Completed,
    Cancelled,
    Expired,
}

/// Orders the states: every legal move goes up, or stays.
pub open spec fn status_rank(s: CampaignStatus) -> int {
    match s {
        CampaignStatus::Pending => 0,
        CampaignStatus::Active => 1,
        _ => 2,
    }
}

/// Completed, Cancelled and Expired end a campaign.
pub open spec fn is_terminal(s: CampaignStatus) -> bool {
    s is Completed || s is Cancelled || s is Expired
}

/// The lifecycle graph: Pending to Active (fund) or Cancelled (cancel),
/// Active to Completed (full progress) or Expired (reclaim). Staying put is
/// allowed.
pub open spec fn status_step(from: CampaignStatus, to: CampaignStatus) -> bool {
    from == to || (from is Pending && (to is Active || to is Cancelled)) || (from is Active && (
    to is Completed || to is Expired))
}

/// One evidence entry of a campaign.
#[derive(Clone, Debug)]
pub struct Post {
    pub post_id: String,
    pub post_url: String,
    pub added_at: i64,
}

/// The singleton record that names the oracle, and who may replace it.
#[derive(Clone, Copy, Debug)]
pub struct OracleConfig {
    pub authority: Identity,
    pub oracle: Identity,
    pub bump: u8,
}

/// One escrow agreement between an influencer and a brand.
#[derive(Debug)]
pub struct Campaign {
    pub influencer: Identity,
    pub brand: Identity,
    pub name: String,
    pub description: String,
    pub amount_usdc: u64,
    pub amount_paid: u64,
    pub target_likes: u64,
    pub target_comments: u64,
    pub target_views: u64,
    pub target_shares: u64,
    pub current_likes: u64,
    pub current_comments: u64,
    pub current_views: u64,
    pub current_shares: u64,
    pub deadline_ts: i64,
    pub instagram_username: String,
    pub status: CampaignStatus,
    pub created_at: i64,
    pub posts: Vec<Post>,
    pub bump: u8,
}

impl Campaign {
    /// What holds of every campaign after every operation.
    pub open spec fn wf(&self) -> bool {
        &&& 0 < self.amount_usdc
        &&& self.amount_paid <= self.amount_usdc
        &&& has_target(self.target_likes, self.target_comments, self.target_views, self.target_shares)
        &&& self.posts@.len() <= MAX_POSTS
        &&& (self.brand.is_unset_spec() <==> (self.status is Pending || self.status is Cancelled))
        &&& text_len(self.name@) <= MAX_NAME_LEN
        &&& text_len(self.description@) <= MAX_DESCRIPTION_LEN
        &&& text_len(self.instagram_username@) <= MAX_USERNAME_LEN
    }
}

/// A balance that value moves between.
#[derive(Clone, Copy, Debug, PartialEq, Eq)]
pub enum Holder {
    /// The balance of the party with this identity.
    Wallet(Identity),
    /// The campaign's own escrow balance, which only the campaign can release.
    Escrow,
}

/// A movement of value that an operation orders. The operation commits only
/// together with the transfer: where the transfer fails, the campaign record
/// is kept as it was before the operation.
#[derive(Clone, Copy, Debug, PartialEq, Eq)]
pub struct Transfer {
    pub from: Holder,
    pub to: Holder,
    pub amount: u64,
}

} // verus!

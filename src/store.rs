use vstd::prelude::*;

use crate::error::InflunestError;
use crate::identity::Identity;
use crate::lifecycle::{
    add_post,
    cancel_campaign,
    cancel_error,
    cancelled,
    create_campaign,
    create_error,
    expired,
    fund_campaign,
    fund_error,
    funded,
    post_error,
    refund,
    report_error,
    report_payout,
    reported,
    update_campaign_metrics,
    withdraw_error,
    withdraw_expired_stake,
    AddPost,
    CancelCampaign,
    CreateCampaign,
    FundCampaign,
    UpdateCampaignMetrics,
    WithdrawExpiredStake,
};
use crate::state::{Campaign, CampaignStatus, OracleConfig, Post, Transfer};

verus! {

/// Whether a campaign is the one stored under this key.
pub open spec fn has_key(c: Campaign, influencer: Identity, created_at: i64) -> bool {
    c.influencer == influencer && c.created_at == created_at
}

/// Every record is well formed and no two share a key.
pub open spec fn records_wf(s: Seq<Campaign>) -> bool {
    &&& forall|i: int| 0 <= i < s.len() ==> (#[trigger] s[i]).wf()
    &&& forall|i: int, j: int|
        0 <= i < j < s.len() ==> !has_key(
            #[trigger] s[i],
            (#[trigger] s[j]).influencer,
            s[j].created_at,
        )
}

/// Replacing a record by a well-formed one under the same key keeps the
/// store well formed.
proof fn lemma_replace_keeps_wf(s: Seq<Campaign>, i: int, c: Campaign)
    requires
        records_wf(s),
        0 <= i < s.len(),
        c.wf(),
        c.influencer == s[i].influencer,
        c.created_at == s[i].created_at,
    ensures
        records_wf(s.update(i, c)),
{
    let t = s.update(i, c);
    assert forall|a: int, b: int| 0 <= a < b < t.len() implies !has_key(
        #[trigger] t[a],
        (#[trigger] t[b]).influencer,
        t[b].created_at,
    ) by {
        assert(!has_key(s[a], s[b].influencer, s[b].created_at));
    }
}

/// All campaigns, at most one per (influencer, creation time).
pub struct CampaignStore {
    campaigns: Vec<Campaign>,
}

impl View for CampaignStore {
    type V = Seq<Campaign>;

    closed spec fn view(&self) -> Seq<Campaign> {
        self.campaigns@
    }
}

impl CampaignStore {
    /// Every record is well formed and no two share a key.
    pub open spec fn wf(&self) -> bool {
        records_wf(self@)
    }

    /// An empty store.
    pub fn new() -> (r: CampaignStore)
        ensures
            r.wf(),
            r@ == Seq::<Campaign>::empty(),
    {
        CampaignStore { campaigns: Vec::new() }
    }

    /// Number of campaigns stored.
    pub fn len(&self) -> (r: usize)
        ensures
            r == self@.len(),
    {
        self.campaigns.len()
    }

    /// The campaign at a position.
    pub fn get(&self, index: usize) -> (r: &Campaign)
        requires
            index < self@.len(),
        ensures
            *r == self@[index as int],
    {
        &self.campaigns[index]
    }

    /// Where the campaign with this key is stored, if anywhere.
    pub fn find(&self, influencer: &Identity, created_at: i64) -> (r: Option<usize>)
        ensures
            r matches Some(i) ==> i < self@.len() && has_key(self@[i as int], *influencer, created_at),
            r is None ==> forall|i: int|
                0 <= i < self@.len() ==> !has_key(#[trigger] self@[i], *influencer, created_at),
    {
        let mut i: usize = 0;
        while i < self.campaigns.len()
            invariant
                i <= self@.len(),
                forall|k: int| 0 <= k < i ==> !has_key(#[trigger] self@[k], *influencer, created_at),
            decreases self@.len() - i,
        {
            let c = &self.campaigns[i];
            if c.created_at == created_at && c.influencer.same(influencer) {
                return Some(i);
            }
            i = i + 1;
        }
        None
    }

    /// Creates a campaign under the key (caller, `created_at`) and returns its
    /// position. Fails when that key is taken, then as `create_campaign` does.
    pub fn create(
        &mut self,
        ctx: &CreateCampaign,
        name: String,
        description: String,
        amount_usdc: u64,
        target_likes: u64,
        target_comments: u64,
        target_views: u64,
        target_shares: u64,
        deadline_ts: i64,
        instagram_username: String,
        created_at: i64,
    ) -> (r: Result<usize, InflunestError>)
        requires
            old(self).wf(),
        ensures
            final(self).wf(),
            (exists|i: int|
                0 <= i < old(self)@.len() && has_key(
                    #[trigger] old(self)@[i],
                    ctx.influencer,
                    created_at,
                )) ==> r == Err::<usize, InflunestError>(InflunestError::CampaignAlreadyExists)
                && final(self)@ == old(self)@,
            (forall|i: int|
                0 <= i < old(self)@.len() ==> !has_key(
                    #[trigger] old(self)@[i],
                    ctx.influencer,
                    created_at,
                )) ==> {
                &&& create_error(
                    ctx.now,
                    name@,
                    description@,
                    amount_usdc,
                    target_likes,
                    target_comments,
                    target_views,
                    target_shares,
                    deadline_ts,
                    instagram_username@,
                ) matches Some(e) ==> r == Err::<usize, InflunestError>(e) && final(self)@ == old(self)@
                &&& create_error(
                    ctx.now,
                    name@,
                    description@,
                    amount_usdc,
                    target_likes,
                    target_comments,
                    target_views,
                    target_shares,
                    deadline_ts,
                    instagram_username@,
                ) is None ==> r == Ok::<usize, InflunestError>(old(self)@.len() as usize)
                    && final(self)@.len() == old(self)@.len() + 1 && final(self)@.drop_last()
                    == old(self)@
            },
            r matches Ok(i) ==> {
                let c = final(self)@[i as int];
                &&& has_key(c, ctx.influencer, created_at)
                &&& c.brand.is_unset_spec()
                &&& c.name == name
                &&& c.description == description
                &&& c.instagram_username == instagram_username
                &&& c.amount_usdc == amount_usdc
                &&& c.amount_paid == 0
                &&& c.target_likes == target_likes
                &&& c.target_comments == target_comments
                &&& c.target_views == target_views
                &&& c.target_shares == target_shares
                &&& c.current_likes == 0
                &&& c.current_comments == 0
                &&& c.current_views == 0
                &&& c.current_shares == 0
                &&& c.deadline_ts == deadline_ts
                &&& c.status == CampaignStatus::Pending
                &&& c.posts@ == Seq::<Post>::empty()
                &&& c.bump == ctx.bump
            },
    {
        if self.find(&ctx.influencer, created_at).is_some() {
            return Err(InflunestError::CampaignAlreadyExists);
        }
        let campaign = match create_campaign(
            ctx,
            name,
            description,
            amount_usdc,
            target_likes,
            target_comments,
            target_views,
            target_shares,
            deadline_ts,
            instagram_username,
            created_at,
        ) {
            Ok(c) => c,
            Err(e) => {
                return Err(e);
            },
        };
        let index = self.campaigns.len();
        self.campaigns.push(campaign);
        assert(self@.drop_last() =~= old(self)@);
        Ok(index)
    }

    /// Funds the campaign at `index`, as `fund_campaign` does.
    pub fn fund(&mut self, index: usize, ctx: &FundCampaign) -> (r: Result<Transfer, InflunestError>)
        requires
            old(self).wf(),
            index < old(self)@.len(),
            !ctx.brand.is_unset_spec(),
        ensures
            final(self).wf(),
            fund_error(old(self)@[index as int], ctx.now) matches Some(e) ==> r == Err::<
                Transfer,
                InflunestError,
            >(e) && final(self)@ == old(self)@,
            fund_error(old(self)@[index as int], ctx.now) is None ==> r is Ok && final(self)@ == old(self)@.update(index as int, funded(old(self)@[index as int], ctx.brand)),
    {
        let r = fund_campaign(&mut self.campaigns[index], ctx);
        proof {
            lemma_replace_keeps_wf(old(self)@, index as int, self@[index as int]);
            assert(old(self)@.update(index as int, old(self)@[index as int]) =~= old(self)@);
        }
        r
    }

    /// Adds evidence to the campaign at `index`, as `add_post` does.
    pub fn add_post(&mut self, index: usize, ctx: &AddPost, post_url: String, post_id: String) -> (r:
        Result<(), InflunestError>)
        requires
            old(self).wf(),
            index < old(self)@.len(),
        ensures
            final(self).wf(),
            post_error(old(self)@[index as int], ctx.influencer, post_url@, post_id@) matches Some(e)
                ==> r == Err::<(), InflunestError>(e) && final(self)@ == old(self)@,
            post_error(old(self)@[index as int], ctx.influencer, post_url@, post_id@) is None ==> {
                &&& r is Ok
                &&& final(self)@.len() == old(self)@.len()
                &&& forall|k: int|
                    0 <= k < old(self)@.len() && k != index ==> #[trigger] final(self)@[k] == old(self)@[k]
                &&& final(self)@[index as int].posts@ == old(self)@[index as int].posts@.push(
                    (Post { post_id: post_id, post_url: post_url, added_at: ctx.now }),
                )
                &&& final(self)@[index as int] == (Campaign {
                    posts: final(self)@[index as int].posts,
                    ..old(self)@[index as int]
                })
            },
    {
        let r = add_post(&mut self.campaigns[index], ctx, post_url, post_id);
        proof {
            lemma_replace_keeps_wf(old(self)@, index as int, self@[index as int]);
            assert(old(self)@.update(index as int, old(self)@[index as int]) =~= old(self)@);
        }
        r
    }

    /// Records a metric report for the campaign at `index`, as
    /// `update_campaign_metrics` does.
    pub fn update_metrics(
        &mut self,
        index: usize,
        oracle_config: &OracleConfig,
        ctx: &UpdateCampaignMetrics,
        new_likes: u64,
        new_comments: u64,
        new_views: u64,
        new_shares: u64,
    ) -> (r: Result<Option<Transfer>, InflunestError>)
        requires
            old(self).wf(),
            index < old(self)@.len(),
        ensures
            final(self).wf(),
            report_error(old(self)@[index as int], *oracle_config, ctx.oracle) matches Some(e) ==> r
                == Err::<Option<Transfer>, InflunestError>(e) && final(self)@ == old(self)@,
            report_error(old(self)@[index as int], *oracle_config, ctx.oracle) is None ==> r == Ok::<
                Option<Transfer>,
                InflunestError,
            >(
                report_payout(
                    old(self)@[index as int],
                    new_likes,
                    new_comments,
                    new_views,
                    new_shares,
                ),
            ) && final(self)@ == old(self)@.update(
                index as int,
                reported(old(self)@[index as int], new_likes, new_comments, new_views, new_shares),
            ),
    {
        let r = update_campaign_metrics(
            &mut self.campaigns[index],
            oracle_config,
            ctx,
            new_likes,
            new_comments,
            new_views,
            new_shares,
        );
        proof {
            lemma_replace_keeps_wf(old(self)@, index as int, self@[index as int]);
            assert(old(self)@.update(index as int, old(self)@[index as int]) =~= old(self)@);
        }
        r
    }

    /// Reclaims the escrow of the campaign at `index`, as
    /// `withdraw_expired_stake` does.
    pub fn withdraw_expired(&mut self, index: usize, ctx: &WithdrawExpiredStake) -> (r: Result<
        Option<Transfer>,
        InflunestError,
    >)
        requires
            old(self).wf(),
            index < old(self)@.len(),
        ensures
            final(self).wf(),
            withdraw_error(old(self)@[index as int], ctx.brand, ctx.now) matches Some(e) ==> r
                == Err::<Option<Transfer>, InflunestError>(e) && final(self)@ == old(self)@,
            withdraw_error(old(self)@[index as int], ctx.brand, ctx.now) is None ==> r == Ok::<
                Option<Transfer>,
                InflunestError,
            >(refund(old(self)@[index as int])) && final(self)@ == old(self)@.update(
                index as int,
                expired(old(self)@[index as int]),
            ),
    {
        let r = withdraw_expired_stake(&mut self.campaigns[index], ctx);
        proof {
            lemma_replace_keeps_wf(old(self)@, index as int, self@[index as int]);
            assert(old(self)@.update(index as int, old(self)@[index as int]) =~= old(self)@);
        }
        r
    }

    /// Cancels the campaign at `index`, as `cancel_campaign` does.
    pub fn cancel(&mut self, index: usize, ctx: &CancelCampaign) -> (r: Result<(), InflunestError>)
        requires
            old(self).wf(),
            index < old(self)@.len(),
        ensures
            final(self).wf(),
            cancel_error(old(self)@[index as int], ctx.influencer) matches Some(e) ==> r == Err::<
                (),
                InflunestError,
            >(e) && final(self)@ == old(self)@,
            cancel_error(old(self)@[index as int], ctx.influencer) is None ==> r is Ok && final(self)@ == old(self)@.update(index as int, cancelled(old(self)@[index as int])),
    {
        let r = cancel_campaign(&mut self.campaigns[index], ctx);
        proof {
            lemma_replace_keeps_wf(old(self)@, index as int, self@[index as int]);
            assert(old(self)@.update(index as int, old(self)@[index as int]) =~= old(self)@);
        }
        r
    }
}

} // verus!

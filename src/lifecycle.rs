use vstd::prelude::*;

use crate::error::InflunestError;
use crate::identity::Identity;
use crate::progress::{calculate_progress, has_target, lemma_progress_bounds, progress_of};
use crate::state::{
    text_len,
    Campaign,
    CampaignStatus,
    Holder,
    OracleConfig,
    Post,
    Transfer,
    MAX_DESCRIPTION_LEN,
    MAX_NAME_LEN,
    MAX_POSTS,
    MAX_POST_ID_LEN,
    MAX_POST_URL_LEN,
    MAX_USERNAME_LEN,
};

verus! {

/// Who sets up the oracle registry (and becomes its administrator).
#[derive(Clone, Copy, Debug)]
pub struct InitializeOracle {
    pub authority: Identity,
    pub bump: u8,
}

/// Who asks to replace the registered oracle.
#[derive(Clone, Copy, Debug)]
pub struct UpdateOracle {
    pub authority: Identity,
}

/// Who creates a campaign (and becomes its influencer), and when.
#[derive(Clone, Copy, Debug)]
pub struct CreateCampaign {
    pub influencer: Identity,
    pub now: i64,
    pub bump: u8,
}

/// Who funds a campaign (and becomes its brand), and when.
#[derive(Clone, Copy, Debug)]
pub struct FundCampaign {
    pub brand: Identity,
    pub now: i64,
}

/// Who adds evidence to a campaign, and when.
#[derive(Clone, Copy, Debug)]
pub struct AddPost {
    pub influencer: Identity,
    pub now: i64,
}

/// Who reports metrics for a campaign.
#[derive(Clone, Copy, Debug)]
pub struct UpdateCampaignMetrics {
    pub oracle: Identity,
}

/// Who reclaims an expired campaign's escrow, and when.
#[derive(Clone, Copy, Debug)]
pub struct WithdrawExpiredStake {
    pub brand: Identity,
    pub now: i64,
}

/// Who cancels a campaign.
#[derive(Clone, Copy, Debug)]
pub struct CancelCampaign {
    pub influencer: Identity,
}

/// One operation tried on an existing campaign, with its caller and inputs.
#[derive(Debug)]
pub enum CampaignEvent {
    Fund(FundCampaign),
    /// Evidence: the caller, then the post URL and identifier.
    Post(AddPost, String, String),
    /// A metric report checked against a registry: likes, comments, views, shares.
    Report(OracleConfig, UpdateCampaignMetrics, u64, u64, u64, u64),
    Reclaim(WithdrawExpiredStake),
    Cancel(CancelCampaign),
}

/// An event that a caller can bring: the unset identity funds nothing.
pub open spec fn valid_event(e: CampaignEvent) -> bool {
    e matches CampaignEvent::Fund(ctx) ==> !ctx.brand.is_unset_spec()
}

/// Whether `next` is the campaign after `e` is tried on `c`: the operation's
/// effect where it is accepted, `c` unchanged where it is rejected.
#[verifier::opaque]
pub open spec fn event_step(c: Campaign, e: CampaignEvent, next: Campaign) -> bool {
    match e {
        CampaignEvent::Fund(ctx) => if fund_error(c, ctx.now) is None {
            next == funded(c, ctx.brand)
        } else {
            next == c
        },
        CampaignEvent::Post(ctx, post_url, post_id) => if post_error(
            c,
            ctx.influencer,
            post_url@,
            post_id@,
        ) is None {
            &&& next.posts@ == c.posts@.push(
                (Post { post_id: post_id, post_url: post_url, added_at: ctx.now }),
            )
            &&& next == (Campaign { posts: next.posts, ..c })
        } else {
            next == c
        },
        CampaignEvent::Report(config, ctx, l, cm, v, s) => if report_error(
            c,
            config,
            ctx.oracle,
        ) is None {
            next == reported(c, l, cm, v, s)
        } else {
            next == c
        },
        CampaignEvent::Reclaim(ctx) => if withdraw_error(c, ctx.brand, ctx.now) is None {
            next == expired(c)
        } else {
            next == c
        },
        CampaignEvent::Cancel(ctx) => if cancel_error(c, ctx.influencer) is None {
            next == cancelled(c)
        } else {
            next == c
        },
    }
}

// ---------------------------------------------------------------------------
// Reporting metrics and paying out milestones
// ---------------------------------------------------------------------------

/// Cumulative amount due at a given progress: one tenth of the total for each
/// full ten percent.
pub open spec fn owed(amount_total: u64, progress: int) -> int {
    amount_total * (progress / 10) / 10
}

/// Why a metric report is rejected, if it is.
pub open spec fn report_error(c: Campaign, config: OracleConfig, caller: Identity) -> Option<
    InflunestError,
> {
    if caller != config.oracle {
        Some(InflunestError::UnauthorizedOracle)
    } else if !(c.status is Active) {
        Some(InflunestError::CampaignNotActive)
    } else {
        None
    }
}

/// Progress of a campaign whose current metrics are the ones given.
pub open spec fn progress_with(c: Campaign, l: u64, cm: u64, v: u64, s: u64) -> int {
    progress_of(l, cm, v, s, c.target_likes, c.target_comments, c.target_views, c.target_shares)
}

/// The campaign after an accepted report: metrics overwritten, the amount
/// paid raised to what is owed (never lowered), and Completed at full progress.
pub open spec fn reported(c: Campaign, l: u64, cm: u64, v: u64, s: u64) -> Campaign {
    let p = progress_with(c, l, cm, v, s);
    let due = owed(c.amount_usdc, p);
    Campaign {
        current_likes: l,
        current_comments: cm,
        current_views: v,
        current_shares: s,
        amount_paid: if due > c.amount_paid {
            due as u64
        } else {
            c.amount_paid
        },
        status: if p >= 100 {
            CampaignStatus::Completed
        } else {
            c.status
        },
        ..c
    }
}

/// The payment an accepted report orders: what is owed beyond what was paid,
/// from escrow to the influencer, if anything.
pub open spec fn report_payout(c: Campaign, l: u64, cm: u64, v: u64, s: u64) -> Option<Transfer> {
    let due = owed(c.amount_usdc, progress_with(c, l, cm, v, s));
    if due > c.amount_paid {
        Some(
            Transfer {
                from: Holder::Escrow,
                to: Holder::Wallet(c.influencer),
                amount: (due - c.amount_paid) as u64,
            },
        )
    } else {
        None
    }
}

/// What is owed lies between nothing and the whole amount, and is the whole
/// amount at full progress.
pub proof fn lemma_owed_bounds(amount_total: u64, progress: int)
    requires
        0 <= progress <= 100,
    ensures
        0 <= owed(amount_total, progress) <= amount_total,
        progress >= 100 ==> owed(amount_total, progress) == amount_total,
{
    let m = progress / 10;
    let a = amount_total as int;
    assert(0 <= m <= 10);
    assert(0 <= a * m / 10 <= a) by (nonlinear_arith)
        requires
            0 <= m <= 10,
            0 <= a,
    ;
    if progress >= 100 {
        assert(m == 10);
        assert(a * 10 / 10 == a) by (nonlinear_arith);
    }
}

/// Records the oracle's absolute metric counts for an active campaign and
/// pays out every milestone reached and not yet paid. The caller must be the
/// registered oracle. Metrics may go down; the amount paid never does. Full
/// progress completes the campaign.
pub fn update_campaign_metrics(
    campaign: &mut Campaign,
    oracle_config: &OracleConfig,
    ctx: &UpdateCampaignMetrics,
    new_likes: u64,
    new_comments: u64,
    new_views: u64,
    new_shares: u64,
) -> (r: Result<Option<Transfer>, InflunestError>)
    requires
        old(campaign).wf(),
    ensures
        final(campaign).wf(),
        crate::state::status_step(old(campaign).status, final(campaign).status),
        final(campaign).amount_paid >= old(campaign).amount_paid,
        event_step(
            *old(campaign),
            CampaignEvent::Report(
                *oracle_config,
                *ctx,
                new_likes,
                new_comments,
                new_views,
                new_shares,
            ),
            *final(campaign),
        ),
        report_error(*old(campaign), *oracle_config, ctx.oracle) matches Some(e) ==> r == Err::<
            Option<Transfer>,
            InflunestError,
        >(e) && *final(campaign) == *old(campaign),
        report_error(*old(campaign), *oracle_config, ctx.oracle) is None ==> r == Ok::<
            Option<Transfer>,
            InflunestError,
        >(report_payout(*old(campaign), new_likes, new_comments, new_views, new_shares))
            && *final(campaign) == reported(
            *old(campaign),
            new_likes,
            new_comments,
            new_views,
            new_shares,
        ),
{
    proof {
        reveal(event_step);
    }
    if !ctx.oracle.same(&oracle_config.oracle) {
        return Err(InflunestError::UnauthorizedOracle);
    }
    if campaign.status != CampaignStatus::Active {
        return Err(InflunestError::CampaignNotActive);
    }
    let progress = match calculate_progress(
        new_likes,
        new_comments,
        new_views,
        new_shares,
        campaign.target_likes,
        campaign.target_comments,
        campaign.target_views,
        campaign.target_shares,
    ) {
        Ok(p) => p,
        Err(e) => {
            return Err(e);
        },
    };
    proof {
        lemma_progress_bounds(
            new_likes,
            new_comments,
            new_views,
            new_shares,
            campaign.target_likes,
            campaign.target_comments,
            campaign.target_views,
            campaign.target_shares,
        );
        lemma_owed_bounds(campaign.amount_usdc, progress as int);
    }
    campaign.current_likes = new_likes;
    campaign.current_comments = new_comments;
    campaign.current_views = new_views;
    campaign.current_shares = new_shares;

    let milestones_achieved: u64 = progress / 10;
    let total_should_be_paid: u64 = ((campaign.amount_usdc as u128) * (milestones_achieved as u128)
        / 10) as u64;
    assert(total_should_be_paid == owed(campaign.amount_usdc, progress as int));
    let amount_to_transfer: u64 = total_should_be_paid.saturating_sub(campaign.amount_paid);
    let mut payout: Option<Transfer> = None;
    if amount_to_transfer > 0 {
        payout = Some(
            Transfer {
                from: Holder::Escrow,
                to: Holder::Wallet(campaign.influencer),
                amount: amount_to_transfer,
            },
        );
        campaign.amount_paid = campaign.amount_paid + amount_to_transfer;
    }
    if progress >= 100 {
        campaign.status = CampaignStatus::Completed;
    }
    Ok(payout)
}

// ---------------------------------------------------------------------------
// Creating a campaign
// ---------------------------------------------------------------------------

/// Why a campaign with these inputs is refused, if it is: the first check
/// that fails, in the order name, description, handle, amount, deadline,
/// targets.
pub open spec fn create_error(
    now: i64,
    name: Seq<char>,
    description: Seq<char>,
    amount_usdc: u64,
    target_likes: u64,
    target_comments: u64,
    target_views: u64,
    target_shares: u64,
    deadline_ts: i64,
    instagram_username: Seq<char>,
) -> Option<InflunestError> {
    if text_len(name) > MAX_NAME_LEN {
        Some(InflunestError::NameTooLong)
    } else if text_len(description) > MAX_DESCRIPTION_LEN {
        Some(InflunestError::DescriptionTooLong)
    } else if text_len(instagram_username) > MAX_USERNAME_LEN {
        Some(InflunestError::UsernameTooLong)
    } else if amount_usdc == 0 {
        Some(InflunestError::InvalidAmount)
    } else if deadline_ts <= now {
        Some(InflunestError::InvalidDeadline)
    } else if !has_target(target_likes, target_comments, target_views, target_shares) {
        Some(InflunestError::NoTargetMetrics)
    } else {
        None
    }
}

/// Length in bytes of a text.
fn byte_len(s: &String) -> (r: usize)
    ensures
        r == text_len(s@),
{
    s.as_str().as_bytes().len()
}

/// Creates a Pending campaign owned by the caller, with nothing paid, no
/// metrics, no brand and no evidence yet. Rejects over-long texts, a zero
/// amount, a deadline that is not after the current time, and targets that
/// are all zero.
pub fn create_campaign(
    ctx: &CreateCampaign,
    name: String,
    description: String,
    amount_usdc: u64,
    target_likes: u64,
    target_comments: u64,
    target_views: u64,
    target_shares: u64,
    deadline_ts: i64,
    instagram_username: String,
    created_at: i64,
) -> (r: Result<Campaign, InflunestError>)
    ensures
        create_error(
            ctx.now,
            name@,
            description@,
            amount_usdc,
            target_likes,
            target_comments,
            target_views,
            target_shares,
            deadline_ts,
            instagram_username@,
        ) matches Some(e) ==> r == Err::<Campaign, InflunestError>(e),
        create_error(
            ctx.now,
            name@,
            description@,
            amount_usdc,
            target_likes,
            target_comments,
            target_views,
            target_shares,
            deadline_ts,
            instagram_username@,
        ) is None ==> r is Ok,
        r matches Ok(c) ==> {
            &&& c.wf()
            &&& c.influencer == ctx.influencer
            &&& c.brand.is_unset_spec()
            &&& c.name == name
            &&& c.description == description
            &&& c.instagram_username == instagram_username
            &&& c.amount_usdc == amount_usdc
            &&& c.amount_paid == 0
            &&& c.target_likes == target_likes
            &&& c.target_comments == target_comments
            &&& c.target_views == target_views
            &&& c.target_shares == target_shares
            &&& c.current_likes == 0
            &&& c.current_comments == 0
            &&& c.current_views == 0
            &&& c.current_shares == 0
            &&& c.deadline_ts == deadline_ts
            &&& c.status == CampaignStatus::Pending
            &&& c.created_at == created_at
            &&& c.posts@ == Seq::<Post>::empty()
            &&& c.bump == ctx.bump
        },
{
    if byte_len(&name) > MAX_NAME_LEN {
        return Err(InflunestError::NameTooLong);
    }
    if byte_len(&description) > MAX_DESCRIPTION_LEN {
        return Err(InflunestError::DescriptionTooLong);
    }
    if byte_len(&instagram_username) > MAX_USERNAME_LEN {
        return Err(InflunestError::UsernameTooLong);
    }
    if amount_usdc == 0 {
        return Err(InflunestError::InvalidAmount);
    }
    if deadline_ts <= ctx.now {
        return Err(InflunestError::InvalidDeadline);
    }
    if target_likes == 0 && target_comments == 0 && target_views == 0 && target_shares == 0 {
        return Err(InflunestError::NoTargetMetrics);
    }
    Ok(
        Campaign {
            influencer: ctx.influencer,
            brand: Identity::unset(),
            name,
            description,
            amount_usdc,
            amount_paid: 0,
            target_likes,
            target_comments,
            target_views,
            target_shares,
            current_likes: 0,
            current_comments: 0,
            current_views: 0,
            current_shares: 0,
            deadline_ts,
            instagram_username,
            status: CampaignStatus::Pending,
            created_at,
            posts: Vec::new(),
            bump: ctx.bump,
        },
    )
}

// ---------------------------------------------------------------------------
// Funding, evidence, reclaim and cancellation
// ---------------------------------------------------------------------------

/// Why funding is rejected, if it is.
pub open spec fn fund_error(c: Campaign, now: i64) -> Option<InflunestError> {
    if !(c.status is Pending) {
        Some(InflunestError::CampaignNotPending)
    } else if now >= c.deadline_ts {
        Some(InflunestError::CampaignExpired)
    } else {
        None
    }
}

/// The campaign once funded by `brand`.
pub open spec fn funded(c: Campaign, brand: Identity) -> Campaign {
    Campaign { brand: brand, status: CampaignStatus::Active, ..c }
}

/// Funds a Pending campaign before its deadline: orders the whole amount
/// moved from the caller's balance into escrow, makes the caller the brand
/// and the campaign Active.
pub fn fund_campaign(campaign: &mut Campaign, ctx: &FundCampaign) -> (r: Result<
    Transfer,
    InflunestError,
>)
    requires
        old(campaign).wf(),
        !ctx.brand.is_unset_spec(),
    ensures
        final(campaign).wf(),
        crate::state::status_step(old(campaign).status, final(campaign).status),
        event_step(*old(campaign), CampaignEvent::Fund(*ctx), *final(campaign)),
        fund_error(*old(campaign), ctx.now) matches Some(e) ==> r == Err::<Transfer, InflunestError>(
            e,
        ) && *final(campaign) == *old(campaign),
        fund_error(*old(campaign), ctx.now) is None ==> r == Ok::<Transfer, InflunestError>(
            (Transfer {
                from: Holder::Wallet(ctx.brand),
                to: Holder::Escrow,
                amount: old(campaign).amount_usdc,
            }),
        ) && *final(campaign) == funded(*old(campaign), ctx.brand),
{
    proof {
        reveal(event_step);
    }
    if campaign.status != CampaignStatus::Pending {
        return Err(InflunestError::CampaignNotPending);
    }
    if ctx.now >= campaign.deadline_ts {
        return Err(InflunestError::CampaignExpired);
    }
    let deposit = Transfer {
        from: Holder::Wallet(ctx.brand),
        to: Holder::Escrow,
        amount: campaign.amount_usdc,
    };
    campaign.brand = ctx.brand;
    campaign.status = CampaignStatus::Active;
    Ok(deposit)
}

/// Why adding evidence is rejected, if it is.
pub open spec fn post_error(c: Campaign, caller: Identity, post_url: Seq<char>, post_id: Seq<char>) -> Option<
    InflunestError,
> {
    if caller != c.influencer {
        Some(InflunestError::NotCampaignInfluencer)
    } else if !(c.status is Active) {
        Some(InflunestError::CampaignNotActive)
    } else if text_len(post_url) > MAX_POST_URL_LEN {
        Some(InflunestError::PostUrlTooLong)
    } else if text_len(post_id) > MAX_POST_ID_LEN {
        Some(InflunestError::PostIdTooLong)
    } else if c.posts@.len() >= MAX_POSTS {
        Some(InflunestError::TooManyPosts)
    } else {
        None
    }
}

/// Appends an evidence entry, stamped with the current time, to an Active
/// campaign. Only its influencer may, and at most fifty entries are kept.
pub fn add_post(campaign: &mut Campaign, ctx: &AddPost, post_url: String, post_id: String) -> (r:
    Result<(), InflunestError>)
    requires
        old(campaign).wf(),
    ensures
        final(campaign).wf(),
        final(campaign).status == old(campaign).status,
        event_step(*old(campaign), CampaignEvent::Post(*ctx, post_url, post_id), *final(campaign)),
        post_error(*old(campaign), ctx.influencer, post_url@, post_id@) matches Some(e) ==> r
            == Err::<(), InflunestError>(e) && *final(campaign) == *old(campaign),
        post_error(*old(campaign), ctx.influencer, post_url@, post_id@) is None ==> {
            &&& r is Ok
            &&& final(campaign).posts@ == old(campaign).posts@.push(
                (Post { post_id: post_id, post_url: post_url, added_at: ctx.now }),
            )
            &&& *final(campaign) == (Campaign { posts: final(campaign).posts, ..*old(campaign) })
        },
{
    proof {
        reveal(event_step);
    }
    if !ctx.influencer.same(&campaign.influencer) {
        return Err(InflunestError::NotCampaignInfluencer);
    }
    if campaign.status != CampaignStatus::Active {
        return Err(InflunestError::CampaignNotActive);
    }
    if byte_len(&post_url) > MAX_POST_URL_LEN {
        return Err(InflunestError::PostUrlTooLong);
    }
    if byte_len(&post_id) > MAX_POST_ID_LEN {
        return Err(InflunestError::PostIdTooLong);
    }
    if campaign.posts.len() >= MAX_POSTS {
        return Err(InflunestError::TooManyPosts);
    }
    campaign.posts.push(Post { post_id, post_url, added_at: ctx.now });
    Ok(())
}

/// Why reclaiming is rejected, if it is.
pub open spec fn withdraw_error(c: Campaign, caller: Identity, now: i64) -> Option<InflunestError> {
    if caller != c.brand {
        Some(InflunestError::NotCampaignBrand)
    } else if !(c.status is Active) {
        Some(InflunestError::CampaignNotActive)
    } else if now < c.deadline_ts {
        Some(InflunestError::CampaignNotExpired)
    } else {
        None
    }
}

/// The campaign once its escrow has been reclaimed.
pub open spec fn expired(c: Campaign) -> Campaign {
    Campaign { status: CampaignStatus::Expired, ..c }
}

/// The refund a reclaim orders: what was not paid out, from escrow back to
/// the brand, if anything.
pub open spec fn refund(c: Campaign) -> Option<Transfer> {
    if c.amount_usdc > c.amount_paid {
        Some(
            Transfer {
                from: Holder::Escrow,
                to: Holder::Wallet(c.brand),
                amount: (c.amount_usdc - c.amount_paid) as u64,
            },
        )
    } else {
        None
    }
}

/// Once the deadline has passed, lets the brand of an Active campaign take
/// back what was not paid out, and closes the campaign as Expired.
pub fn withdraw_expired_stake(campaign: &mut Campaign, ctx: &WithdrawExpiredStake) -> (r: Result<
    Option<Transfer>,
    InflunestError,
>)
    requires
        old(campaign).wf(),
    ensures
        final(campaign).wf(),
        crate::state::status_step(old(campaign).status, final(campaign).status),
        event_step(*old(campaign), CampaignEvent::Reclaim(*ctx), *final(campaign)),
        withdraw_error(*old(campaign), ctx.brand, ctx.now) matches Some(e) ==> r == Err::<
            Option<Transfer>,
            InflunestError,
        >(e) && *final(campaign) == *old(campaign),
        withdraw_error(*old(campaign), ctx.brand, ctx.now) is None ==> r == Ok::<
            Option<Transfer>,
            InflunestError,
        >(refund(*old(campaign))) && *final(campaign) == expired(*old(campaign)),
{
    proof {
        reveal(event_step);
    }
    if !ctx.brand.same(&campaign.brand) {
        return Err(InflunestError::NotCampaignBrand);
    }
    if campaign.status != CampaignStatus::Active {
        return Err(InflunestError::CampaignNotActive);
    }
    if ctx.now < campaign.deadline_ts {
        return Err(InflunestError::CampaignNotExpired);
    }
    let remaining_amount: u64 = campaign.amount_usdc.saturating_sub(campaign.amount_paid);
    let mut payback: Option<Transfer> = None;
    if remaining_amount > 0 {
        payback = Some(
            Transfer {
                from: Holder::Escrow,
                to: Holder::Wallet(campaign.brand),
                amount: remaining_amount,
            },
        );
    }
    campaign.status = CampaignStatus::Expired;
    Ok(payback)
}

/// Why cancelling is rejected, if it is.
pub open spec fn cancel_error(c: Campaign, caller: Identity) -> Option<InflunestError> {
    if caller != c.influencer {
        Some(InflunestError::NotCampaignInfluencer)
    } else if !(c.status is Pending) {
        Some(InflunestError::CannotCancelCampaign)
    } else {
        None
    }
}

/// The campaign once cancelled.
pub open spec fn cancelled(c: Campaign) -> Campaign {
    Campaign { status: CampaignStatus::Cancelled, ..c }
}

/// Lets the influencer withdraw a campaign that nobody has funded yet.
pub fn cancel_campaign(campaign: &mut Campaign, ctx: &CancelCampaign) -> (r: Result<
    (),
    InflunestError,
>)
    requires
        old(campaign).wf(),
    ensures
        final(campaign).wf(),
        crate::state::status_step(old(campaign).status, final(campaign).status),
        event_step(*old(campaign), CampaignEvent::Cancel(*ctx), *final(campaign)),
        cancel_error(*old(campaign), ctx.influencer) matches Some(e) ==> r == Err::<
            (),
            InflunestError,
        >(e) && *final(campaign) == *old(campaign),
        cancel_error(*old(campaign), ctx.influencer) is None ==> r is Ok && *final(campaign)
            == cancelled(*old(campaign)),
{
    proof {
        reveal(event_step);
    }
    if !ctx.influencer.same(&campaign.influencer) {
        return Err(InflunestError::NotCampaignInfluencer);
    }
    if campaign.status != CampaignStatus::Pending {
        return Err(InflunestError::CannotCancelCampaign);
    }
    campaign.status = CampaignStatus::Cancelled;
    Ok(())
}

// ---------------------------------------------------------------------------
// The oracle registry
// ---------------------------------------------------------------------------

/// Sets up the registry: the caller becomes its administrator and `oracle`
/// the only identity allowed to report metrics. Fails when the registry is
/// already set up.
pub fn initialize_oracle(registry: &mut Option<OracleConfig>, ctx: &InitializeOracle, oracle: Identity) -> (r:
    Result<(), InflunestError>)
    ensures
        old(registry).is_some() ==> r == Err::<(), InflunestError>(
            InflunestError::OracleAlreadyInitialized,
        ) && *final(registry) == *old(registry),
        old(registry).is_none() ==> r is Ok && *final(registry) == Some(
            (OracleConfig { authority: ctx.authority, oracle: oracle, bump: ctx.bump }),
        ),
{
    if registry.is_some() {
        return Err(InflunestError::OracleAlreadyInitialized);
    }
    *registry = Some(OracleConfig { authority: ctx.authority, oracle, bump: ctx.bump });
    Ok(())
}

/// The registry once its oracle is replaced by `new_oracle`.
pub open spec fn rotated(config: OracleConfig, new_oracle: Identity) -> OracleConfig {
    OracleConfig { oracle: new_oracle, ..config }
}

/// Replaces the registered oracle. Only the administrator may.
pub fn update_oracle(oracle_config: &mut OracleConfig, ctx: &UpdateOracle, new_oracle: Identity) -> (r:
    Result<(), InflunestError>)
    ensures
        ctx.authority != old(oracle_config).authority ==> r == Err::<(), InflunestError>(
            InflunestError::NotOracleAuthority,
        ) && *final(oracle_config) == *old(oracle_config),
        ctx.authority == old(oracle_config).authority ==> r is Ok && *final(oracle_config)
            == rotated(*old(oracle_config), new_oracle),
{
    if !ctx.authority.same(&oracle_config.authority) {
        return Err(InflunestError::NotOracleAuthority);
    }
    oracle_config.oracle = new_oracle;
    Ok(())
}

} // verus!

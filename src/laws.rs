//! Properties that hold across operations and over whole histories.
use vstd::prelude::*;

use crate::error::InflunestError;
use crate::identity::Identity;
use crate::lifecycle::{
    cancel_error,
    cancelled,
    event_step,
    expired,
    fund_error,
    funded,
    lemma_owed_bounds,
    progress_with,
    reported,
    report_error,
    rotated,
    valid_event,
    withdraw_error,
    CampaignEvent,
    CancelCampaign,
    FundCampaign,
    UpdateOracle,
    WithdrawExpiredStake,
};
use crate::progress::lemma_progress_bounds;
use crate::state::{is_terminal, status_rank, status_step, Campaign, CampaignStatus, OracleConfig};

verus! {

/// Every campaign that satisfies the lifecycle invariant, which creation
/// establishes and every operation keeps, has paid out no more than its
/// escrowed total.
pub proof fn lemma_paid_within_total(c: Campaign)
    requires
        c.wf(),
    ensures
        0 <= c.amount_paid <= c.amount_usdc,
{
}

/// The status never moves backward, never leaves a terminal state, and never
/// skips Active on the way from Pending to Completed or Expired.
pub proof fn lemma_status_step_forward(from: CampaignStatus, to: CampaignStatus)
    requires
        status_step(from, to),
    ensures
        status_rank(from) <= status_rank(to),
        is_terminal(from) ==> to == from,
        from is Pending ==> !(to is Completed || to is Expired),
{
}

/// Funding a campaign a second time fails with a state error, whoever calls
/// and whenever.
pub proof fn lemma_fund_twice_fails(c: Campaign, first: FundCampaign, second: FundCampaign)
    requires
        fund_error(c, first.now) is None,
    ensures
        fund_error(funded(c, first.brand), second.now) == Some(InflunestError::CampaignNotPending),
{
}

/// Cancelling a campaign a second time fails; for its influencer it fails
/// with a state error.
pub proof fn lemma_cancel_twice_fails(c: Campaign, first: CancelCampaign, second: CancelCampaign)
    requires
        cancel_error(c, first.influencer) is None,
    ensures
        cancel_error(cancelled(c), second.influencer) is Some,
        second.influencer == c.influencer ==> cancel_error(cancelled(c), second.influencer) == Some(
            InflunestError::CannotCancelCampaign,
        ),
{
}

/// Reclaiming an expired campaign a second time fails, and so orders no
/// second refund; for its brand it fails with a state error.
pub proof fn lemma_withdraw_twice_fails(
    c: Campaign,
    first: WithdrawExpiredStake,
    second: WithdrawExpiredStake,
)
    requires
        withdraw_error(c, first.brand, first.now) is None,
    ensures
        withdraw_error(expired(c), second.brand, second.now) is Some,
        second.brand == c.brand ==> withdraw_error(expired(c), second.brand, second.now) == Some(
            InflunestError::CampaignNotActive,
        ),
{
}

/// An accepted report keeps the invariant and never lowers the amount paid.
pub proof fn lemma_report_step(c: Campaign, l: u64, cm: u64, v: u64, s: u64)
    requires
        c.wf(),
        c.status is Active,
    ensures
        reported(c, l, cm, v, s).wf(),
        reported(c, l, cm, v, s).amount_paid >= c.amount_paid,
{
    lemma_progress_bounds(
        l,
        cm,
        v,
        s,
        c.target_likes,
        c.target_comments,
        c.target_views,
        c.target_shares,
    );
    lemma_owed_bounds(c.amount_usdc, progress_with(c, l, cm, v, s));
}

/// Any operation of the lifecycle keeps the invariant, follows the status
/// graph, and never lowers the amount paid.
pub proof fn lemma_event_step(c: Campaign, e: CampaignEvent, next: Campaign)
    requires
        c.wf(),
        valid_event(e),
        event_step(c, e, next),
    ensures
        next.wf(),
        status_step(c.status, next.status),
        next.amount_paid >= c.amount_paid,
{
    reveal(event_step);
    if let CampaignEvent::Report(config, ctx, l, cm, v, s) = e {
        if report_error(c, config, ctx.oracle) is None {
            lemma_report_step(c, l, cm, v, s);
        }
    }
}

/// Whether `campaigns` is what a campaign goes through under `events`: each
/// entry follows from the one before by the event between them.
pub open spec fn is_history(campaigns: Seq<Campaign>, events: Seq<CampaignEvent>) -> bool {
    &&& campaigns.len() == events.len() + 1
    &&& forall|i: int|
        0 <= i < events.len() ==> valid_event(#[trigger] events[i]) && event_step(
            campaigns[i],
            events[i],
            campaigns[i + 1],
        )
}

proof fn lemma_history_wf(campaigns: Seq<Campaign>, events: Seq<CampaignEvent>, n: int)
    requires
        is_history(campaigns, events),
        campaigns[0].wf(),
        0 <= n < campaigns.len(),
    ensures
        campaigns[n].wf(),
    decreases n,
{
    if n > 0 {
        lemma_history_wf(campaigns, events, n - 1);
        lemma_event_step(campaigns[n - 1], events[n - 1], campaigns[n]);
    }
}

proof fn lemma_history_forward(campaigns: Seq<Campaign>, events: Seq<CampaignEvent>, i: int, j: int)
    requires
        is_history(campaigns, events),
        campaigns[0].wf(),
        0 <= i <= j < campaigns.len(),
    ensures
        forward(campaigns[i], campaigns[j]),
    decreases j - i,
{
    if i < j {
        lemma_history_forward(campaigns, events, i, j - 1);
        lemma_history_wf(campaigns, events, j - 1);
        lemma_event_step(campaigns[j - 1], events[j - 1], campaigns[j]);
        lemma_status_step_forward(campaigns[j - 1].status, campaigns[j].status);
    }
}

proof fn lemma_history_all_wf(campaigns: Seq<Campaign>, events: Seq<CampaignEvent>)
    requires
        is_history(campaigns, events),
        campaigns[0].wf(),
    ensures
        forall|i: int| 0 <= i < campaigns.len() ==> (#[trigger] campaigns[i]).wf(),
{
    assert forall|i: int| 0 <= i < campaigns.len() implies (#[trigger] campaigns[i]).wf() by {
        lemma_history_wf(campaigns, events, i);
    }
}

proof fn lemma_history_all_steps(campaigns: Seq<Campaign>, events: Seq<CampaignEvent>)
    requires
        is_history(campaigns, events),
        campaigns[0].wf(),
    ensures
        forall|i: int|
            #![trigger campaigns[i], campaigns[i + 1]]
            0 <= i < events.len() ==> status_step(campaigns[i].status, campaigns[i + 1].status),
{
    assert forall|i: int|
        #![trigger campaigns[i], campaigns[i + 1]]
        0 <= i < events.len() implies status_step(campaigns[i].status, campaigns[i + 1].status) by {
        lemma_history_wf(campaigns, events, i);
        lemma_event_step(campaigns[i], events[i], campaigns[i + 1]);
    }
}

proof fn lemma_history_all_forward(campaigns: Seq<Campaign>, events: Seq<CampaignEvent>)
    requires
        is_history(campaigns, events),
        campaigns[0].wf(),
    ensures
        forall|i: int, j: int|
            0 <= i <= j < campaigns.len() ==> forward(#[trigger] campaigns[i], #[trigger] campaigns[j]),
{
    assert forall|i: int, j: int| 0 <= i <= j < campaigns.len() implies forward(
        #[trigger] campaigns[i],
        #[trigger] campaigns[j],
    ) by {
        lemma_history_forward(campaigns, events, i, j);
    }
}

/// Whether `later` is no step back from `earlier`: its status ranks no
/// lower, a terminal status has stayed, and no less has been paid.
pub open spec fn forward(earlier: Campaign, later: Campaign) -> bool {
    &&& status_rank(earlier.status) <= status_rank(later.status)
    &&& is_terminal(earlier.status) ==> later.status == earlier.status
    &&& earlier.amount_paid <= later.amount_paid
}

/// Over any history of a campaign, from creation on and whatever is tried
/// in whatever order: every state keeps the invariant, so
/// `0 <= amount_paid <= amount_total` throughout; every step follows the
/// status graph; and each state is `forward` of every earlier one, so the
/// status never moves back nor leaves a terminal state, and the amount paid
/// never decreases, even where reported metrics do.
pub proof fn lemma_history_invariants(campaigns: Seq<Campaign>, events: Seq<CampaignEvent>)
    requires
        is_history(campaigns, events),
        campaigns[0].wf(),
    ensures
        forall|i: int| 0 <= i < campaigns.len() ==> (#[trigger] campaigns[i]).wf(),
        forall|i: int|
            0 <= i < campaigns.len() ==> 0 <= (#[trigger] campaigns[i]).amount_paid
                <= campaigns[i].amount_usdc,
        forall|i: int|
            #![trigger campaigns[i], campaigns[i + 1]]
            0 <= i < events.len() ==> status_step(campaigns[i].status, campaigns[i + 1].status),
        forall|i: int, j: int|
            0 <= i <= j < campaigns.len() ==> forward(#[trigger] campaigns[i], #[trigger] campaigns[j]),
{
    lemma_history_all_wf(campaigns, events);
    lemma_history_all_steps(campaigns, events);
    lemma_history_all_forward(campaigns, events);
}

/// A report from anyone but the registered oracle is rejected, whatever
/// state the campaign is in.
pub proof fn lemma_only_oracle_reports(c: Campaign, config: OracleConfig, caller: Identity)
    requires
        caller != config.oracle,
    ensures
        report_error(c, config, caller) == Some(InflunestError::UnauthorizedOracle),
{
}

/// Once the administrator has replaced the oracle by another identity,
/// reports from the former oracle are rejected.
pub proof fn lemma_rotation_locks_out_former_oracle(
    c: Campaign,
    config: OracleConfig,
    admin: UpdateOracle,
    new_oracle: Identity,
)
    requires
        admin.authority == config.authority,
        new_oracle != config.oracle,
    ensures
        report_error(c, rotated(config, new_oracle), config.oracle) == Some(
            InflunestError::UnauthorizedOracle,
        ),
{
}

} // verus!

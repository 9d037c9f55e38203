use vstd::prelude::*;

use crate::error::InflunestError;

verus! {

/// Completion of one metric in percent, capped at 100 (for a positive target).
pub open spec fn metric_percent(current: u64, target: u64) -> int {
    (if current < target { current as int } else { target as int }) * 100 / (target as int)
}

/// What one metric adds to the progress sum: its percentage when targeted, else nothing.
pub open spec fn metric_share(current: u64, target: u64) -> int {
    if target > 0 { metric_percent(current, target) } else { 0 }
}

/// How many of the four metrics have a positive target.
pub open spec fn targeted_count(tl: u64, tc: u64, tv: u64, ts: u64) -> int {
    (if tl > 0 { 1int } else { 0 }) + (if tc > 0 { 1int } else { 0 }) + (if tv > 0 { 1int } else { 0 })
        + (if ts > 0 { 1int } else { 0 })
}

/// Whether at least one metric has a positive target.
pub open spec fn has_target(tl: u64, tc: u64, tv: u64, ts: u64) -> bool {
    tl > 0 || tc > 0 || tv > 0 || ts > 0
}

/// Progress in percent: the unweighted average of the targeted metrics' percentages.
pub open spec fn progress_of(
    cl: u64,
    cc: u64,
    cv: u64,
    cs: u64,
    tl: u64,
    tc: u64,
    tv: u64,
    ts: u64,
) -> int {
    (metric_share(cl, tl) + metric_share(cc, tc) + metric_share(cv, tv) + metric_share(cs, ts))
        / targeted_count(tl, tc, tv, ts)
}

proof fn lemma_percent_bounds(current: u64, target: u64)
    requires
        target > 0,
    ensures
        0 <= metric_percent(current, target) <= 100,
        current >= target ==> metric_percent(current, target) == 100,
{
    let m: int = if current < target { current as int } else { target as int };
    let t: int = target as int;
    assert(0 <= m * 100 / t <= 100) by (nonlinear_arith)
        requires
            0 <= m <= t,
            t > 0,
    ;
    if current >= target {
        assert(t * 100 / t == 100) by (nonlinear_arith)
            requires
                t > 0,
        ;
    }
}

/// Progress is a percentage.
pub proof fn lemma_progress_bounds(
    cl: u64,
    cc: u64,
    cv: u64,
    cs: u64,
    tl: u64,
    tc: u64,
    tv: u64,
    ts: u64,
)
    requires
        has_target(tl, tc, tv, ts),
    ensures
        0 <= progress_of(cl, cc, cv, cs, tl, tc, tv, ts) <= 100,
{
    if tl > 0 {
        lemma_percent_bounds(cl, tl);
    }
    if tc > 0 {
        lemma_percent_bounds(cc, tc);
    }
    if tv > 0 {
        lemma_percent_bounds(cv, tv);
    }
    if ts > 0 {
        lemma_percent_bounds(cs, ts);
    }
    let sum = metric_share(cl, tl) + metric_share(cc, tc) + metric_share(cv, tv) + metric_share(
        cs,
        ts,
    );
    let n = targeted_count(tl, tc, tv, ts);
    assert(0 <= sum <= 100 * n);
    assert(0 <= sum / n <= 100) by (nonlinear_arith)
        requires
            0 <= sum <= 100 * n,
            n > 0,
    ;
}

/// Percentage of one metric; the target must be positive.
fn metric_progress(current: u64, target: u64) -> (r: u64)
    requires
        target > 0,
    ensures
        r == metric_percent(current, target),
        r <= 100,
{
    proof {
        lemma_percent_bounds(current, target);
    }
    let capped: u64 = if current < target { current } else { target };
    let wide: u128 = (capped as u128) * 100 / (target as u128);
    wide as u64
}

/// Converts current metrics and targets into a progress score from 0 to 100:
/// the average, with equal weights, of `min(current, target) * 100 / target`
/// over the metrics whose target is positive. Fails when no target is positive.
pub fn calculate_progress(
    current_likes: u64,
    current_comments: u64,
    current_views: u64,
    current_shares: u64,
    target_likes: u64,
    target_comments: u64,
    target_views: u64,
    target_shares: u64,
) -> (r: Result<u64, InflunestError>)
    ensures
        !has_target(target_likes, target_comments, target_views, target_shares) ==> r == Err::<
            u64,
            InflunestError,
        >(InflunestError::NoTargetMetrics),
        has_target(target_likes, target_comments, target_views, target_shares) ==> r == Ok::<
            u64,
            InflunestError,
        >(
            progress_of(
                current_likes,
                current_comments,
                current_views,
                current_shares,
                target_likes,
                target_comments,
                target_views,
                target_shares,
            ) as u64,
        ),
        r matches Ok(p) ==> p <= 100,
{
    let mut progress_sum: u64 = 0;
    let mut metrics_count: u64 = 0;
    if target_likes > 0 {
        progress_sum = progress_sum + metric_progress(current_likes, target_likes);
        metrics_count = metrics_count + 1;
    }
    if target_comments > 0 {
        progress_sum = progress_sum + metric_progress(current_comments, target_comments);
        metrics_count = metrics_count + 1;
    }
    if target_views > 0 {
        progress_sum = progress_sum + metric_progress(current_views, target_views);
        metrics_count = metrics_count + 1;
    }
    if target_shares > 0 {
        progress_sum = progress_sum + metric_progress(current_shares, target_shares);
        metrics_count = metrics_count + 1;
    }
    if metrics_count == 0 {
        return Err(InflunestError::NoTargetMetrics);
    }
    proof {
        lemma_progress_bounds(
            current_likes,
            current_comments,
            current_views,
            current_shares,
            target_likes,
            target_comments,
            target_views,
            target_shares,
        );
    }
    Ok(progress_sum / metrics_count)
}

} // verus!

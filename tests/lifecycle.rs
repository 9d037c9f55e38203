use influnest::{
    add_post, calculate_progress, cancel_campaign, create_campaign, fund_campaign,
    initialize_oracle, update_campaign_metrics, update_oracle, withdraw_expired_stake, AddPost,
    Campaign, CampaignStatus, CancelCampaign, CreateCampaign, FundCampaign, Holder, Identity,
    InflunestError, InitializeOracle, OracleConfig, Transfer, UpdateCampaignMetrics, UpdateOracle,
    WithdrawExpiredStake,
};

const NOW: i64 = 1_000;
const DEADLINE: i64 = 2_000;

fn id(b: u8) -> Identity {
    Identity::new([b; 32])
}

fn influencer() -> Identity {
    id(1)
}

fn brand() -> Identity {
    id(2)
}

fn oracle() -> Identity {
    id(3)
}

fn admin() -> Identity {
    id(4)
}

fn registry() -> OracleConfig {
    let mut slot: Option<OracleConfig> = None;
    let ctx = InitializeOracle { authority: admin(), bump: 7 };
    assert_eq!(initialize_oracle(&mut slot, &ctx, oracle()), Ok(()));
    slot.unwrap()
}

fn new_campaign(amount: u64, likes: u64, comments: u64, views: u64, shares: u64) -> Campaign {
    let ctx = CreateCampaign { influencer: influencer(), now: NOW, bump: 9 };
    create_campaign(
        &ctx,
        "Summer launch".to_string(),
        "Promote the summer collection".to_string(),
        amount,
        likes,
        comments,
        views,
        shares,
        DEADLINE,
        "creator".to_string(),
        NOW,
    )
    .unwrap()
}

fn funded_campaign(amount: u64, likes: u64) -> Campaign {
    let mut c = new_campaign(amount, likes, 0, 0, 0);
    let ctx = FundCampaign { brand: brand(), now: NOW + 1 };
    fund_campaign(&mut c, &ctx).unwrap();
    c
}

fn report(c: &mut Campaign, config: &OracleConfig, likes: u64) -> Result<Option<Transfer>, InflunestError> {
    let ctx = UpdateCampaignMetrics { oracle: oracle() };
    update_campaign_metrics(c, config, &ctx, likes, 0, 0, 0)
}

fn payout(to: Identity, amount: u64) -> Option<Transfer> {
    Some(Transfer { from: Holder::Escrow, to: Holder::Wallet(to), amount })
}

#[test]
fn progress_half_of_single_metric() {
    assert_eq!(calculate_progress(50, 0, 0, 0, 100, 0, 0, 0), Ok(50));
}

#[test]
fn progress_caps_at_hundred() {
    assert_eq!(calculate_progress(150, 0, 0, 0, 100, 0, 0, 0), Ok(100));
}

#[test]
fn progress_averages_targeted_metrics_only() {
    assert_eq!(calculate_progress(100, 0, 0, 0, 100, 20, 0, 0), Ok(50));
    assert_eq!(calculate_progress(100, 0, 999, 999, 100, 20, 0, 0), Ok(50));
}

#[test]
fn progress_rounds_down() {
    // likes 1/3 -> 33, views 2/3 -> 66, average 49
    assert_eq!(calculate_progress(1, 0, 2, 0, 3, 0, 3, 0), Ok(49));
}

#[test]
fn progress_with_largest_values() {
    assert_eq!(calculate_progress(u64::MAX, u64::MAX, u64::MAX, u64::MAX, u64::MAX, u64::MAX, u64::MAX, u64::MAX), Ok(100));
    assert_eq!(calculate_progress(u64::MAX - 1, 0, 0, 0, u64::MAX, 0, 0, 0), Ok(99));
}

#[test]
fn progress_without_targets_fails() {
    assert_eq!(calculate_progress(5, 5, 5, 5, 0, 0, 0, 0), Err(InflunestError::NoTargetMetrics));
}

#[test]
fn create_sets_initial_state() {
    let c = new_campaign(1000, 100, 0, 0, 0);
    assert_eq!(c.influencer, influencer());
    assert!(c.brand.is_unset());
    assert_eq!(c.status, CampaignStatus::Pending);
    assert_eq!(c.amount_usdc, 1000);
    assert_eq!(c.amount_paid, 0);
    assert_eq!(c.current_likes, 0);
    assert_eq!(c.target_likes, 100);
    assert_eq!(c.deadline_ts, DEADLINE);
    assert_eq!(c.created_at, NOW);
    assert_eq!(c.name, "Summer launch");
    assert_eq!(c.bump, 9);
    assert!(c.posts.is_empty());
}

fn try_create(name: &str, description: &str, amount: u64, targets: [u64; 4], deadline: i64, handle: &str) -> Result<Campaign, InflunestError> {
    let ctx = CreateCampaign { influencer: influencer(), now: NOW, bump: 0 };
    create_campaign(
        &ctx,
        name.to_string(),
        description.to_string(),
        amount,
        targets[0],
        targets[1],
        targets[2],
        targets[3],
        deadline,
        handle.to_string(),
        NOW,
    )
}

#[test]
fn create_rejects_invalid_inputs() {
    let t = [100, 0, 0, 0];
    assert_eq!(try_create(&"n".repeat(101), "d", 10, t, DEADLINE, "h").unwrap_err(), InflunestError::NameTooLong);
    assert!(try_create(&"n".repeat(100), "d", 10, t, DEADLINE, "h").is_ok());
    assert_eq!(try_create("n", &"d".repeat(501), 10, t, DEADLINE, "h").unwrap_err(), InflunestError::DescriptionTooLong);
    assert!(try_create("n", &"d".repeat(500), 10, t, DEADLINE, "h").is_ok());
    assert_eq!(try_create("n", "d", 10, t, DEADLINE, &"h".repeat(51)).unwrap_err(), InflunestError::UsernameTooLong);
    assert!(try_create("n", "d", 10, t, DEADLINE, &"h".repeat(50)).is_ok());
    assert_eq!(try_create("n", "d", 0, t, DEADLINE, "h").unwrap_err(), InflunestError::InvalidAmount);
    assert_eq!(try_create("n", "d", 10, t, NOW, "h").unwrap_err(), InflunestError::InvalidDeadline);
    assert_eq!(try_create("n", "d", 10, [0, 0, 0, 0], DEADLINE, "h").unwrap_err(), InflunestError::NoTargetMetrics);
}

#[test]
fn create_counts_length_in_bytes() {
    // 50 two-byte characters are 100 bytes; one more is over the limit
    assert!(try_create(&"é".repeat(50), "d", 10, [1, 0, 0, 0], DEADLINE, "h").is_ok());
    assert_eq!(try_create(&"é".repeat(51), "d", 10, [1, 0, 0, 0], DEADLINE, "h").unwrap_err(), InflunestError::NameTooLong);
}

#[test]
fn fund_moves_total_into_escrow() {
    let mut c = new_campaign(1000, 100, 0, 0, 0);
    let ctx = FundCampaign { brand: brand(), now: NOW + 1 };
    let t = fund_campaign(&mut c, &ctx).unwrap();
    assert_eq!(t, Transfer { from: Holder::Wallet(brand()), to: Holder::Escrow, amount: 1000 });
    assert_eq!(c.brand, brand());
    assert_eq!(c.status, CampaignStatus::Active);
}

#[test]
fn fund_after_deadline_fails() {
    let mut c = new_campaign(1000, 100, 0, 0, 0);
    let ctx = FundCampaign { brand: brand(), now: DEADLINE };
    assert_eq!(fund_campaign(&mut c, &ctx), Err(InflunestError::CampaignExpired));
    assert_eq!(c.status, CampaignStatus::Pending);
    assert!(c.brand.is_unset());
}

#[test]
fn fund_twice_fails() {
    let mut c = funded_campaign(1000, 100);
    let ctx = FundCampaign { brand: id(8), now: NOW + 2 };
    assert_eq!(fund_campaign(&mut c, &ctx), Err(InflunestError::CampaignNotPending));
    assert_eq!(c.brand, brand());
}

#[test]
fn cancel_pending_campaign() {
    let mut c = new_campaign(1000, 100, 0, 0, 0);
    let ctx = CancelCampaign { influencer: influencer() };
    assert_eq!(cancel_campaign(&mut c, &ctx), Ok(()));
    assert_eq!(c.status, CampaignStatus::Cancelled);
    assert_eq!(cancel_campaign(&mut c, &ctx), Err(InflunestError::CannotCancelCampaign));
    let fund = FundCampaign { brand: brand(), now: NOW };
    assert_eq!(fund_campaign(&mut c, &fund), Err(InflunestError::CampaignNotPending));
}

#[test]
fn cancel_by_stranger_fails() {
    let mut c = new_campaign(1000, 100, 0, 0, 0);
    let ctx = CancelCampaign { influencer: brand() };
    assert_eq!(cancel_campaign(&mut c, &ctx), Err(InflunestError::NotCampaignInfluencer));
    assert_eq!(c.status, CampaignStatus::Pending);
}

#[test]
fn cancel_funded_campaign_fails() {
    let mut c = funded_campaign(1000, 100);
    let ctx = CancelCampaign { influencer: influencer() };
    assert_eq!(cancel_campaign(&mut c, &ctx), Err(InflunestError::CannotCancelCampaign));
}

#[test]
fn add_post_appends_evidence() {
    let mut c = funded_campaign(1000, 100);
    let ctx = AddPost { influencer: influencer(), now: 1500 };
    assert_eq!(add_post(&mut c, &ctx, "https://example.com/p/1".to_string(), "p1".to_string()), Ok(()));
    assert_eq!(c.posts.len(), 1);
    assert_eq!(c.posts[0].post_id, "p1");
    assert_eq!(c.posts[0].post_url, "https://example.com/p/1");
    assert_eq!(c.posts[0].added_at, 1500);
}

#[test]
fn add_post_rejections() {
    let mut pending = new_campaign(1000, 100, 0, 0, 0);
    let ctx = AddPost { influencer: influencer(), now: 1500 };
    assert_eq!(add_post(&mut pending, &ctx, "u".to_string(), "i".to_string()), Err(InflunestError::CampaignNotActive));

    let mut c = funded_campaign(1000, 100);
    let stranger = AddPost { influencer: brand(), now: 1500 };
    assert_eq!(add_post(&mut c, &stranger, "u".to_string(), "i".to_string()), Err(InflunestError::NotCampaignInfluencer));
    assert_eq!(add_post(&mut c, &ctx, "u".repeat(201), "i".to_string()), Err(InflunestError::PostUrlTooLong));
    assert_eq!(add_post(&mut c, &ctx, "u".to_string(), "i".repeat(101)), Err(InflunestError::PostIdTooLong));
    assert_eq!(add_post(&mut c, &ctx, "u".repeat(200), "i".repeat(100)), Ok(()));
    for _ in 1..50 {
        assert_eq!(add_post(&mut c, &ctx, "u".to_string(), "i".to_string()), Ok(()));
    }
    assert_eq!(c.posts.len(), 50);
    assert_eq!(add_post(&mut c, &ctx, "u".to_string(), "i".to_string()), Err(InflunestError::TooManyPosts));
    assert_eq!(c.posts.len(), 50);
}

#[test]
fn end_to_end_completion() {
    let config = registry();
    let mut c = new_campaign(1000, 100, 0, 0, 0);
    let fund = FundCampaign { brand: brand(), now: NOW + 1 };
    assert_eq!(fund_campaign(&mut c, &fund).unwrap().amount, 1000);

    assert_eq!(report(&mut c, &config, 30), Ok(payout(influencer(), 300)));
    assert_eq!(c.current_likes, 30);
    assert_eq!(c.amount_paid, 300);
    assert_eq!(c.status, CampaignStatus::Active);

    assert_eq!(report(&mut c, &config, 100), Ok(payout(influencer(), 700)));
    assert_eq!(c.amount_paid, 1000);
    assert_eq!(c.status, CampaignStatus::Completed);

    assert_eq!(report(&mut c, &config, 100), Err(InflunestError::CampaignNotActive));
    assert_eq!(c.amount_paid, 1000);
}

#[test]
fn end_to_end_expiry() {
    let config = registry();
    let mut c = funded_campaign(1000, 100);
    assert_eq!(report(&mut c, &config, 40), Ok(payout(influencer(), 400)));
    assert_eq!(c.amount_paid, 400);

    let early = WithdrawExpiredStake { brand: brand(), now: DEADLINE - 1 };
    assert_eq!(withdraw_expired_stake(&mut c, &early), Err(InflunestError::CampaignNotExpired));

    let late = WithdrawExpiredStake { brand: brand(), now: DEADLINE };
    assert_eq!(withdraw_expired_stake(&mut c, &late), Ok(payout(brand(), 600)));
    assert_eq!(c.status, CampaignStatus::Expired);
    assert_eq!(c.amount_paid, 400);

    assert_eq!(report(&mut c, &config, 100), Err(InflunestError::CampaignNotActive));
    assert_eq!(withdraw_expired_stake(&mut c, &late), Err(InflunestError::CampaignNotActive));
}

#[test]
fn withdraw_by_stranger_fails() {
    let mut c = funded_campaign(1000, 100);
    let ctx = WithdrawExpiredStake { brand: influencer(), now: DEADLINE };
    assert_eq!(withdraw_expired_stake(&mut c, &ctx), Err(InflunestError::NotCampaignBrand));
    assert_eq!(c.status, CampaignStatus::Active);
}

#[test]
fn withdraw_after_full_payment_moves_nothing() {
    let config = registry();
    let mut c = funded_campaign(1000, 100);
    // 95% pays 900; the last tenth only with full progress
    assert_eq!(report(&mut c, &config, 95), Ok(payout(influencer(), 900)));
    let ctx = WithdrawExpiredStake { brand: brand(), now: DEADLINE };
    assert_eq!(withdraw_expired_stake(&mut c, &ctx), Ok(payout(brand(), 100)));
    assert_eq!(c.status, CampaignStatus::Expired);
}

#[test]
fn lower_report_never_claws_back() {
    let config = registry();
    let mut c = funded_campaign(1000, 100);
    assert_eq!(report(&mut c, &config, 60), Ok(payout(influencer(), 600)));
    assert_eq!(report(&mut c, &config, 20), Ok(None));
    assert_eq!(c.current_likes, 20);
    assert_eq!(c.amount_paid, 600);
    assert_eq!(report(&mut c, &config, 65), Ok(None));
    assert_eq!(report(&mut c, &config, 70), Ok(payout(influencer(), 100)));
    assert_eq!(c.amount_paid, 700);
}

#[test]
fn payout_rounds_down_per_milestone() {
    let config = registry();
    let mut c = funded_campaign(999, 100);
    // 39% is three milestones: 999 * 3 / 10 = 299
    assert_eq!(report(&mut c, &config, 39), Ok(payout(influencer(), 299)));
    assert_eq!(c.amount_paid, 299);
    assert_eq!(report(&mut c, &config, 100), Ok(payout(influencer(), 700)));
    assert_eq!(c.amount_paid, 999);
}

#[test]
fn largest_amount_pays_in_full() {
    let config = registry();
    let mut c = funded_campaign(u64::MAX, 10);
    assert_eq!(report(&mut c, &config, 5), Ok(payout(influencer(), u64::MAX / 2)));
    assert_eq!(report(&mut c, &config, 10), Ok(payout(influencer(), u64::MAX - u64::MAX / 2)));
    assert_eq!(c.amount_paid, u64::MAX);
}

#[test]
fn report_from_stranger_rejected_in_any_state() {
    let config = registry();
    let stranger = UpdateCampaignMetrics { oracle: influencer() };
    let mut pending = new_campaign(1000, 100, 0, 0, 0);
    assert_eq!(update_campaign_metrics(&mut pending, &config, &stranger, 50, 0, 0, 0), Err(InflunestError::UnauthorizedOracle));
    let mut active = funded_campaign(1000, 100);
    assert_eq!(update_campaign_metrics(&mut active, &config, &stranger, 50, 0, 0, 0), Err(InflunestError::UnauthorizedOracle));
    assert_eq!(active.current_likes, 0);
    assert_eq!(active.amount_paid, 0);
}

#[test]
fn rotated_oracle_locks_out_former() {
    let mut config = registry();
    let mut c = funded_campaign(1000, 100);
    assert_eq!(report(&mut c, &config, 10), Ok(payout(influencer(), 100)));

    let not_admin = UpdateOracle { authority: oracle() };
    assert_eq!(update_oracle(&mut config, &not_admin, id(5)), Err(InflunestError::NotOracleAuthority));
    assert_eq!(config.oracle, oracle());

    let by_admin = UpdateOracle { authority: admin() };
    assert_eq!(update_oracle(&mut config, &by_admin, id(5)), Ok(()));
    assert_eq!(config.oracle, id(5));
    assert_eq!(report(&mut c, &config, 50), Err(InflunestError::UnauthorizedOracle));

    let new_oracle = UpdateCampaignMetrics { oracle: id(5) };
    assert_eq!(update_campaign_metrics(&mut c, &config, &new_oracle, 50, 0, 0, 0), Ok(payout(influencer(), 400)));
}

#[test]
fn oracle_registry_initializes_once() {
    let mut slot: Option<OracleConfig> = None;
    let ctx = InitializeOracle { authority: admin(), bump: 3 };
    assert_eq!(initialize_oracle(&mut slot, &ctx, oracle()), Ok(()));
    let config = slot.unwrap();
    assert_eq!(config.authority, admin());
    assert_eq!(config.oracle, oracle());
    assert_eq!(config.bump, 3);
    let again = InitializeOracle { authority: id(6), bump: 1 };
    assert_eq!(initialize_oracle(&mut slot, &again, id(6)), Err(InflunestError::OracleAlreadyInitialized));
    assert_eq!(slot.unwrap().authority, admin());
}

#[test]
fn identity_comparisons() {
    assert!(Identity::unset().is_unset());
    assert!(!id(1).is_unset());
    let mut bytes = [0u8; 32];
    bytes[31] = 1;
    assert!(!Identity::new(bytes).is_unset());
    assert!(id(1).same(&id(1)));
    assert!(!Identity::new(bytes).same(&Identity::unset()));
}

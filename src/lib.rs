//! Escrow and milestone payments for influencer-marketing campaigns.
//!
//! A brand escrows funds against social-media targets, a trusted oracle
//! reports observed metrics, and the escrow is released to the influencer in
//! tenths as progress is made; what is left returns to the brand once the
//! deadline has passed.
pub mod error;
pub mod identity;
pub mod laws;
pub mod lifecycle;
pub mod progress;
pub mod state;
pub mod store;

pub use error::InflunestError;
pub use identity::Identity;
pub use lifecycle::{
    add_post,
    cancel_campaign,
    create_campaign,
    fund_campaign,
    initialize_oracle,
    update_campaign_metrics,
    update_oracle,
    withdraw_expired_stake,
    AddPost,
    CancelCampaign,
    CreateCampaign,
    FundCampaign,
    InitializeOracle,
    UpdateCampaignMetrics,
    UpdateOracle,
    WithdrawExpiredStake,
};
pub use progress::calculate_progress;
pub use state::{Campaign, CampaignStatus, Holder, OracleConfig, Post, Transfer};
pub use store::CampaignStore;

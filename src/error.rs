use vstd::prelude::*;

verus! {

/// Why an operation was rejected. A rejected operation changes nothing and
/// moves no funds.
#[derive(Clone, Copy, Debug, PartialEq, Eq, Structural)]
pub enum InflunestError {
    NameTooLong,
    DescriptionTooLong,
    UsernameTooLong,
    InvalidAmount,
    InvalidDeadline,
    CampaignNotPending,
    CampaignExpired,
    CampaignNotActive,
    PostUrlTooLong,
    PostIdTooLong,
    TooManyPosts,
    CampaignNotExpired,
    CannotCancelCampaign,
    UnauthorizedOracle,
    NoTargetMetrics,
    /// The caller is not the campaign's influencer.
    NotCampaignInfluencer,
    /// The caller is not the brand that funded the campaign.
    NotCampaignBrand,
    /// The caller is not the oracle registry's administrator.
    NotOracleAuthority,
    /// The oracle registry already holds a configuration.
    OracleAlreadyInitialized,
    /// A campaign with the same influencer and creation time already exists.
    CampaignAlreadyExists,
}

} // verus!

//! Shapes of the distribution area: community pool and reward parameters.

use vstd::prelude::*;
use crate::model::shared::{DenomAmount, DenomAmountView};

verus! {

/// What the community pool holds.
#[derive(Debug)]
pub struct CommunityPoolResponse {
    pub pool: Vec<DenomAmount>,
}

/// What a [`CommunityPoolResponse`] holds, as mathematical values.
pub struct CommunityPoolResponseView {
    pub pool: Seq<DenomAmountView>,
}

impl DeepView for CommunityPoolResponse {
    type V = CommunityPoolResponseView;

    open spec fn deep_view(&self) -> CommunityPoolResponseView {
        CommunityPoolResponseView { pool: self.pool.deep_view() }
    }
}

/// The answer to a query for the distribution parameters.
#[derive(Debug)]
pub struct DistributionParamsResponse {
    pub params: DistibutionParamsInfo,
}

/// The distribution parameters. The three rates are decimal numerals.
#[derive(Debug)]
pub struct DistibutionParamsInfo {
    pub community_tax: String,
    pub base_proposer_reward: String,
    pub bonus_proposer_reward: String,
    pub withdraw_addr_enabled: bool,
}

/// What a [`DistibutionParamsInfo`] holds, as mathematical values.
pub struct DistibutionParamsInfoView {
    pub community_tax: Seq<char>,
    pub base_proposer_reward: Seq<char>,
    pub bonus_proposer_reward: Seq<char>,
    pub withdraw_addr_enabled: bool,
}

impl DeepView for DistibutionParamsInfo {
    type V = DistibutionParamsInfoView;

    open spec fn deep_view(&self) -> DistibutionParamsInfoView {
        DistibutionParamsInfoView {
            community_tax: self.community_tax@,
            base_proposer_reward: self.base_proposer_reward@,
            bonus_proposer_reward: self.bonus_proposer_reward@,
            withdraw_addr_enabled: self.withdraw_addr_enabled,
        }
    }
}

} // verus!

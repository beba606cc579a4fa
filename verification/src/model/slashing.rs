//! Shapes of the slashing area: parameters and signing records.

use vstd::prelude::*;
use crate::model::shared::{PaginationInfo, PaginationInfoView};

verus! {

/// The answer to a query for the slashing parameters.
#[derive(Debug)]
pub struct SlashingParamsResponse {
    pub params: SlashingParamsInfo,
}

/// The slashing parameters.
#[derive(Debug)]
pub struct SlashingParamsInfo {
    pub signed_blocks_window: String,
    pub min_signed_per_window: String,
    pub downtime_jail_duration: String,
    pub slash_fraction_double_sign: String,
    pub slash_fraction_downtime: String,
}

/// What a [`SlashingParamsInfo`] holds, as mathematical values.
pub struct SlashingParamsInfoView {
    pub signed_blocks_window: Seq<char>,
    pub min_signed_per_window: Seq<char>,
    pub downtime_jail_duration: Seq<char>,
    pub slash_fraction_double_sign: Seq<char>,
    pub slash_fraction_downtime: Seq<char>,
}

impl DeepView for SlashingParamsInfo {
    type V = SlashingParamsInfoView;

    open spec fn deep_view(&self) -> SlashingParamsInfoView {
        SlashingParamsInfoView {
            signed_blocks_window: self.signed_blocks_window@,
            min_signed_per_window: self.min_signed_per_window@,
            downtime_jail_duration: self.downtime_jail_duration@,
            slash_fraction_double_sign: self.slash_fraction_double_sign@,
            slash_fraction_downtime: self.slash_fraction_downtime@,
        }
    }
}

/// The signing records of the validators.
#[derive(Debug)]
pub struct SigningInfosResponse {
    pub info: Vec<SigningInfos>,
    pub pagination: PaginationInfo,
}

/// The signing record of one validator.
#[derive(Debug)]
pub struct SigningInfos {
    pub address: String,
    pub start_height: String,
    pub index_offset: String,
    pub jailed_until: String,
    pub tombstoned: bool,
    pub missed_blocks_counter: String,
}

/// What a [`SigningInfos`] holds, as mathematical values.
pub struct SigningInfosView {
    pub address: Seq<char>,
    pub start_height: Seq<char>,
    pub index_offset: Seq<char>,
    pub jailed_until: Seq<char>,
    pub tombstoned: bool,
    pub missed_blocks_counter: Seq<char>,
}

impl DeepView for SigningInfos {
    type V = SigningInfosView;

    open spec fn deep_view(&self) -> SigningInfosView {
        SigningInfosView {
            address: self.address@,
            start_height: self.start_height@,
            index_offset: self.index_offset@,
            jailed_until: self.jailed_until@,
            tombstoned: self.tombstoned,
            missed_blocks_counter: self.missed_blocks_counter@,
        }
    }
}

/// What a [`SigningInfosResponse`] holds, as mathematical values.
pub struct SigningInfosResponseView {
    pub info: Seq<SigningInfosView>,
    pub pagination: PaginationInfoView,
}

impl DeepView for SigningInfosResponse {
    type V = SigningInfosResponseView;

    open spec fn deep_view(&self) -> SigningInfosResponseView {
        SigningInfosResponseView {
            info: self.info.deep_view(),
            pagination: self.pagination.deep_view(),
        }
    }
}

} // verus!

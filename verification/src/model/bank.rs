//! Shapes of the bank area: token supply.

use vstd::prelude::*;
use crate::model::shared::{DenomAmount, DenomAmountView, PaginationInfo, PaginationInfoView};

verus! {

/// The supply of one denomination.
#[derive(Debug)]
pub struct SupplyDenomResponse {
    pub amount: DenomAmount,
}

/// What a [`SupplyDenomResponse`] holds, as mathematical values.
pub struct SupplyDenomResponseView {
    pub amount: DenomAmountView,
}

impl DeepView for SupplyDenomResponse {
    type V = SupplyDenomResponseView;

    open spec fn deep_view(&self) -> SupplyDenomResponseView {
        SupplyDenomResponseView { amount: self.amount.deep_view() }
    }
}

/// The supply of every denomination.
#[derive(Debug)]
pub struct SupplyResponse {
    pub supply: Vec<DenomAmount>,
    pub pagination: PaginationInfo,
}

/// What a [`SupplyResponse`] holds, as mathematical values.
pub struct SupplyResponseView {
    pub supply: Seq<DenomAmountView>,
    pub pagination: PaginationInfoView,
}

impl DeepView for SupplyResponse {
    type V = SupplyResponseView;

    open spec fn deep_view(&self) -> SupplyResponseView {
        SupplyResponseView {
            supply: self.supply.deep_view(),
            pagination: self.pagination.deep_view(),
        }
    }
}

} // verus!

//! Shapes of the staking area: pool, parameters and validators.

use vstd::prelude::*;
use vstd::string::StringExecFns;
use crate::model::shared::{
    PaginationInfo, PaginationInfoView, PaginationQueryParams, SuffixedDur,
};

verus! {

/// The bond status of a validator in the vocabulary of the REST schema.
#[allow(non_camel_case_types)]
#[derive(Clone, Copy, Debug)]
pub enum CosmosValStatus {
    BOND_STATUS_UNSPECIFIED,
    BOND_STATUS_BONDED,
    BOND_STATUS_UNBONDING,
    BOND_STATUS_UNBONDED,
}

impl PartialEq for CosmosValStatus {
    /// Two statuses are equal when they are the same variant.
    fn eq(&self, other: &Self) -> (equal: bool) {
        match (self, other) {
            (
                CosmosValStatus::BOND_STATUS_UNSPECIFIED,
                CosmosValStatus::BOND_STATUS_UNSPECIFIED,
            ) => true,
            (CosmosValStatus::BOND_STATUS_BONDED, CosmosValStatus::BOND_STATUS_BONDED) => true,
            (CosmosValStatus::BOND_STATUS_UNBONDING, CosmosValStatus::BOND_STATUS_UNBONDING) => true,
            (CosmosValStatus::BOND_STATUS_UNBONDED, CosmosValStatus::BOND_STATUS_UNBONDED) => true,
            _ => false,
        }
    }
}

impl vstd::std_specs::cmp::PartialEqSpecImpl for CosmosValStatus {
    open spec fn obeys_eq_spec() -> bool {
        true
    }

    open spec fn eq_spec(&self, other: &Self) -> bool {
        *self == *other
    }
}

/// The query string of a validator listing.
#[derive(Clone, Copy, Debug)]
pub struct ValidatorsQueryParams {
    pub status: Option<CosmosValStatus>,
    pub pagination: Option<PaginationQueryParams>,
}

/// The answer to a query for the staking pool.
#[derive(Debug)]
pub struct PoolResponse {
    pub pool: PoolInfo,
}

/// The staking pool. Both amounts are in whole tokens.
#[derive(Debug)]
pub struct PoolInfo {
    pub not_bonded_tokens: String,
    pub bonded_tokens: String,
}

/// The answer to a query for the staking parameters.
#[derive(Debug)]
pub struct ParamsResponse {
    pub unbonding_time: SuffixedDur,
    pub max_validators: u32,
    pub max_entries: u32,
    pub historical_entries: u32,
    pub bond_denom: String,
}

/// The consensus key of a validator.
#[derive(Debug)]
pub struct ConsensusKeyInfo {
    pub at_type: String,
    pub key: String,
}

/// What a [`ConsensusKeyInfo`] holds, as mathematical values.
pub struct ConsensusKeyInfoView {
    pub at_type: Seq<char>,
    pub key: Seq<char>,
}

impl DeepView for ConsensusKeyInfo {
    type V = ConsensusKeyInfoView;

    open spec fn deep_view(&self) -> ConsensusKeyInfoView {
        ConsensusKeyInfoView { at_type: self.at_type@, key: self.key@ }
    }
}

/// The consensus key shown while the chain's own is not looked up.
pub open spec fn placeholder_key() -> ConsensusKeyInfoView {
    ConsensusKeyInfoView { at_type: "placeholder"@, key: "placeholder"@ }
}

impl ConsensusKeyInfo {
    /// The consensus key shown while the chain's own is not looked up.
    pub fn placeholder() -> (key: ConsensusKeyInfo)
        ensures
            key.deep_view() == placeholder_key(),
    {
        ConsensusKeyInfo {
            at_type: String::from_str("placeholder"),
            key: String::from_str("placeholder"),
        }
    }
}

/// How a validator describes itself. `moniker` is the validator's address.
#[derive(Debug)]
pub struct ValidatorDescription {
    pub moniker: String,
    pub identity: Option<String>,
    pub website: Option<String>,
    pub security_contact: Option<String>,
    pub details: Option<String>,
}

/// What a [`ValidatorDescription`] holds, as mathematical values.
pub struct ValidatorDescriptionView {
    pub moniker: Seq<char>,
    pub identity: Option<Seq<char>>,
    pub website: Option<Seq<char>>,
    pub security_contact: Option<Seq<char>>,
    pub details: Option<Seq<char>>,
}

impl DeepView for ValidatorDescription {
    type V = ValidatorDescriptionView;

    open spec fn deep_view(&self) -> ValidatorDescriptionView {
        ValidatorDescriptionView {
            moniker: self.moniker@,
            identity: self.identity.deep_view(),
            website: self.website.deep_view(),
            security_contact: self.security_contact.deep_view(),
            details: self.details.deep_view(),
        }
    }
}

/// The description of a validator that has published none: its address, and
/// empty text everywhere else.
pub open spec fn empty_description(address: Seq<char>) -> ValidatorDescriptionView {
    ValidatorDescriptionView {
        moniker: address,
        identity: Some(Seq::empty()),
        website: Some(Seq::empty()),
        security_contact: Some(Seq::empty()),
        details: Some(Seq::empty()),
    }
}

impl ValidatorDescription {
    /// The description of a validator that has published none.
    pub fn empty(address: &String) -> (description: ValidatorDescription)
        ensures
            description.deep_view() == empty_description(address@),
    {
        ValidatorDescription {
            moniker: address.clone(),
            identity: Some(String::new()),
            website: Some(String::new()),
            security_contact: Some(String::new()),
            details: Some(String::new()),
        }
    }
}

/// Commission rates, each a decimal numeral.
#[derive(Debug)]
pub struct RatesInfo {
    pub rate: String,
    pub max_rate: String,
    pub max_change_rate: String,
}

/// What a [`RatesInfo`] holds, as mathematical values.
pub struct RatesInfoView {
    pub rate: Seq<char>,
    pub max_rate: Seq<char>,
    pub max_change_rate: Seq<char>,
}

impl DeepView for RatesInfo {
    type V = RatesInfoView;

    open spec fn deep_view(&self) -> RatesInfoView {
        RatesInfoView {
            rate: self.rate@,
            max_rate: self.max_rate@,
            max_change_rate: self.max_change_rate@,
        }
    }
}

/// The commission of a validator.
#[derive(Debug)]
pub struct CommissionInfo {
    pub commission_rates: RatesInfo,
    pub update_time: String,
}

/// What a [`CommissionInfo`] holds, as mathematical values.
pub struct CommissionInfoView {
    pub commission_rates: RatesInfoView,
    pub update_time: Seq<char>,
}

impl DeepView for CommissionInfo {
    type V = CommissionInfoView;

    open spec fn deep_view(&self) -> CommissionInfoView {
        CommissionInfoView {
            commission_rates: self.commission_rates.deep_view(),
            update_time: self.update_time@,
        }
    }
}

/// The commission of a validator that has published none: every rate one, and
/// no update time.
pub open spec fn unknown_commission() -> CommissionInfoView {
    CommissionInfoView {
        commission_rates: RatesInfoView { rate: "1"@, max_rate: "1"@, max_change_rate: "1"@ },
        update_time: Seq::empty(),
    }
}

impl Default for CommissionInfo {
    /// The commission of a validator that has published none.
    fn default() -> (commission: CommissionInfo)
        ensures
            commission.deep_view() == unknown_commission(),
    {
        CommissionInfo {
            commission_rates: RatesInfo {
                rate: String::from_str("1"),
                max_rate: String::from_str("1"),
                max_change_rate: String::from_str("1"),
            },
            update_time: String::new(),
        }
    }
}

/// One validator as a listing shows it. `tokens` is the stake in whole
/// tokens, `delegator_shares` the stake in the token's native denomination.
#[derive(Debug)]
pub struct ValidatorInfo {
    pub operator_address: String,
    pub consensus_pubkey: ConsensusKeyInfo,
    pub jailed: bool,
    pub status: CosmosValStatus,
    pub tokens: String,
    pub delegator_shares: String,
    pub description: ValidatorDescription,
    pub unbonding_height: String,
    pub unbonding_time: String,
    pub commission: CommissionInfo,
    pub min_self_delegation: String,
}

/// What a [`ValidatorInfo`] holds, as mathematical values.
pub struct ValidatorInfoView {
    pub operator_address: Seq<char>,
    pub consensus_pubkey: ConsensusKeyInfoView,
    pub jailed: bool,
    pub status: CosmosValStatus,
    pub tokens: Seq<char>,
    pub delegator_shares: Seq<char>,
    pub description: ValidatorDescriptionView,
    pub unbonding_height: Seq<char>,
    pub unbonding_time: Seq<char>,
    pub commission: CommissionInfoView,
    pub min_self_delegation: Seq<char>,
}

impl DeepView for ValidatorInfo {
    type V = ValidatorInfoView;

    open spec fn deep_view(&self) -> ValidatorInfoView {
        ValidatorInfoView {
            operator_address: self.operator_address@,
            consensus_pubkey: self.consensus_pubkey.deep_view(),
            jailed: self.jailed,
            status: self.status,
            tokens: self.tokens@,
            delegator_shares: self.delegator_shares@,
            description: self.description.deep_view(),
            unbonding_height: self.unbonding_height@,
            unbonding_time: self.unbonding_time@,
            commission: self.commission.deep_view(),
            min_self_delegation: self.min_self_delegation@,
        }
    }
}

/// The answer to a validator listing.
#[derive(Debug)]
pub struct ValidatorsResponse {
    pub validators: Vec<ValidatorInfo>,
    pub pagination: PaginationInfo,
}

/// What a [`ValidatorsResponse`] holds, as mathematical values.
pub struct ValidatorsResponseView {
    pub validators: Seq<ValidatorInfoView>,
    pub pagination: PaginationInfoView,
}

impl DeepView for ValidatorsResponse {
    type V = ValidatorsResponseView;

    open spec fn deep_view(&self) -> ValidatorsResponseView {
        ValidatorsResponseView {
            validators: self.validators.deep_view(),
            pagination: self.pagination.deep_view(),
        }
    }
}

impl ValidatorsResponse {
    /// A listing without validators and without a page block.
    pub fn new() -> (response: ValidatorsResponse)
        ensures
            response.deep_view() == (ValidatorsResponseView {
                validators: Seq::empty(),
                pagination: PaginationInfoView { next_key: None, total: None },
            }),
    {
        let validators: Vec<ValidatorInfo> = Vec::new();
        assert(validators.deep_view() =~= Seq::empty());
        ValidatorsResponse { validators, pagination: PaginationInfo::default() }
    }
}

} // verus!

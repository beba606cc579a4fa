//! How validators are presented: the bond status that stands for the chain's
//! validator state, the status filter of a listing, and the listing entry.

use vstd::prelude::*;
use vstd::string::StringExecFns;
use crate::model::shared::{PaginationInfo, PaginationInfoView, DEFAULT_TIMESTAMP};
use crate::model::staking::{
    empty_description, placeholder_key, unknown_commission, CommissionInfo, CommissionInfoView,
    ConsensusKeyInfo, CosmosValStatus, RatesInfo, RatesInfoView, ValidatorDescription,
    ValidatorDescriptionView, ValidatorInfo, ValidatorInfoView, ValidatorsResponse,
    ValidatorsResponseView,
};

verus! {

/// The state of a validator, as the chain sees it.
#[derive(Clone, Copy, Debug, PartialEq, Eq, Structural)]
pub enum ValidatorState {
    Consensus,
    BelowCapacity,
    BelowThreshold,
    Inactive,
    Jailed,
}

/// What a validator has published about itself.
#[derive(Debug)]
pub struct ValidatorMetaData {
    pub email: String,
    pub description: Option<String>,
    pub website: Option<String>,
    pub discord_handle: Option<String>,
}

/// The commission that a validator takes. Both rates are decimal numerals.
#[derive(Debug)]
pub struct CommissionPair {
    pub commission_rate: String,
    pub max_commission_change_per_epoch: String,
}

/// The stake of a validator, in whole tokens and in the token's native
/// denomination.
#[derive(Debug)]
pub struct ValidatorStake {
    pub tokens: String,
    pub native: String,
}

/// Whether a validator in `state` counts as jailed, and its bond status: a
/// validator in the consensus set is bonded and free; every other one, and one
/// whose state is unknown, is reported as unbonded and jailed.
pub open spec fn bond_status(state: Option<ValidatorState>) -> (bool, CosmosValStatus) {
    match state {
        Some(ValidatorState::Consensus) => (false, CosmosValStatus::BOND_STATUS_BONDED),
        _ => (true, CosmosValStatus::BOND_STATUS_UNBONDED),
    }
}

/// Whether a listing that asked for `query_status` shows a validator of
/// status `val_status`: every validator where nothing was asked for, else
/// the validators of the status asked for.
pub open spec fn validator_matches(
    query_status: Option<CosmosValStatus>,
    val_status: CosmosValStatus,
) -> bool {
    match query_status {
        Some(wanted) => wanted == val_status,
        None => true,
    }
}

/// Maps the chain's validator state to the jailed flag and bond status of the
/// schema.
pub fn map_status_namada_to_cosmos(namada_status: ValidatorState) -> (status: (
    bool,
    CosmosValStatus,
))
    ensures
        status == bond_status(Some(namada_status)),
{
    match namada_status {
        ValidatorState::Consensus => (false, CosmosValStatus::BOND_STATUS_BONDED),
        _ => (true, CosmosValStatus::BOND_STATUS_UNBONDED),
    }
}

/// Whether a listing that asked for `query_status` shows a validator of
/// status `val_status`.
pub fn filter_validator_by_status(
    query_status: Option<CosmosValStatus>,
    val_status: CosmosValStatus,
) -> (keep: bool)
    ensures
        keep == validator_matches(query_status, val_status),
{
    match query_status {
        Some(query_status) => query_status == val_status,
        None => true,
    }
}

/// Decides, from a validator's state alone, whether a listing shows it. Where
/// it does, the jailed flag and bond status to show come back, and the
/// validator's details are worth looking up; where it does not, nothing more
/// is to be asked about this validator.
pub fn select_validator(query_status: Option<CosmosValStatus>, state: Option<ValidatorState>) -> (shown:
    Option<(bool, CosmosValStatus)>)
    ensures
        shown == if validator_matches(query_status, bond_status(state).1) {
            Some(bond_status(state))
        } else {
            None
        },
{
    let (jailed, status) = match state {
        Some(state) => map_status_namada_to_cosmos(state),
        None => (true, CosmosValStatus::BOND_STATUS_UNBONDED),
    };
    if filter_validator_by_status(query_status, status) {
        Some((jailed, status))
    } else {
        None
    }
}

/// How a validator at `address` is described, given what it has published.
pub open spec fn description_view(
    address: Seq<char>,
    metadata: Option<ValidatorMetaData>,
) -> ValidatorDescriptionView {
    match metadata {
        Some(metadata) => ValidatorDescriptionView {
            moniker: address,
            identity: metadata.discord_handle.deep_view(),
            website: metadata.website.deep_view(),
            security_contact: Some(metadata.email@),
            details: metadata.description.deep_view(),
        },
        None => empty_description(address),
    }
}

/// The commission shown for a validator, given what the chain knows of it.
/// The chain has no maximum rate; one is shown.
pub open spec fn commission_view(commission: Option<CommissionPair>) -> CommissionInfoView {
    match commission {
        Some(pair) => CommissionInfoView {
            commission_rates: RatesInfoView {
                rate: pair.commission_rate@,
                max_rate: "1"@,
                max_change_rate: pair.max_commission_change_per_epoch@,
            },
            update_time: DEFAULT_TIMESTAMP@,
        },
        None => unknown_commission(),
    }
}

/// The listing entry of the validator at `address`.
pub open spec fn validator_info_view(
    address: Seq<char>,
    jailed: bool,
    status: CosmosValStatus,
    metadata: Option<ValidatorMetaData>,
    commission: Option<CommissionPair>,
    stake: ValidatorStake,
) -> ValidatorInfoView {
    ValidatorInfoView {
        operator_address: address,
        consensus_pubkey: placeholder_key(),
        jailed,
        status,
        tokens: stake.tokens@,
        delegator_shares: stake.native@,
        description: description_view(address, metadata),
        unbonding_height: "0"@,
        unbonding_time: DEFAULT_TIMESTAMP@,
        commission: commission_view(commission),
        min_self_delegation: "1"@,
    }
}

/// Describes the validator at `address` with what it has published, or with
/// blanks where it has published nothing.
pub fn describe_validator(address: &String, metadata: Option<ValidatorMetaData>) -> (description:
    ValidatorDescription)
    ensures
        description.deep_view() == description_view(address@, metadata),
{
    match metadata {
        Some(metadata) => ValidatorDescription {
            moniker: address.clone(),
            identity: metadata.discord_handle,
            website: metadata.website,
            security_contact: Some(metadata.email),
            details: metadata.description,
        },
        None => ValidatorDescription::empty(address),
    }
}

/// The commission to show for a validator.
pub fn commission_of(commission: Option<CommissionPair>) -> (info: CommissionInfo)
    ensures
        info.deep_view() == commission_view(commission),
{
    match commission {
        Some(pair) => CommissionInfo {
            commission_rates: RatesInfo {
                rate: pair.commission_rate,
                max_rate: String::from_str("1"),
                max_change_rate: pair.max_commission_change_per_epoch,
            },
            update_time: String::from_str(DEFAULT_TIMESTAMP),
        },
        None => CommissionInfo::default(),
    }
}

/// Builds the listing entry of a validator that [`select_validator`] chose,
/// from its details.
pub fn validator_info(
    address: String,
    jailed: bool,
    status: CosmosValStatus,
    metadata: Option<ValidatorMetaData>,
    commission: Option<CommissionPair>,
    stake: ValidatorStake,
) -> (info: ValidatorInfo)
    ensures
        info.deep_view() == validator_info_view(
            address@,
            jailed,
            status,
            metadata,
            commission,
            stake,
        ),
{
    let description = describe_validator(&address, metadata);
    ValidatorInfo {
        operator_address: address,
        consensus_pubkey: ConsensusKeyInfo::placeholder(),
        jailed,
        status,
        tokens: stake.tokens,
        delegator_shares: stake.native,
        description,
        unbonding_height: String::from_str("0"),
        unbonding_time: String::from_str(DEFAULT_TIMESTAMP),
        commission: commission_of(commission),
        min_self_delegation: String::from_str("1"),
    }
}

/// The page block of a validator listing: no cursor, and a total of one.
pub open spec fn fixed_page() -> PaginationInfoView {
    PaginationInfoView { next_key: None, total: Some("1"@) }
}

/// The page block of a validator listing.
pub fn fixed_pagination() -> (info: PaginationInfo)
    ensures
        info.deep_view() == fixed_page(),
{
    PaginationInfo { next_key: None, total: Some(String::from_str("1")) }
}

/// The answer to a validator listing that shows `validators`.
pub fn validators_response(validators: Vec<ValidatorInfo>) -> (response: ValidatorsResponse)
    ensures
        response.deep_view() == (ValidatorsResponseView {
            validators: validators.deep_view(),
            pagination: fixed_page(),
        }),
{
    let mut response = ValidatorsResponse::new();
    response.validators = validators;
    response.pagination = fixed_pagination();
    response
}

/// Every validator that a listing shows has the status that was asked for,
/// and a validator is bonded exactly when it is not jailed.
pub proof fn lemma_selected_status(query_status: Option<CosmosValStatus>, state: Option<ValidatorState>)
    ensures
        bond_status(state).0 <==> bond_status(state).1 != CosmosValStatus::BOND_STATUS_BONDED,
        bond_status(state).1 == CosmosValStatus::BOND_STATUS_BONDED <==> state == Some(
            ValidatorState::Consensus,
        ),
        query_status.is_some() && validator_matches(query_status, bond_status(state).1)
            ==> query_status == Some(bond_status(state).1),
{
}

} // verus!

//! The answers of the endpoints that report parameters and placeholders.
//!
//! Some of what the REST schema asks for has no counterpart on the chain, or
//! none that is looked up yet. Those endpoints answer with fixed values, kept
//! here in one place. The others put a few values of the chain into the
//! schema's shape.

use vstd::prelude::*;
use vstd::string::StringExecFns;
use crate::governance::assemble::{deposit_of, uniform_deposit};
use crate::governance::native::GovernanceParameters;
use crate::model::bank::{
    SupplyDenomResponse, SupplyDenomResponseView, SupplyResponse, SupplyResponseView,
};
use crate::model::distribution::{
    CommunityPoolResponse, CommunityPoolResponseView, DistibutionParamsInfo,
    DistibutionParamsInfoView, DistributionParamsResponse,
};
use crate::model::gov::{
    blank_gov_params, DepositParamsView, ParamsGovResponse, ParamsGovResponseView,
    TallyParamsView, VotingParams,
};
use crate::model::mint::InflationResponse;
use crate::model::shared::{nam_amount_view, DenomAmount, DenomAmountView, SuffixedDur, NAM};
use crate::model::slashing::{
    SigningInfos, SigningInfosResponse, SigningInfosResponseView, SigningInfosView,
    SlashingParamsInfo, SlashingParamsInfoView, SlashingParamsResponse,
};
use crate::model::staking::{
    placeholder_key, ConsensusKeyInfo, ParamsResponse, PoolInfo, PoolResponse,
};
use crate::model::tendermint::{
    node_info_view, placeholder_app_version, CosmosAppVersion, CosmosNodeInfo, NodeInfo,
    NodeInfoResponse, ValidatorInfo, ValidatorInfoView, ValidatorSetsResponse,
    ValidatorSetsResponseView,
};
use crate::staking::{fixed_page, fixed_pagination};
use crate::text::{decimal, u64_to_decimal};

verus! {

/// The one denomination that the supply endpoints report.
pub open spec fn placeholder_supply() -> DenomAmountView {
    DenomAmountView { denom: "tnam1234"@, amount: "1000"@ }
}

/// The one denomination that the supply endpoints report.
fn placeholder_supply_amount() -> (amount: DenomAmount)
    ensures
        amount.deep_view() == placeholder_supply(),
{
    DenomAmount { denom: String::from_str("tnam1234"), amount: String::from_str("1000") }
}

/// The answer to a query for the whole supply.
pub fn supply_response() -> (response: SupplyResponse)
    ensures
        response.deep_view() == (SupplyResponseView {
            supply: seq![placeholder_supply()],
            pagination: fixed_page(),
        }),
{
    let mut supply: Vec<DenomAmount> = Vec::new();
    supply.push(placeholder_supply_amount());
    assert(supply.deep_view() =~= seq![placeholder_supply()]);
    SupplyResponse { supply, pagination: fixed_pagination() }
}

/// The answer to a query for the supply of the native token.
pub fn supply_denom_response() -> (response: SupplyDenomResponse)
    ensures
        response.deep_view() == (SupplyDenomResponseView { amount: placeholder_supply() }),
{
    SupplyDenomResponse { amount: placeholder_supply_amount() }
}

/// The answer to a query for the community pool, which holds `pool_amount`
/// of the native token.
pub fn community_pool_response(pool_amount: String) -> (response: CommunityPoolResponse)
    ensures
        response.deep_view() == (CommunityPoolResponseView {
            pool: seq![nam_amount_view(pool_amount@)],
        }),
{
    let mut pool: Vec<DenomAmount> = Vec::new();
    pool.push(DenomAmount::nam_amount(pool_amount));
    assert(pool.deep_view() =~= seq![nam_amount_view(pool_amount@)]);
    CommunityPoolResponse { pool }
}

/// The answer to a query for the distribution parameters: no community tax,
/// the chain's reward for voting on a block as the base reward of a proposer,
/// its reward for proposing one as the bonus, and withdrawal addresses
/// enabled.
pub fn distribution_params_response(
    block_vote_reward: String,
    block_proposer_reward: String,
) -> (response: DistributionParamsResponse)
    ensures
        response.params.deep_view() == (DistibutionParamsInfoView {
            community_tax: "0"@,
            base_proposer_reward: block_vote_reward@,
            bonus_proposer_reward: block_proposer_reward@,
            withdraw_addr_enabled: true,
        }),
{
    DistributionParamsResponse {
        params: DistibutionParamsInfo {
            community_tax: String::from_str("0"),
            base_proposer_reward: block_vote_reward,
            bonus_proposer_reward: block_proposer_reward,
            withdraw_addr_enabled: true,
        },
    }
}

/// The low 32 bits of `n`.
pub open spec fn low_u32(n: u64) -> u32 {
    (n % 0x1_0000_0000) as u32
}

/// The low 32 bits of `n`.
fn low_bits(n: u64) -> (low: u32)
    ensures
        low == low_u32(n),
{
    (n % 0x1_0000_0000) as u32
}

/// The seconds that `epochs` epochs last at least, where an epoch lasts at
/// least `min_duration_secs`. Of `epochs`, only the low 32 bits count.
pub open spec fn epochs_in_seconds(min_duration_secs: u64, epochs: u64) -> int {
    min_duration_secs * low_u32(epochs)
}

/// The least duration of `epochs` epochs.
pub fn epochs_duration(min_duration_secs: u64, epochs: u64) -> (duration: SuffixedDur)
    requires
        epochs_in_seconds(min_duration_secs, epochs) <= u64::MAX,
    ensures
        duration.0 == epochs_in_seconds(min_duration_secs, epochs),
{
    let count: u64 = low_bits(epochs) as u64;
    assert(min_duration_secs * count == epochs_in_seconds(min_duration_secs, epochs));
    SuffixedDur(min_duration_secs * count)
}

/// Whether [`epochs_duration`] can say the duration in a `u64` of seconds.
pub fn epochs_duration_fits(min_duration_secs: u64, epochs: u64) -> (fits: bool)
    ensures
        fits == (epochs_in_seconds(min_duration_secs, epochs) <= u64::MAX),
{
    let count: u64 = low_bits(epochs) as u64;
    match min_duration_secs.checked_mul(count) {
        Some(_) => true,
        None => false,
    }
}

/// The answer to a query for the voting parameters. The chain lets a proposal
/// choose its voting period within a range; the least it allows is reported.
pub fn voting_params_response(min_duration_secs: u64, min_proposal_voting_period: u64) -> (response:
    ParamsGovResponse)
    requires
        epochs_in_seconds(min_duration_secs, min_proposal_voting_period) <= u64::MAX,
    ensures
        response.deep_view() == (ParamsGovResponseView {
            voting_params: VotingParams {
                voting_period: SuffixedDur(
                    epochs_in_seconds(min_duration_secs, min_proposal_voting_period) as u64,
                ),
            },
            ..blank_gov_params()
        }),
{
    let mut response = ParamsGovResponse::default();
    response.voting_params.voting_period = epochs_duration(
        min_duration_secs,
        min_proposal_voting_period,
    );
    response
}

/// The answer to a query for the deposit parameters: the minimum proposal
/// fund as the minimum deposit.
pub fn deposit_params_response(params: &GovernanceParameters) -> (response: ParamsGovResponse)
    ensures
        response.deep_view() == (ParamsGovResponseView {
            deposit_params: DepositParamsView {
                min_deposit: uniform_deposit(params.min_proposal_fund@),
                ..blank_gov_params().deposit_params
            },
            ..blank_gov_params()
        }),
{
    let mut response = ParamsGovResponse::default();
    response.deposit_params.min_deposit = deposit_of(params);
    response
}

/// The answer to a query for the tallying parameters: no quorum, a threshold
/// of two thirds, and a veto threshold of one.
pub fn tallying_params_response() -> (response: ParamsGovResponse)
    ensures
        response.deep_view() == (ParamsGovResponseView {
            tally_params: TallyParamsView {
                quorum: "0"@,
                threshold: "0.67"@,
                veto_threshold: "1"@,
            },
            ..blank_gov_params()
        }),
{
    let mut response = ParamsGovResponse::default();
    response.tally_params.quorum = String::from_str("0");
    response.tally_params.threshold = String::from_str("0.67");
    response.tally_params.veto_threshold = String::from_str("1");
    response
}

/// The answer to a query for the inflation rate.
pub fn inflation_response() -> (response: InflationResponse)
    ensures
        response.inflation@ == "0.1200000"@,
{
    InflationResponse { inflation: String::from_str("0.1200000") }
}

/// The slashing parameters that are reported.
pub open spec fn placeholder_slashing_params() -> SlashingParamsInfoView {
    SlashingParamsInfoView {
        signed_blocks_window: "1000"@,
        min_signed_per_window: "0.0500000"@,
        downtime_jail_duration: "600s"@,
        slash_fraction_double_sign: "0.050000000000000"@,
        slash_fraction_downtime: "0.00010000"@,
    }
}

/// The answer to a query for the slashing parameters.
pub fn slashing_params_response() -> (response: SlashingParamsResponse)
    ensures
        response.params.deep_view() == placeholder_slashing_params(),
{
    SlashingParamsResponse {
        params: SlashingParamsInfo {
            signed_blocks_window: String::from_str("1000"),
            min_signed_per_window: String::from_str("0.0500000"),
            downtime_jail_duration: String::from_str("600s"),
            slash_fraction_double_sign: String::from_str("0.050000000000000"),
            slash_fraction_downtime: String::from_str("0.00010000"),
        },
    }
}

/// The one signing record that is reported.
pub open spec fn placeholder_signing_info() -> SigningInfosView {
    SigningInfosView {
        address: "tnam1234"@,
        start_height: "0"@,
        index_offset: "23414"@,
        jailed_until: "1970-01-01T00:00:00Z"@,
        tombstoned: false,
        missed_blocks_counter: "2"@,
    }
}

/// The answer to a query for the signing records.
pub fn signing_infos_response() -> (response: SigningInfosResponse)
    ensures
        response.deep_view() == (SigningInfosResponseView {
            info: seq![placeholder_signing_info()],
            pagination: fixed_page(),
        }),
{
    let mut info: Vec<SigningInfos> = Vec::new();
    info.push(
        SigningInfos {
            address: String::from_str("tnam1234"),
            start_height: String::from_str("0"),
            index_offset: String::from_str("23414"),
            jailed_until: String::from_str("1970-01-01T00:00:00Z"),
            tombstoned: false,
            missed_blocks_counter: String::from_str("2"),
        },
    );
    assert(info.deep_view() =~= seq![placeholder_signing_info()]);
    SigningInfosResponse { info, pagination: fixed_pagination() }
}

/// The answer to a query for the staking pool, of which `bonded_tokens` whole
/// tokens are bonded.
pub fn pool_response(bonded_tokens: String) -> (response: PoolResponse)
    ensures
        response.pool.not_bonded_tokens@ == "1000000000"@,
        response.pool.bonded_tokens@ == bonded_tokens@,
{
    PoolResponse {
        pool: PoolInfo { not_bonded_tokens: String::from_str("1000000000"), bonded_tokens },
    }
}

/// The answer to a query for the staking parameters. Of the number of
/// validator slots, and of the unbonding length in epochs, only the low 32
/// bits count.
pub fn staking_params_response(
    min_duration_secs: u64,
    unbonding_len: u64,
    max_validator_slots: u64,
) -> (response: ParamsResponse)
    requires
        epochs_in_seconds(min_duration_secs, unbonding_len) <= u64::MAX,
    ensures
        response.unbonding_time.0 == epochs_in_seconds(min_duration_secs, unbonding_len),
        response.max_validators == low_u32(max_validator_slots),
        response.max_entries == 7,
        response.historical_entries == 1000,
        response.bond_denom@ == NAM@,
{
    ParamsResponse {
        unbonding_time: epochs_duration(min_duration_secs, unbonding_len),
        max_validators: low_bits(max_validator_slots),
        max_entries: 7,
        historical_entries: 1000,
        bond_denom: String::from_str(NAM),
    }
}

/// The answer to a query for the node's info.
pub fn node_info_response(info: NodeInfo) -> (response: NodeInfoResponse)
    ensures
        response.default_node_info.deep_view() == node_info_view(info),
        response.application_version.deep_view() == placeholder_app_version(),
{
    NodeInfoResponse {
        default_node_info: CosmosNodeInfo::from(info),
        application_version: CosmosAppVersion::new(),
    }
}

/// A validator and its stake.
#[derive(Debug)]
pub struct ValidatorPower {
    pub address: String,
    pub voting_power: String,
}

/// The validator-set entry of a validator.
pub open spec fn validator_set_entry(validator: ValidatorPower) -> ValidatorInfoView {
    ValidatorInfoView {
        address: validator.address@,
        pub_key: placeholder_key(),
        voting_power: validator.voting_power@,
        proposer_priority: "234141"@,
    }
}

/// The answer to a query for the validator set at `height`: one entry for
/// each validator, in their order.
pub fn validator_sets_response(height: u64, validators: Vec<ValidatorPower>) -> (response:
    ValidatorSetsResponse)
    ensures
        response.deep_view() == (ValidatorSetsResponseView {
            block_height: decimal(height as nat),
            validators: validators@.map_values(|v: ValidatorPower| validator_set_entry(v)),
            pagination: fixed_page(),
        }),
{
    let ghost all = validators@;
    let mut entries: Vec<ValidatorInfo> = Vec::new();
    for validator in it: validators
        invariant
            it.seq() == validators@,
            all == validators@,
            entries.len() == it.index(),
            forall|j: int|
                0 <= j < it.index() ==> (#[trigger] entries[j]).deep_view() == validator_set_entry(
                    all[j],
                ),
    {
        entries.push(
            ValidatorInfo {
                address: validator.address,
                pub_key: ConsensusKeyInfo::placeholder(),
                voting_power: validator.voting_power,
                proposer_priority: String::from_str("234141"),
            },
        );
    }
    assert(entries.deep_view() =~= all.map_values(|v: ValidatorPower| validator_set_entry(v)));
    ValidatorSetsResponse {
        block_height: u64_to_decimal(height),
        validators: entries,
        pagination: fixed_pagination(),
    }
}

} // verus!

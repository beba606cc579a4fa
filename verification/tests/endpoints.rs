use namada_ping_middleware::endpoints::{
    community_pool_response, deposit_params_response, distribution_params_response,
    epochs_duration, epochs_duration_fits, inflation_response, node_info_response,
    pool_response, signing_infos_response, slashing_params_response, staking_params_response,
    supply_denom_response, supply_response, tallying_params_response, validator_sets_response,
    voting_params_response, ValidatorPower,
};
use namada_ping_middleware::error::api_error::ApiError;
use namada_ping_middleware::governance::native::{GovernanceParameters, TransportError};
use namada_ping_middleware::model::gov::{FinalTallyInfo, ParamsGovResponse};
use namada_ping_middleware::model::shared::SuffixedDur;
use namada_ping_middleware::model::tendermint::{
    CosmosAppVersion, CosmosNodeInfo, NodeInfo, OtherInfo, ProtocolVersionInfo, TxIndexStatus,
};

fn node_info() -> NodeInfo {
    NodeInfo {
        protocol_version: ProtocolVersionInfo { p2p: 8, block: 11, app: 0 },
        id: "1C2E3F4A5B6C7D8E9F0A1B2C3D4E5F6A7B8C9D0E".to_string(),
        listen_addr: "tcp://0.0.0.0:26656".to_string(),
        network: "local.0".to_string(),
        version: "0.37.2".to_string(),
        channels: "40202122233038606100".to_string(),
        moniker: "node-a".to_string(),
        other: OtherInfo {
            tx_index: TxIndexStatus::On,
            rpc_address: "tcp://127.0.0.1:26657".to_string(),
        },
    }
}

#[test]
fn supply_placeholders() {
    let all = supply_response();
    assert_eq!(all.supply.len(), 1);
    assert_eq!(all.supply[0].denom, "tnam1234");
    assert_eq!(all.supply[0].amount, "1000");
    assert_eq!(all.pagination.next_key, None);
    assert_eq!(all.pagination.total, Some("1".to_string()));
    let one = supply_denom_response();
    assert_eq!(one.amount.denom, "tnam1234");
    assert_eq!(one.amount.amount, "1000");
}

#[test]
fn distribution_answers() {
    let pool = community_pool_response("0.000000".to_string());
    assert_eq!(pool.pool.len(), 1);
    assert_eq!(pool.pool[0].denom, "nam");
    assert_eq!(pool.pool[0].amount, "0.000000");
    let params = distribution_params_response("0.1".to_string(), "0.125".to_string());
    assert_eq!(params.params.community_tax, "0");
    assert_eq!(params.params.base_proposer_reward, "0.1");
    assert_eq!(params.params.bonus_proposer_reward, "0.125");
    assert!(params.params.withdraw_addr_enabled);
}

#[test]
fn governance_parameter_answers() {
    let blank = ParamsGovResponse::default();
    assert_eq!(blank.voting_params.voting_period, SuffixedDur(0));
    assert!(blank.deposit_params.min_deposit.is_empty());
    assert_eq!(blank.deposit_params.max_deposit_period, "0s");
    assert_eq!(blank.tally_params.quorum, "0");
    assert_eq!(blank.tally_params.threshold, "0");
    assert_eq!(blank.tally_params.veto_threshold, "0");

    let voting = voting_params_response(86400, 3);
    assert_eq!(voting.voting_params.voting_period, SuffixedDur(259200));
    assert_eq!(voting.voting_params.voting_period.to_text(), "259200s");
    assert!(voting.deposit_params.min_deposit.is_empty());
    assert_eq!(voting.tally_params.threshold, "0");

    let deposit = deposit_params_response(&GovernanceParameters {
        min_proposal_fund: "500.000000".to_string(),
        min_proposal_voting_period: 3,
    });
    assert_eq!(deposit.deposit_params.min_deposit.len(), 1);
    assert_eq!(deposit.deposit_params.min_deposit[0].denom, "nam");
    assert_eq!(deposit.deposit_params.min_deposit[0].amount, "500.000000");
    assert_eq!(deposit.deposit_params.max_deposit_period, "0s");
    assert_eq!(deposit.voting_params.voting_period, SuffixedDur(0));

    let tallying = tallying_params_response();
    assert_eq!(tallying.tally_params.quorum, "0");
    assert_eq!(tallying.tally_params.threshold, "0.67");
    assert_eq!(tallying.tally_params.veto_threshold, "1");
    assert!(tallying.deposit_params.min_deposit.is_empty());
}

#[test]
fn epochs_to_seconds() {
    assert_eq!(epochs_duration(10, 0), SuffixedDur(0));
    assert_eq!(epochs_duration(0, 77), SuffixedDur(0));
    assert_eq!(epochs_duration(600, 21), SuffixedDur(12600));
    // only the low 32 bits of the epoch count are used
    assert_eq!(epochs_duration(2, (1u64 << 32) + 5), SuffixedDur(10));
    assert_eq!(epochs_duration(u64::MAX, 1 << 32), SuffixedDur(0));
    assert!(epochs_duration_fits(u64::MAX, 1));
    assert!(!epochs_duration_fits(u64::MAX, 2));
    assert!(epochs_duration_fits(u64::MAX, 1 << 32));
    assert!(epochs_duration_fits(1 << 32, u32::MAX as u64));
    assert!(!epochs_duration_fits(1 << 33, u32::MAX as u64));
}

#[test]
fn mint_and_slashing_placeholders() {
    assert_eq!(inflation_response().inflation, "0.1200000");
    let p = slashing_params_response().params;
    assert_eq!(p.signed_blocks_window, "1000");
    assert_eq!(p.min_signed_per_window, "0.0500000");
    assert_eq!(p.downtime_jail_duration, "600s");
    assert_eq!(p.slash_fraction_double_sign, "0.050000000000000");
    assert_eq!(p.slash_fraction_downtime, "0.00010000");
    let s = signing_infos_response();
    assert_eq!(s.info.len(), 1);
    assert_eq!(s.info[0].address, "tnam1234");
    assert_eq!(s.info[0].start_height, "0");
    assert_eq!(s.info[0].index_offset, "23414");
    assert_eq!(s.info[0].jailed_until, "1970-01-01T00:00:00Z");
    assert!(!s.info[0].tombstoned);
    assert_eq!(s.info[0].missed_blocks_counter, "2");
    assert_eq!(s.pagination.total, Some("1".to_string()));
}

#[test]
fn staking_answers() {
    let pool = pool_response("12345".to_string());
    assert_eq!(pool.pool.not_bonded_tokens, "1000000000");
    assert_eq!(pool.pool.bonded_tokens, "12345");
    let params = staking_params_response(86400, 21, 257);
    assert_eq!(params.unbonding_time, SuffixedDur(1814400));
    assert_eq!(params.max_validators, 257);
    assert_eq!(params.max_entries, 7);
    assert_eq!(params.historical_entries, 1000);
    assert_eq!(params.bond_denom, "nam");
    let wrapped = staking_params_response(1, 1, (1u64 << 32) + 9);
    assert_eq!(wrapped.max_validators, 9);
}

#[test]
fn node_info_answer() {
    let response = node_info_response(node_info());
    let n = &response.default_node_info;
    assert_eq!(n.protocol_version, ProtocolVersionInfo { p2p: 8, block: 11, app: 0 });
    assert_eq!(n.default_node_id, "1C2E3F4A5B6C7D8E9F0A1B2C3D4E5F6A7B8C9D0E");
    assert_eq!(n.listen_addr, "tcp://0.0.0.0:26656");
    assert_eq!(n.network, "local.0");
    assert_eq!(n.version, "0.37.2");
    assert_eq!(n.channels, "40202122233038606100");
    assert_eq!(n.moniker, "node-a");
    assert_eq!(n.other.tx_index, TxIndexStatus::On);
    assert_eq!(n.other.rpc_address, "tcp://127.0.0.1:26657");
    let direct = CosmosNodeInfo::from(node_info());
    assert_eq!(format!("{:?}", direct), format!("{:?}", response.default_node_info));
    let v = &response.application_version;
    assert_eq!(v.name(), "namada");
    assert_eq!(v.app_name(), "namadan");
    assert_eq!(v.version(), "placeholder");
    assert_eq!(v.git_commit(), "placeholder");
    assert_eq!(v.build_tags(), &Some("placeholder".to_string()));
    assert_eq!(v.go_version(), &Some("placeholder".to_string()));
    assert_eq!(v.build_deps_len(), None);
    assert_eq!(format!("{:?}", CosmosAppVersion::new()), format!("{:?}", v));
}

#[test]
fn validator_set_answer() {
    let response = validator_sets_response(
        1234,
        vec![
            ValidatorPower { address: "tnam1a".to_string(), voting_power: "7".to_string() },
            ValidatorPower { address: "tnam1b".to_string(), voting_power: "9".to_string() },
        ],
    );
    assert_eq!(response.block_height, "1234");
    assert_eq!(response.validators.len(), 2);
    assert_eq!(response.validators[0].address, "tnam1a");
    assert_eq!(response.validators[0].voting_power, "7");
    assert_eq!(response.validators[0].pub_key.at_type, "placeholder");
    assert_eq!(response.validators[0].pub_key.key, "placeholder");
    assert_eq!(response.validators[0].proposer_priority, "234141");
    assert_eq!(response.validators[1].address, "tnam1b");
    assert_eq!(response.validators[1].voting_power, "9");
    assert_eq!(response.pagination.next_key, None);
    assert_eq!(response.pagination.total, Some("1".to_string()));
    let none = validator_sets_response(0, vec![]);
    assert_eq!(none.block_height, "0");
    assert!(none.validators.is_empty());
}

#[test]
fn error_bodies() {
    let unknown = ApiError::default();
    assert_eq!(unknown.error, "api error");
    assert_eq!(unknown.code, 500);
    assert_eq!(unknown.message, Some("An unknown error occurred".to_string()));
    assert_eq!(unknown.details.len(), 1);
    assert_eq!(unknown.details[0].type_url, "");
    assert_eq!(unknown.details[0].value, "");
    let failed = ApiError::from_cause("rpc error: connection refused".to_string());
    assert_eq!(failed.error, "rpc error: connection refused");
    assert_eq!(failed.code, 500);
    assert_eq!(failed.message, Some("An error occurred".to_string()));
    assert_eq!(failed.details.len(), 1);
    assert_eq!(failed.details[0].type_url, "");
    assert_eq!(failed.details[0].value, "");
    let transport = ApiError::from_transport(TransportError { message: "timed out".to_string() });
    assert_eq!(transport.error, "timed out");
    assert_eq!(transport.code, 500);
    assert_eq!(transport.message, Some("An error occurred".to_string()));
    assert_eq!(transport.details.len(), 1);
    let missing = ApiError::proposal_result_not_found();
    assert_eq!(missing.error, "proposal result not found");
    assert_eq!(missing.code, 500);
    assert_eq!(missing.message, None);
    assert!(missing.details.is_empty());
}

#[test]
fn blank_tally() {
    let t = FinalTallyInfo::default();
    assert_eq!(t.yes, "0");
    assert_eq!(t.abstain, "0");
    assert_eq!(t.no, "0");
    assert_eq!(t.no_with_veto, "0");
}

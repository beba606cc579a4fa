use namada_ping_middleware::model::staking::{
    CommissionInfo, ConsensusKeyInfo, CosmosValStatus, ValidatorDescription, ValidatorsResponse,
};
use namada_ping_middleware::staking::{
    commission_of, describe_validator, filter_validator_by_status, fixed_pagination,
    map_status_namada_to_cosmos, select_validator, validator_info, validators_response,
    CommissionPair, ValidatorMetaData, ValidatorStake, ValidatorState,
};

fn metadata() -> ValidatorMetaData {
    ValidatorMetaData {
        email: "ops@example.org".to_string(),
        description: Some("a validator".to_string()),
        website: None,
        discord_handle: Some("ops#1".to_string()),
    }
}

#[test]
fn val_status_equality() {
    let all = [
        CosmosValStatus::BOND_STATUS_UNSPECIFIED,
        CosmosValStatus::BOND_STATUS_BONDED,
        CosmosValStatus::BOND_STATUS_UNBONDING,
        CosmosValStatus::BOND_STATUS_UNBONDED,
    ];
    for (i, a) in all.iter().enumerate() {
        for (j, b) in all.iter().enumerate() {
            assert_eq!(a == b, i == j);
        }
    }
}

#[test]
fn validator_state_mapping() {
    assert_eq!(
        map_status_namada_to_cosmos(ValidatorState::Consensus),
        (false, CosmosValStatus::BOND_STATUS_BONDED)
    );
    for state in [
        ValidatorState::BelowCapacity,
        ValidatorState::BelowThreshold,
        ValidatorState::Inactive,
        ValidatorState::Jailed,
    ] {
        assert_eq!(
            map_status_namada_to_cosmos(state),
            (true, CosmosValStatus::BOND_STATUS_UNBONDED)
        );
    }
}

#[test]
fn validator_filter() {
    let bonded = CosmosValStatus::BOND_STATUS_BONDED;
    let unbonded = CosmosValStatus::BOND_STATUS_UNBONDED;
    assert!(filter_validator_by_status(None, bonded));
    assert!(filter_validator_by_status(None, unbonded));
    assert!(filter_validator_by_status(Some(bonded), bonded));
    assert!(!filter_validator_by_status(Some(bonded), unbonded));
    assert!(!filter_validator_by_status(Some(CosmosValStatus::BOND_STATUS_UNBONDING), unbonded));
}

#[test]
fn validator_selection() {
    let bonded = CosmosValStatus::BOND_STATUS_BONDED;
    let unbonded = CosmosValStatus::BOND_STATUS_UNBONDED;
    assert_eq!(select_validator(None, Some(ValidatorState::Consensus)), Some((false, bonded)));
    assert_eq!(select_validator(None, Some(ValidatorState::Jailed)), Some((true, unbonded)));
    assert_eq!(select_validator(None, None), Some((true, unbonded)));
    assert_eq!(
        select_validator(Some(bonded), Some(ValidatorState::Consensus)),
        Some((false, bonded))
    );
    assert_eq!(select_validator(Some(bonded), Some(ValidatorState::Inactive)), None);
    assert_eq!(select_validator(Some(bonded), None), None);
    assert_eq!(select_validator(Some(unbonded), None), Some((true, unbonded)));
    assert_eq!(select_validator(Some(unbonded), Some(ValidatorState::Consensus)), None);
    assert_eq!(
        select_validator(Some(CosmosValStatus::BOND_STATUS_UNSPECIFIED), Some(ValidatorState::Jailed)),
        None
    );
}

#[test]
fn description_with_and_without_metadata() {
    let address = "tnam1qxyz".to_string();
    let d = describe_validator(&address, Some(metadata()));
    assert_eq!(d.moniker, "tnam1qxyz");
    assert_eq!(d.identity, Some("ops#1".to_string()));
    assert_eq!(d.website, None);
    assert_eq!(d.security_contact, Some("ops@example.org".to_string()));
    assert_eq!(d.details, Some("a validator".to_string()));
    let blank = describe_validator(&address, None);
    assert_eq!(blank.moniker, "tnam1qxyz");
    assert_eq!(blank.identity, Some("".to_string()));
    assert_eq!(blank.website, Some("".to_string()));
    assert_eq!(blank.security_contact, Some("".to_string()));
    assert_eq!(blank.details, Some("".to_string()));
    let empty = ValidatorDescription::empty(&address);
    assert_eq!(format!("{:?}", empty), format!("{:?}", blank));
}

#[test]
fn commission_with_and_without_rates() {
    let c = commission_of(Some(CommissionPair {
        commission_rate: "0.05".to_string(),
        max_commission_change_per_epoch: "0.01".to_string(),
    }));
    assert_eq!(c.commission_rates.rate, "0.05");
    assert_eq!(c.commission_rates.max_rate, "1");
    assert_eq!(c.commission_rates.max_change_rate, "0.01");
    assert_eq!(c.update_time, "1970-01-01T00:00:00Z");
    let unknown = commission_of(None);
    assert_eq!(unknown.commission_rates.rate, "1");
    assert_eq!(unknown.commission_rates.max_rate, "1");
    assert_eq!(unknown.commission_rates.max_change_rate, "1");
    assert_eq!(unknown.update_time, "");
    assert_eq!(format!("{:?}", CommissionInfo::default()), format!("{:?}", unknown));
}

#[test]
fn validator_entry() {
    let info = validator_info(
        "tnam1qxyz".to_string(),
        false,
        CosmosValStatus::BOND_STATUS_BONDED,
        Some(metadata()),
        None,
        ValidatorStake { tokens: "25".to_string(), native: "25.000000".to_string() },
    );
    assert_eq!(info.operator_address, "tnam1qxyz");
    assert_eq!(info.consensus_pubkey.at_type, "placeholder");
    assert_eq!(info.consensus_pubkey.key, "placeholder");
    assert!(!info.jailed);
    assert!(info.status == CosmosValStatus::BOND_STATUS_BONDED);
    assert_eq!(info.tokens, "25");
    assert_eq!(info.delegator_shares, "25.000000");
    assert_eq!(info.description.moniker, "tnam1qxyz");
    assert_eq!(info.description.security_contact, Some("ops@example.org".to_string()));
    assert_eq!(info.unbonding_height, "0");
    assert_eq!(info.unbonding_time, "1970-01-01T00:00:00Z");
    assert_eq!(info.commission.commission_rates.rate, "1");
    assert_eq!(info.min_self_delegation, "1");
}

#[test]
fn validator_listing() {
    let empty = ValidatorsResponse::new();
    assert!(empty.validators.is_empty());
    assert_eq!(empty.pagination.next_key, None);
    assert_eq!(empty.pagination.total, None);
    let one = validator_info(
        "tnam1qabc".to_string(),
        true,
        CosmosValStatus::BOND_STATUS_UNBONDED,
        None,
        None,
        ValidatorStake { tokens: "0".to_string(), native: "0.000000".to_string() },
    );
    let response = validators_response(vec![one]);
    assert_eq!(response.validators.len(), 1);
    assert_eq!(response.validators[0].operator_address, "tnam1qabc");
    assert_eq!(response.pagination.next_key, None);
    assert_eq!(response.pagination.total, Some("1".to_string()));
    let page = fixed_pagination();
    assert_eq!(page.total, Some("1".to_string()));
    let key = ConsensusKeyInfo::placeholder();
    assert_eq!(key.at_type, "placeholder");
}

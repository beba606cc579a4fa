use namada_ping_middleware::governance::assemble::{
    assemble_list, assemble_tally, filter_proposals, get_proposal, list_proposals, shown_status,
    single_proposal, translate_records,
};
use namada_ping_middleware::governance::enumerate::enumerate_proposal_ids;
use namada_ping_middleware::governance::native::{
    ContentEntry, GovernanceParameters, ProposalResult, ProposalStatus, RawBundle,
    StorageProposal, TallyResult, TransportError,
};
use namada_ping_middleware::governance::orchestrator::{
    FetchAction, FetchEvent, FetchOrchestrator,
};
use namada_ping_middleware::governance::status::{
    filter_proposal_by_status, map_status_namada_to_cosmos, translate_status,
};
use namada_ping_middleware::model::gov::{CosmosProposalStatus, ProposalItem};

fn record(id: u64, start: u64, end: u64) -> StorageProposal {
    StorageProposal {
        id,
        proposal_type: "Default".to_string(),
        content: vec![
            ContentEntry { key: "abstract".to_string(), value: "short".to_string() },
            ContentEntry { key: "title".to_string(), value: format!("Proposal {}", id) },
            ContentEntry { key: "details".to_string(), value: format!("Details of {}", id) },
        ],
        voting_start_epoch: start,
        voting_end_epoch: end,
    }
}

fn tally(result: TallyResult, yay: &str, nay: &str) -> ProposalResult {
    ProposalResult {
        result,
        total_yay_power: yay.to_string(),
        total_nay_power: nay.to_string(),
    }
}

fn params(fund: &str) -> GovernanceParameters {
    GovernanceParameters { min_proposal_fund: fund.to_string(), min_proposal_voting_period: 3 }
}

fn transport_error(message: &str) -> TransportError {
    TransportError { message: message.to_string() }
}

fn ids_of(items: &[ProposalItem]) -> Vec<String> {
    items.iter().map(|p| p.proposal_id.clone()).collect()
}

/// Drives a join to its end: record queries are answered by `records`, tally
/// queries by `tallies`, in the order in which they are asked.
fn run_join(
    counter: u64,
    records: &dyn Fn(u64) -> Result<Option<StorageProposal>, TransportError>,
    tallies: &dyn Fn(u64) -> Result<Option<ProposalResult>, TransportError>,
) -> Result<Vec<Option<RawBundle>>, TransportError> {
    let ids = enumerate_proposal_ids(counter);
    let (mut machine, first) = FetchOrchestrator::begin(ids);
    let mut pending: Vec<FetchAction> = vec![first];
    while let Some(action) = pending.pop() {
        match action {
            FetchAction::Wait => {}
            FetchAction::Complete(results) => return Ok(results),
            FetchAction::Fail(e) => return Err(e),
            FetchAction::QueryRecords(wanted) => {
                for (index, id) in wanted.iter().enumerate() {
                    let (next, action) =
                        machine.advance(FetchEvent::Record { index, record: records(*id) });
                    machine = next;
                    pending.push(action);
                }
                pending.reverse();
            }
            FetchAction::QueryTally { index, id } => {
                let (next, action) =
                    machine.advance(FetchEvent::Tally { index, tally: tallies(id) });
                machine = next;
                pending.push(action);
            }
        }
    }
    panic!("the join neither completed nor failed");
}

#[test]
fn enumerate_yields_ascending_ids() {
    assert_eq!(enumerate_proposal_ids(0), Vec::<u64>::new());
    assert_eq!(enumerate_proposal_ids(1), vec![0]);
    assert_eq!(enumerate_proposal_ids(5), vec![0, 1, 2, 3, 4]);
    let many = enumerate_proposal_ids(1000);
    assert_eq!(many.len(), 1000);
    assert!(many.iter().enumerate().all(|(i, id)| *id == i as u64));
}

#[test]
fn status_by_epoch() {
    let r = record(7, 10, 20);
    assert_eq!(r.get_status(9), ProposalStatus::Pending);
    assert_eq!(r.get_status(10), ProposalStatus::OnGoing);
    assert_eq!(r.get_status(15), ProposalStatus::OnGoing);
    assert_eq!(r.get_status(20), ProposalStatus::OnGoing);
    assert_eq!(r.get_status(21), ProposalStatus::Ended);
    assert_eq!(r.get_status(0), ProposalStatus::Pending);
    assert_eq!(r.get_status(u64::MAX), ProposalStatus::Ended);
}

#[test]
fn content_lookup_takes_value_or_empty() {
    let r = record(3, 1, 2);
    assert_eq!(r.content_value(&"title".to_string()), "Proposal 3");
    assert_eq!(r.content_value(&"details".to_string()), "Details of 3");
    assert_eq!(r.content_value(&"abstract".to_string()), "short");
    assert_eq!(r.content_value(&"motivation".to_string()), "");
    let empty = StorageProposal {
        id: 1,
        proposal_type: "Default".to_string(),
        content: vec![],
        voting_start_epoch: 0,
        voting_end_epoch: 0,
    };
    assert_eq!(empty.content_value(&"title".to_string()), "");
}

#[test]
fn status_rule_table() {
    for result in [None, Some(TallyResult::Passed), Some(TallyResult::Rejected)] {
        assert_eq!(
            map_status_namada_to_cosmos(ProposalStatus::Pending, result),
            CosmosProposalStatus::PROPOSAL_STATUS_DEPOSIT_PERIOD
        );
        assert_eq!(
            map_status_namada_to_cosmos(ProposalStatus::OnGoing, result),
            CosmosProposalStatus::PROPOSAL_STATUS_VOTING_PERIOD
        );
    }
    assert_eq!(
        map_status_namada_to_cosmos(ProposalStatus::Ended, Some(TallyResult::Passed)),
        CosmosProposalStatus::PROPOSAL_STATUS_PASSED
    );
    assert_eq!(
        map_status_namada_to_cosmos(ProposalStatus::Ended, Some(TallyResult::Rejected)),
        CosmosProposalStatus::PROPOSAL_STATUS_REJECTED
    );
    assert_eq!(map_status_namada_to_cosmos(ProposalStatus::Ended, None), CosmosProposalStatus::PROPOSAL_STATUS_FAILED);
}

#[test]
fn translate_uses_epoch_and_tally() {
    let r = record(1, 10, 20);
    let passed = Some(tally(TallyResult::Passed, "5.000000", "1.000000"));
    let rejected = Some(tally(TallyResult::Rejected, "1.000000", "5.000000"));
    assert_eq!(translate_status(&r, 5, &passed), CosmosProposalStatus::PROPOSAL_STATUS_DEPOSIT_PERIOD);
    assert_eq!(translate_status(&r, 12, &passed), CosmosProposalStatus::PROPOSAL_STATUS_VOTING_PERIOD);
    assert_eq!(translate_status(&r, 21, &passed), CosmosProposalStatus::PROPOSAL_STATUS_PASSED);
    assert_eq!(translate_status(&r, 21, &rejected), CosmosProposalStatus::PROPOSAL_STATUS_REJECTED);
    assert_eq!(translate_status(&r, 21, &None), CosmosProposalStatus::PROPOSAL_STATUS_FAILED);
}

#[test]
fn status_codes_and_names() {
    let all = [
        (CosmosProposalStatus::PROPOSAL_STATUS_DEPOSIT_PERIOD, 1, "PROPOSAL_STATUS_DEPOSIT_PERIOD"),
        (CosmosProposalStatus::PROPOSAL_STATUS_VOTING_PERIOD, 2, "PROPOSAL_STATUS_VOTING_PERIOD"),
        (CosmosProposalStatus::PROPOSAL_STATUS_PASSED, 3, "PROPOSAL_STATUS_PASSED"),
        (CosmosProposalStatus::PROPOSAL_STATUS_REJECTED, 4, "PROPOSAL_STATUS_REJECTED"),
        (CosmosProposalStatus::PROPOSAL_STATUS_FAILED, 5, "PROPOSAL_STATUS_FAILED"),
    ];
    for (status, code, name) in all {
        assert_eq!(status.code(), code);
        assert_eq!(status.to_string(), name);
        assert_eq!(u32::from(status), code);
        let n: u32 = status.into();
        assert_eq!(n, code);
    }
}

#[test]
fn filter_predicate() {
    assert!(filter_proposal_by_status(None, CosmosProposalStatus::PROPOSAL_STATUS_PASSED));
    assert!(filter_proposal_by_status(None, CosmosProposalStatus::PROPOSAL_STATUS_FAILED));
    assert!(filter_proposal_by_status(Some(3), CosmosProposalStatus::PROPOSAL_STATUS_PASSED));
    assert!(!filter_proposal_by_status(Some(2), CosmosProposalStatus::PROPOSAL_STATUS_PASSED));
    assert!(!filter_proposal_by_status(Some(0), CosmosProposalStatus::PROPOSAL_STATUS_DEPOSIT_PERIOD));
    assert!(!filter_proposal_by_status(Some(6), CosmosProposalStatus::PROPOSAL_STATUS_FAILED));
}

#[test]
fn absent_record_is_left_out_of_the_listing() {
    let results = run_join(
        3,
        &|id| Ok(if id == 1 { None } else { Some(record(id, 10, 20)) }),
        &|_| Ok(Some(tally(TallyResult::Passed, "2.000000", "1.000000"))),
    )
    .expect("an absent record is no failure");
    assert_eq!(results.len(), 3);
    assert!(results[0].is_some());
    assert!(results[1].is_none());
    assert!(results[2].is_some());
    let response = list_proposals(&results, 30, &params("500.000000"), None);
    assert_eq!(ids_of(&response.proposals), vec!["0".to_string(), "2".to_string()]);
}

#[test]
fn one_failed_lookup_fails_the_listing() {
    let outcome = run_join(
        3,
        &|id| {
            if id == 2 {
                Err(transport_error("connection reset"))
            } else {
                Ok(Some(record(id, 10, 20)))
            }
        },
        &|_| Ok(Some(tally(TallyResult::Passed, "2.000000", "1.000000"))),
    );
    match outcome {
        Err(e) => assert_eq!(e.message, "connection reset"),
        Ok(results) => panic!("results were handed out: {:?}", results),
    }
}

#[test]
fn failed_tally_lookup_fails_the_listing() {
    let outcome = run_join(
        2,
        &|id| Ok(Some(record(id, 10, 20))),
        &|id| {
            if id == 1 {
                Err(transport_error("decode error"))
            } else {
                Ok(None)
            }
        },
    );
    assert_eq!(outcome.err().map(|e| e.message), Some("decode error".to_string()));
}

#[test]
fn filtering_keeps_matching_records_in_order() {
    let bundles = vec![
        Some(RawBundle { record: record(0, 50, 60), tally: None }),
        Some(RawBundle { record: record(1, 10, 40), tally: None }),
        Some(RawBundle { record: record(2, 20, 30), tally: None }),
    ];
    let records = translate_records(&bundles, 25);
    let statuses: Vec<CosmosProposalStatus> = records.iter().map(|p| p.status).collect();
    assert_eq!(
        statuses,
        vec![
            CosmosProposalStatus::PROPOSAL_STATUS_DEPOSIT_PERIOD,
            CosmosProposalStatus::PROPOSAL_STATUS_VOTING_PERIOD,
            CosmosProposalStatus::PROPOSAL_STATUS_VOTING_PERIOD,
        ]
    );
    let kept = filter_proposals(records, Some(2));
    assert_eq!(ids_of(&kept), vec!["1".to_string(), "2".to_string()]);
    assert!(kept.iter().all(|p| p.status == CosmosProposalStatus::PROPOSAL_STATUS_VOTING_PERIOD));
}

#[test]
fn no_filter_keeps_every_record() {
    let bundles = vec![
        Some(RawBundle { record: record(0, 50, 60), tally: None }),
        None,
        Some(RawBundle { record: record(2, 20, 30), tally: None }),
    ];
    let kept = filter_proposals(translate_records(&bundles, 25), None);
    assert_eq!(ids_of(&kept), vec!["0".to_string(), "2".to_string()]);
    let none = filter_proposals(translate_records(&bundles, 25), Some(4));
    assert!(none.is_empty());
}

#[test]
fn tally_query_without_tally_is_an_error() {
    let ended = record(4, 1, 2);
    assert_eq!(ended.get_status(10), ProposalStatus::Ended);
    let e = assemble_tally(&None).expect_err("no tally, no answer");
    assert_eq!(e.error, "proposal result not found");
    assert_eq!(e.code, 500);
    assert_eq!(e.message, None);
    assert!(e.details.is_empty());
    // the same proposal is listed, as failed
    let listed = list_proposals(
        &vec![Some(RawBundle { record: ended, tally: None })],
        10,
        &params("1.000000"),
        None,
    );
    assert_eq!(listed.proposals.len(), 1);
    assert_eq!(listed.proposals[0].status, CosmosProposalStatus::PROPOSAL_STATUS_FAILED);
    assert_eq!(listed.proposals[0].final_tally_result.yes, "0");
    assert_eq!(listed.proposals[0].final_tally_result.no, "0");
}

#[test]
fn tally_query_with_tally() {
    let t = Some(tally(TallyResult::Rejected, "12.500000", "30.000000"));
    let response = assemble_tally(&t).expect("a tally is there");
    assert_eq!(response.tally.yes, "12.500000");
    assert_eq!(response.tally.no, "30.000000");
    assert_eq!(response.tally.abstain, "0");
    assert_eq!(response.tally.no_with_veto, "0");
}

#[test]
fn listing_is_repeatable() {
    let snapshot = || {
        vec![
            Some(RawBundle {
                record: record(0, 1, 2),
                tally: Some(tally(TallyResult::Passed, "9.000000", "1.000000")),
            }),
            None,
            Some(RawBundle { record: record(2, 40, 50), tally: None }),
        ]
    };
    let a = list_proposals(&snapshot(), 30, &params("500.000000"), None);
    let b = list_proposals(&snapshot(), 30, &params("500.000000"), None);
    assert_eq!(format!("{:?}", a), format!("{:?}", b));
}

#[test]
fn join_result_does_not_depend_on_arrival_order() {
    let make = |order: [usize; 3]| {
        let (mut machine, first) = FetchOrchestrator::begin(enumerate_proposal_ids(3));
        assert!(matches!(first, FetchAction::QueryRecords(ref ids) if ids == &vec![0, 1, 2]));
        let mut last = FetchAction::Wait;
        for index in order {
            let found = if index == 1 { None } else { Some(record(index as u64, 1, 2)) };
            let (next, action) = machine.advance(FetchEvent::Record { index, record: Ok(found) });
            machine = next;
            last = action;
            if let FetchAction::QueryTally { index: at, id } = last {
                assert_eq!(at, index);
                assert_eq!(id, index as u64);
                let (next, action) = machine.advance(FetchEvent::Tally {
                    index: at,
                    tally: Ok(Some(tally(TallyResult::Passed, "1.000000", "0.000000"))),
                });
                machine = next;
                last = action;
            }
        }
        assert!(machine.is_finished());
        match last {
            FetchAction::Complete(results) => format!("{:?}", results),
            other => panic!("not complete: {:?}", other),
        }
    };
    let forward = make([0, 1, 2]);
    assert_eq!(forward, make([2, 1, 0]));
    assert_eq!(forward, make([1, 2, 0]));
}

#[test]
fn join_over_no_ids_completes_at_once() {
    let (machine, first) = FetchOrchestrator::begin(enumerate_proposal_ids(0));
    assert!(machine.is_finished());
    assert!(matches!(first, FetchAction::Complete(ref results) if results.is_empty()));
    let response = list_proposals(&vec![], 1, &params("1.000000"), None);
    assert!(response.proposals.is_empty());
    let page = response.pagination.expect("a page block");
    assert_eq!(page.next_key, None);
    assert_eq!(page.total, Some("0".to_string()));
}

#[test]
fn closed_join_ignores_late_completions() {
    let (machine, _) = FetchOrchestrator::begin(enumerate_proposal_ids(2));
    let (machine, action) = machine
        .advance(FetchEvent::Record { index: 0, record: Err(transport_error("timeout")) });
    assert!(matches!(action, FetchAction::Fail(ref e) if e.message == "timeout"));
    assert!(machine.is_finished());
    let (machine, action) =
        machine.advance(FetchEvent::Record { index: 1, record: Ok(Some(record(1, 1, 2))) });
    assert!(matches!(action, FetchAction::Wait));
    assert!(machine.is_finished());
    let (_, action) = machine.advance(FetchEvent::Tally { index: 1, tally: Ok(None) });
    assert!(matches!(action, FetchAction::Wait));
}

#[test]
fn stray_completions_are_ignored() {
    let (machine, _) = FetchOrchestrator::begin(enumerate_proposal_ids(2));
    // a position that the join does not have
    let (machine, action) =
        machine.advance(FetchEvent::Record { index: 2, record: Err(transport_error("x")) });
    assert!(matches!(action, FetchAction::Wait));
    assert!(!machine.is_finished());
    // a tally for a lookup that still waits for its record
    let (machine, action) =
        machine.advance(FetchEvent::Tally { index: 0, tally: Err(transport_error("y")) });
    assert!(matches!(action, FetchAction::Wait));
    assert!(!machine.is_finished());
    // a second record for a lookup that already has one
    let (machine, action) =
        machine.advance(FetchEvent::Record { index: 0, record: Ok(Some(record(0, 1, 2))) });
    assert!(matches!(action, FetchAction::QueryTally { index: 0, id: 0 }));
    let (machine, action) = machine.advance(FetchEvent::Record { index: 0, record: Ok(None) });
    assert!(matches!(action, FetchAction::Wait));
    let (machine, action) = machine.advance(FetchEvent::Tally { index: 0, tally: Ok(None) });
    assert!(matches!(action, FetchAction::Wait));
    let (machine, action) = machine.advance(FetchEvent::Record { index: 1, record: Ok(None) });
    assert!(machine.is_finished());
    match action {
        FetchAction::Complete(results) => {
            assert_eq!(results.len(), 2);
            let first = results[0].as_ref().expect("record 0 was found");
            assert_eq!(first.record.id, 0);
            assert!(first.tally.is_none());
            assert!(results[1].is_none());
        }
        other => panic!("not complete: {:?}", other),
    }
}

#[test]
fn every_listed_record_carries_the_same_deposit() {
    let bundles = vec![
        Some(RawBundle {
            record: record(0, 1, 2),
            tally: Some(tally(TallyResult::Passed, "9.000000", "1.000000")),
        }),
        Some(RawBundle { record: record(1, 40, 50), tally: None }),
        Some(RawBundle { record: record(2, 20, 35), tally: None }),
    ];
    let response = list_proposals(&bundles, 30, &params("500.000000"), None);
    assert_eq!(response.proposals.len(), 3);
    for p in &response.proposals {
        assert_eq!(p.total_deposit.len(), 1);
        assert_eq!(p.total_deposit[0].denom, "nam");
        assert_eq!(p.total_deposit[0].amount, "500.000000");
    }
    let page = response.pagination.expect("a page block");
    assert_eq!(page.next_key, None);
    assert_eq!(page.total, Some("3".to_string()));
}

#[test]
fn listed_record_fields() {
    let bundles = vec![Some(RawBundle {
        record: record(12, 100, 200),
        tally: Some(tally(TallyResult::Passed, "9.000000", "1.000000")),
    })];
    let response = list_proposals(&bundles, 201, &params("500.000000"), Some(3));
    assert_eq!(response.proposals.len(), 1);
    let p = &response.proposals[0];
    assert_eq!(p.proposal_id, "12");
    assert_eq!(p.content.at_type, "Default");
    assert_eq!(p.content.title, "Proposal 12");
    assert_eq!(p.content.description, "Details of 12");
    assert_eq!(p.content.recipient, None);
    assert!(p.content.amount.is_none());
    assert_eq!(p.status, CosmosProposalStatus::PROPOSAL_STATUS_PASSED);
    assert_eq!(p.final_tally_result.yes, "9.000000");
    assert_eq!(p.final_tally_result.no, "1.000000");
    assert_eq!(p.final_tally_result.abstain, "0");
    assert_eq!(p.final_tally_result.no_with_veto, "0");
    assert_eq!(p.submit_time, "1970-01-01T00:00:00Z");
    assert_eq!(p.deposit_end_time, "100");
    assert_eq!(p.voting_start_time, "100");
    assert_eq!(p.voting_end_time, "200");
}

#[test]
fn assemble_list_overwrites_deposit() {
    let records = translate_records(
        &vec![Some(RawBundle { record: record(5, 1, 2), tally: None })],
        0,
    );
    assert!(records[0].total_deposit.is_empty());
    let response = assemble_list(records, &params("7.000000"));
    assert_eq!(response.proposals[0].total_deposit[0].amount, "7.000000");
}

#[test]
fn single_proposal_query() {
    let found = Some(RawBundle {
        record: record(8, 10, 20),
        tally: Some(tally(TallyResult::Rejected, "1.000000", "3.000000")),
    });
    let shown = get_proposal(&found, 25, &params("2.000000"), None).expect("shown");
    assert_eq!(shown.proposal_id, "8");
    assert_eq!(shown.status, CosmosProposalStatus::PROPOSAL_STATUS_REJECTED);
    assert_eq!(shown.total_deposit[0].amount, "2.000000");
    assert!(get_proposal(&found, 25, &params("2.000000"), Some(4)).is_some());
    assert!(get_proposal(&found, 25, &params("2.000000"), Some(3)).is_none());
    // no record: nothing is shown
    assert!(get_proposal(&None, 25, &params("2.000000"), None).is_none());
    assert!(single_proposal(&None, 25, &params("2.000000")).proposal.is_none());
    assert!(single_proposal(&found, 25, &params("2.000000")).proposal.is_some());
}

#[test]
fn single_proposal_without_tally_is_shown() {
    let bare = Some(RawBundle { record: record(8, 10, 20), tally: None });
    // voting has closed: shown as failed
    let ended = get_proposal(&bare, 25, &params("2.000000"), None).expect("shown");
    assert_eq!(ended.proposal_id, "8");
    assert_eq!(ended.status, CosmosProposalStatus::PROPOSAL_STATUS_FAILED);
    assert_eq!(ended.final_tally_result.yes, "0");
    assert_eq!(ended.final_tally_result.no, "0");
    assert_eq!(ended.total_deposit[0].amount, "2.000000");
    // voting has not begun: shown in its deposit period
    let pending = get_proposal(&bare, 5, &params("2.000000"), None).expect("shown");
    assert_eq!(pending.status, CosmosProposalStatus::PROPOSAL_STATUS_DEPOSIT_PERIOD);
    // voting is open: shown in its voting period
    let ongoing = get_proposal(&bare, 15, &params("2.000000"), None).expect("shown");
    assert_eq!(ongoing.status, CosmosProposalStatus::PROPOSAL_STATUS_VOTING_PERIOD);
    // the filter applies as to any other record
    assert!(get_proposal(&bare, 25, &params("2.000000"), Some(5)).is_some());
    assert!(get_proposal(&bare, 25, &params("2.000000"), Some(3)).is_none());
    let response = single_proposal(&bare, 25, &params("2.000000"));
    let shown = response.proposal.expect("shown");
    assert_eq!(shown.status, CosmosProposalStatus::PROPOSAL_STATUS_FAILED);
}

#[test]
fn single_proposal_shows_what_a_listing_of_one_shows() {
    for tally_there in [false, true] {
        for epoch in [5u64, 15, 25] {
            for requested in [None, Some(1), Some(2), Some(3), Some(5)] {
                let bundle = || {
                    Some(RawBundle {
                        record: record(8, 10, 20),
                        tally: if tally_there {
                            Some(tally(TallyResult::Passed, "3.000000", "1.000000"))
                        } else {
                            None
                        },
                    })
                };
                let single = get_proposal(&bundle(), epoch, &params("2.000000"), requested);
                let listed =
                    list_proposals(&vec![bundle()], epoch, &params("2.000000"), requested);
                assert_eq!(format!("{:?}", single.into_iter().collect::<Vec<_>>()),
                    format!("{:?}", listed.proposals));
            }
        }
    }
}

#[test]
fn shown_status_decides_before_the_parameters_are_known() {
    let found = Some(RawBundle {
        record: record(8, 10, 20),
        tally: Some(tally(TallyResult::Rejected, "1.000000", "3.000000")),
    });
    assert_eq!(
        shown_status(&found, 25, None),
        Some(CosmosProposalStatus::PROPOSAL_STATUS_REJECTED)
    );
    assert_eq!(
        shown_status(&found, 25, Some(4)),
        Some(CosmosProposalStatus::PROPOSAL_STATUS_REJECTED)
    );
    assert_eq!(shown_status(&found, 25, Some(3)), None);
    assert_eq!(shown_status(&None, 25, None), None);
    let bare = Some(RawBundle { record: record(8, 10, 20), tally: None });
    assert_eq!(shown_status(&bare, 25, None), Some(CosmosProposalStatus::PROPOSAL_STATUS_FAILED));
    assert_eq!(
        shown_status(&bare, 0, None),
        Some(CosmosProposalStatus::PROPOSAL_STATUS_DEPOSIT_PERIOD)
    );
}

#[test]
fn content_of_a_map_has_distinct_keys() {
    assert!(record(1, 2, 3).has_distinct_keys());
    let entry = |key: &str, value: &str| ContentEntry {
        key: key.to_string(),
        value: value.to_string(),
    };
    let built = StorageProposal::new(
        4,
        "Default".to_string(),
        vec![entry("title", "a"), entry("details", "b")],
        1,
        2,
    )
    .expect("two keys, each once");
    assert_eq!(built.id, 4);
    assert_eq!(built.proposal_type, "Default");
    assert_eq!(built.voting_start_epoch, 1);
    assert_eq!(built.voting_end_epoch, 2);
    assert_eq!(built.content_value(&"title".to_string()), "a");
    assert_eq!(built.content_value(&"details".to_string()), "b");
    assert!(StorageProposal::new(4, "Default".to_string(), vec![], 1, 2).is_some());
    let twice = vec![entry("title", "a"), entry("details", "b"), entry("title", "c")];
    assert!(StorageProposal::new(4, "Default".to_string(), twice, 1, 2).is_none());
    let loose = StorageProposal {
        id: 4,
        proposal_type: "Default".to_string(),
        content: vec![entry("title", "a"), entry("title", "c")],
        voting_start_epoch: 1,
        voting_end_epoch: 2,
    };
    assert!(!loose.has_distinct_keys());
    // the first entry with the key counts
    assert_eq!(loose.content_value(&"title".to_string()), "a");
}

#[test]
fn listing_asks_for_every_id_below_the_counter() {
    let (machine, first) = FetchOrchestrator::begin_listing(4);
    assert!(!machine.is_finished());
    match first {
        FetchAction::QueryRecords(ids) => assert_eq!(ids, vec![0, 1, 2, 3]),
        other => panic!("no record queries: {:?}", other),
    }
    let (machine, first) = FetchOrchestrator::begin_listing(1);
    assert!(!machine.is_finished());
    assert!(matches!(first, FetchAction::QueryRecords(ref ids) if ids == &vec![0]));
    let (machine, first) = FetchOrchestrator::begin_listing(0);
    assert!(machine.is_finished());
    assert!(matches!(first, FetchAction::Complete(ref results) if results.is_empty()));
}

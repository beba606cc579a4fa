use namada_ping_middleware::blocks::{
    encode_block, optional_hash_to_base64string, RawBlock, RawBlockId, RawCommit, RawCommitSig,
    RawHeader, RawPartSetHeader,
};
use namada_ping_middleware::encoding::{
    app_hash_as_block_hash, base64_would_fit, hash_to_base64string,
};
use namada_ping_middleware::model::shared::Timestamp;
use namada_ping_middleware::model::tendermint::{BlockResponse, HeaderVersion, LastCommit};

fn block_id(seed: u8) -> RawBlockId {
    RawBlockId {
        hash: vec![seed; 32],
        part_set_header: RawPartSetHeader { total: 1, hash: vec![seed.wrapping_add(1); 32] },
    }
}

fn header() -> RawHeader {
    RawHeader {
        version: HeaderVersion { block: 11, app: 0 },
        chain_id: "shielded-expedition.88f17d1d14".to_string(),
        height: 4321,
        time: Timestamp { seconds: 1_700_000_000, nanos: 5 },
        last_block_id: Some(block_id(7)),
        last_commit_hash: Some(vec![1, 2, 3]),
        data_hash: None,
        validators_hash: vec![0xff; 3],
        next_validators_hash: vec![0; 3],
        consensus_hash: b"any carnal pleas".to_vec(),
        app_hash: b"hello".to_vec(),
        last_results_hash: Some(vec![]),
        evidence_hash: None,
        proposer_address: vec![0xde, 0xad, 0xbe, 0xef],
    }
}

#[test]
fn base64_of_known_bytes() {
    assert_eq!(hash_to_base64string(&vec![]), "");
    assert_eq!(hash_to_base64string(&b"f".to_vec()), "Zg==");
    assert_eq!(hash_to_base64string(&b"fo".to_vec()), "Zm8=");
    assert_eq!(hash_to_base64string(&b"foo".to_vec()), "Zm9v");
    assert_eq!(hash_to_base64string(&b"hello".to_vec()), "aGVsbG8=");
    assert_eq!(hash_to_base64string(&vec![0xfb, 0xff]), "+/8=");
}

#[test]
fn base64_length_check() {
    assert!(base64_would_fit(0));
    assert!(base64_would_fit(1));
    assert!(base64_would_fit(1 << 20));
    assert!(!base64_would_fit(usize::MAX));
    assert!(!base64_would_fit(usize::MAX / 4 * 3 + 3));
    assert!(base64_would_fit(usize::MAX / 4 * 3));
}

#[test]
fn missing_hash_is_written_as_empty_text() {
    assert_eq!(optional_hash_to_base64string(&None), Some("".to_string()));
    assert_eq!(optional_hash_to_base64string(&Some(vec![])), Some("".to_string()));
    assert_eq!(optional_hash_to_base64string(&Some(b"foo".to_vec())), Some("Zm9v".to_string()));
}

#[test]
fn application_hash_as_block_hash() {
    assert_eq!(app_hash_as_block_hash(&vec![]), Some(vec![]));
    assert_eq!(app_hash_as_block_hash(&vec![9; 32]), Some(vec![9; 32]));
    let mut padded = b"hello".to_vec();
    padded.resize(32, 0);
    assert_eq!(app_hash_as_block_hash(&b"hello".to_vec()), Some(padded));
    assert_eq!(app_hash_as_block_hash(&vec![9; 33]), None);
    assert_eq!(app_hash_as_block_hash(&vec![0; 64]), None);
}

#[test]
fn block_with_unreadable_application_hash() {
    let long = RawBlock {
        block_id: block_id(0),
        header: RawHeader { app_hash: vec![1; 40], ..header() },
        txs: vec![],
        last_commit: None,
    };
    assert!(!long.is_encodable());
    assert!(!long.header.is_encodable());
    assert!(encode_block(long).is_none());
    let full = RawBlock {
        block_id: block_id(0),
        header: RawHeader { app_hash: vec![9; 32], ..header() },
        txs: vec![],
        last_commit: None,
    };
    let response = encode_block(full).expect("a block hash of 32 bytes");
    assert_eq!(response.block.header.app_hash, "CQkJCQkJCQkJCQkJCQkJCQkJCQkJCQkJCQkJCQkJCQk=");
    let none = RawBlock {
        block_id: block_id(0),
        header: RawHeader { app_hash: vec![], ..header() },
        txs: vec![],
        last_commit: None,
    };
    let response = encode_block(none).expect("no application hash");
    assert_eq!(response.block.header.app_hash, "");
}

#[test]
fn application_hash_text_is_read_back() {
    // every byte value survives being written as text and read back
    let mut all = Vec::new();
    for b in 0..32u8 {
        all.push(b.wrapping_mul(8).wrapping_add(b / 4));
    }
    assert_eq!(app_hash_as_block_hash(&all), Some(all.clone()));
    let high: Vec<u8> = (224..=255u8).collect();
    assert_eq!(app_hash_as_block_hash(&high), Some(high.clone()));
    let digits = vec![0x0a, 0xb1, 0x9f, 0xf0, 0x00, 0xff, 0x10, 0x01];
    let mut padded = digits.clone();
    padded.resize(32, 0);
    assert_eq!(app_hash_as_block_hash(&digits), Some(padded));
}

#[test]
fn block_id_encoding() {
    let raw = block_id(0);
    assert!(raw.is_encodable());
    let id = raw.encode();
    assert_eq!(id.hash, "AAAAAAAAAAAAAAAAAAAAAAAAAAAAAAAAAAAAAAAAAAA=");
    assert_eq!(id.part_set_header.total, 1);
    assert_eq!(id.part_set_header.hash, "AQEBAQEBAQEBAQEBAQEBAQEBAQEBAQEBAQEBAQEBAQE=");
}

#[test]
fn commit_conversion() {
    let raw = RawCommit {
        height: 99,
        round: 2,
        block_id: block_id(0),
        signatures: vec![
            RawCommitSig {
                block_id_flag: 2,
                validator_address: b"foo".to_vec(),
                timestamp: Some(Timestamp { seconds: 10, nanos: 20 }),
                signature: b"hello".to_vec(),
            },
            RawCommitSig {
                block_id_flag: 1,
                validator_address: vec![],
                timestamp: None,
                signature: vec![],
            },
        ],
    };
    assert!(raw.is_encodable());
    let commit = LastCommit::from(raw);
    assert_eq!(commit.height, 99);
    assert_eq!(commit.round, 2);
    assert_eq!(commit.block_id.hash, "AAAAAAAAAAAAAAAAAAAAAAAAAAAAAAAAAAAAAAAAAAA=");
    assert_eq!(commit.signatures.len(), 2);
    assert_eq!(commit.signatures[0].block_id_flag, "2");
    assert_eq!(commit.signatures[0].validator_address, "Zm9v");
    assert_eq!(commit.signatures[0].timestamp, Timestamp { seconds: 10, nanos: 20 });
    assert_eq!(commit.signatures[0].signature, "aGVsbG8=");
    assert_eq!(commit.signatures[1].block_id_flag, "1");
    assert_eq!(commit.signatures[1].validator_address, "");
    assert_eq!(commit.signatures[1].timestamp, Timestamp { seconds: -62135596800, nanos: 0 });
    assert_eq!(commit.signatures[1].signature, "");
}

#[test]
fn block_conversion() {
    let raw = RawBlock {
        block_id: block_id(0),
        header: header(),
        txs: vec![b"foo".to_vec(), vec![], b"fo".to_vec()],
        last_commit: None,
    };
    assert!(raw.is_encodable());
    let response = BlockResponse::from(raw);
    assert_eq!(response.block_id.hash, "AAAAAAAAAAAAAAAAAAAAAAAAAAAAAAAAAAAAAAAAAAA=");
    let h = &response.block.header;
    assert_eq!(h.version, HeaderVersion { block: 11, app: 0 });
    assert_eq!(h.chain_id, "shielded-expedition.88f17d1d14");
    assert_eq!(h.height, 4321);
    assert_eq!(h.time, Timestamp { seconds: 1_700_000_000, nanos: 5 });
    let last = h.last_block_id.as_ref().expect("a last block id");
    assert_eq!(last.hash, "BwcHBwcHBwcHBwcHBwcHBwcHBwcHBwcHBwcHBwcHBwc=");
    assert_eq!(last.part_set_header.hash, "CAgICAgICAgICAgICAgICAgICAgICAgICAgICAgICAg=");
    assert_eq!(h.last_commit_hash, Some("AQID".to_string()));
    assert_eq!(h.data_hash, Some("".to_string()));
    assert_eq!(h.validators_hash, "////");
    assert_eq!(h.next_validators_hash, "AAAA");
    assert_eq!(h.consensus_hash, "YW55IGNhcm5hbCBwbGVhcw==");
    // five bytes are read as a block hash of 32, the rest of them zero
    assert_eq!(h.app_hash, "aGVsbG8AAAAAAAAAAAAAAAAAAAAAAAAAAAAAAAAAAAA=");
    assert_eq!(h.last_results_hash, Some("".to_string()));
    assert_eq!(h.evidence_hash, Some("".to_string()));
    assert_eq!(h.proposer_address, "3q2+7w==");
    assert_eq!(
        response.block.data.txs,
        vec!["Zm9v".to_string(), "".to_string(), "Zm8=".to_string()]
    );
    assert!(response.block.evidence.evidence.is_empty());
    assert!(response.block.last_commit.is_none());
}

#[test]
fn block_conversion_with_commit() {
    let raw = RawBlock {
        block_id: block_id(3),
        header: RawHeader { last_block_id: None, ..header() },
        txs: vec![],
        last_commit: Some(RawCommit {
            height: 4320,
            round: 0,
            block_id: block_id(7),
            signatures: vec![RawCommitSig {
                block_id_flag: 3,
                validator_address: vec![1],
                timestamp: Some(Timestamp { seconds: 1, nanos: 2 }),
                signature: vec![2],
            }],
        }),
    };
    assert!(raw.is_encodable());
    let response = BlockResponse::from(raw);
    assert!(response.block.header.last_block_id.is_none());
    assert!(response.block.data.txs.is_empty());
    let commit = response.block.last_commit.expect("a commit");
    assert_eq!(commit.height, 4320);
    assert_eq!(commit.round, 0);
    assert_eq!(commit.block_id.hash, "BwcHBwcHBwcHBwcHBwcHBwcHBwcHBwcHBwcHBwcHBwc=");
    assert_eq!(commit.signatures.len(), 1);
    assert_eq!(commit.signatures[0].block_id_flag, "3");
    assert_eq!(commit.signatures[0].validator_address, "AQ==");
    assert_eq!(commit.signatures[0].signature, "Ag==");
}

//! From a block as the chain hands it out to the block of the REST schema.
//!
//! The chain's block is held here as plain values: byte strings for hashes,
//! addresses, signatures and transactions (an empty byte string for a hash
//! that is not there), and numbers for the rest. The schema wants the byte
//! strings as base64 text.

use vstd::prelude::*;
use crate::encoding::{
    app_hash_as_block_hash, base64_fits, base64_standard, base64_would_fit,
    block_hash_of_app_hash, hash_to_base64string,
};
use crate::model::shared::Timestamp;
use crate::model::tendermint::{
    Block, BlockData, BlockEvidence, BlockHeader, BlockHeaderView, BlockId, BlockIdView,
    BlockResponse, BlockResponseView, BlockView, HeaderVersion, LastCommit, LastCommitView,
    PartSetHeader, PartSetHeaderView, Signature, SignatureView,
};
use crate::text::{i32_to_decimal, signed_decimal};

verus! {

/// The header of a block's part set, with its hash as bytes.
#[derive(Debug)]
pub struct RawPartSetHeader {
    pub total: u32,
    pub hash: Vec<u8>,
}

/// What identifies a block, with its hashes as bytes.
#[derive(Debug)]
pub struct RawBlockId {
    pub hash: Vec<u8>,
    pub part_set_header: RawPartSetHeader,
}

/// One validator's entry under a commit, as the chain's wire format has it.
#[derive(Debug)]
pub struct RawCommitSig {
    pub block_id_flag: i32,
    pub validator_address: Vec<u8>,
    pub timestamp: Option<Timestamp>,
    pub signature: Vec<u8>,
}

/// A commit as the chain hands it out.
#[derive(Debug)]
pub struct RawCommit {
    pub height: u64,
    pub round: u32,
    pub block_id: RawBlockId,
    pub signatures: Vec<RawCommitSig>,
}

/// A block header as the chain hands it out. The application hash may be any
/// bytes; the schema shows it as the block hash that the chain reads from it.
#[derive(Debug)]
pub struct RawHeader {
    pub version: HeaderVersion,
    pub chain_id: String,
    pub height: u64,
    pub time: Timestamp,
    pub last_block_id: Option<RawBlockId>,
    pub last_commit_hash: Option<Vec<u8>>,
    pub data_hash: Option<Vec<u8>>,
    pub validators_hash: Vec<u8>,
    pub next_validators_hash: Vec<u8>,
    pub consensus_hash: Vec<u8>,
    pub app_hash: Vec<u8>,
    pub last_results_hash: Option<Vec<u8>>,
    pub evidence_hash: Option<Vec<u8>>,
    pub proposer_address: Vec<u8>,
}

/// A block as the chain hands it out.
#[derive(Debug)]
pub struct RawBlock {
    pub block_id: RawBlockId,
    pub header: RawHeader,
    pub txs: Vec<Vec<u8>>,
    pub last_commit: Option<RawCommit>,
}

/// The bytes of a hash that may be missing: none for a missing one.
pub open spec fn hash_bytes(hash: Option<Vec<u8>>) -> Seq<u8> {
    match hash {
        Some(bytes) => bytes@,
        None => Seq::empty(),
    }
}

impl RawBlockId {
    /// Both hashes are short enough to be written as base64 text.
    pub open spec fn encodable(self) -> bool {
        base64_fits(self.hash@.len()) && base64_fits(self.part_set_header.hash@.len())
    }

    /// The block id of the schema: the same, with the hashes as base64 text.
    pub open spec fn encoded(self) -> BlockIdView {
        BlockIdView {
            hash: base64_standard(self.hash@),
            part_set_header: PartSetHeaderView {
                total: self.part_set_header.total,
                hash: base64_standard(self.part_set_header.hash@),
            },
        }
    }

    /// Whether both hashes are short enough to be written as base64 text.
    pub fn is_encodable(&self) -> (fits: bool)
        ensures
            fits == self.encodable(),
    {
        base64_would_fit(self.hash.len()) && base64_would_fit(self.part_set_header.hash.len())
    }

    /// Writes the block id as the schema wants it.
    pub fn encode(&self) -> (id: BlockId)
        requires
            self.encodable(),
        ensures
            id.deep_view() == self.encoded(),
    {
        BlockId {
            hash: hash_to_base64string(&self.hash),
            part_set_header: PartSetHeader {
                total: self.part_set_header.total,
                hash: hash_to_base64string(&self.part_set_header.hash),
            },
        }
    }
}

impl RawCommitSig {
    /// The address and the signature are short enough to be written as base64
    /// text.
    pub open spec fn encodable(self) -> bool {
        base64_fits(self.validator_address@.len()) && base64_fits(self.signature@.len())
    }

    /// The signature of the schema: the flag's number in decimal, the address
    /// and the signature as base64 text, and the timestamp of a vote never
    /// cast where there is none.
    pub open spec fn encoded(self) -> SignatureView {
        SignatureView {
            block_id_flag: signed_decimal(self.block_id_flag as int),
            validator_address: base64_standard(self.validator_address@),
            timestamp: match self.timestamp {
                Some(timestamp) => timestamp,
                None => Timestamp::zero_spec(),
            },
            signature: base64_standard(self.signature@),
        }
    }

    /// Whether the address and the signature are short enough to be written
    /// as base64 text.
    pub fn is_encodable(&self) -> (fits: bool)
        ensures
            fits == self.encodable(),
    {
        base64_would_fit(self.validator_address.len()) && base64_would_fit(self.signature.len())
    }

    /// Writes the entry as the schema wants it.
    pub fn encode(&self) -> (signature: Signature)
        requires
            self.encodable(),
        ensures
            signature.deep_view() == self.encoded(),
    {
        let timestamp = match self.timestamp {
            Some(timestamp) => timestamp,
            None => Timestamp::zero(),
        };
        Signature {
            block_id_flag: i32_to_decimal(self.block_id_flag),
            validator_address: hash_to_base64string(&self.validator_address),
            timestamp,
            signature: hash_to_base64string(&self.signature),
        }
    }
}

impl RawCommit {
    /// Every byte string of the commit is short enough to be written as
    /// base64 text.
    pub open spec fn encodable(self) -> bool {
        &&& self.block_id.encodable()
        &&& forall|i: int|
            0 <= i < self.signatures@.len() ==> (#[trigger] self.signatures@[i]).encodable()
    }

    /// The commit of the schema: the same height, round and block, and one
    /// signature for each entry, in their order.
    pub open spec fn encoded(self) -> LastCommitView {
        LastCommitView {
            height: self.height,
            round: self.round,
            block_id: self.block_id.encoded(),
            signatures: self.signatures@.map_values(|sig: RawCommitSig| sig.encoded()),
        }
    }

    /// Whether every byte string of the commit is short enough to be written
    /// as base64 text.
    pub fn is_encodable(&self) -> (fits: bool)
        ensures
            fits == self.encodable(),
    {
        if !self.block_id.is_encodable() {
            return false;
        }
        let mut i: usize = 0;
        while i < self.signatures.len()
            invariant
                i <= self.signatures.len(),
                self.block_id.encodable(),
                forall|j: int| 0 <= j < i ==> (#[trigger] self.signatures@[j]).encodable(),
            decreases self.signatures.len() - i,
        {
            if !self.signatures[i].is_encodable() {
                return false;
            }
            i = i + 1;
        }
        true
    }
}

impl LastCommit {
    /// Writes a commit as the schema wants it.
    pub fn from(value: RawCommit) -> (commit: LastCommit)
        requires
            value.encodable(),
        ensures
            commit.deep_view() == value.encoded(),
    {
        let block_id = value.block_id.encode();
        let mut signatures: Vec<Signature> = Vec::new();
        let mut i: usize = 0;
        while i < value.signatures.len()
            invariant
                i <= value.signatures.len(),
                value.encodable(),
                signatures.len() == i,
                forall|j: int|
                    0 <= j < i ==> (#[trigger] signatures[j]).deep_view()
                        == value.signatures@[j].encoded(),
            decreases value.signatures.len() - i,
        {
            let sig = &value.signatures[i];
            assert(value.signatures@[i as int].encodable());
            signatures.push(sig.encode());
            i = i + 1;
        }
        assert(signatures.deep_view() =~= value.signatures@.map_values(
            |sig: RawCommitSig| sig.encoded(),
        ));
        LastCommit { height: value.height, round: value.round, block_id, signatures }
    }
}

/// The base64 text of a hash that may be missing. A missing hash is written
/// as the text of no bytes, not left out.
pub open spec fn optional_hash_text(hash: Option<Vec<u8>>) -> Option<Seq<char>> {
    Some(base64_standard(hash_bytes(hash)))
}

/// Writes a hash that may be missing as base64 text.
pub fn optional_hash_to_base64string(hash: &Option<Vec<u8>>) -> (text: Option<String>)
    requires
        base64_fits(hash_bytes(*hash).len()),
    ensures
        text.deep_view() == optional_hash_text(*hash),
        hash_bytes(*hash).len() == 0 ==> text.deep_view() == Some(Seq::<char>::empty()),
{
    match hash {
        Some(bytes) => Some(hash_to_base64string(bytes)),
        None => {
            let nothing: Vec<u8> = Vec::new();
            Some(hash_to_base64string(&nothing))
        },
    }
}

impl RawHeader {
    /// Every byte string of the header is short enough to be written as
    /// base64 text, and the application hash can be read as a block hash.
    pub open spec fn encodable(self) -> bool {
        &&& (self.last_block_id matches Some(id) ==> id.encodable())
        &&& base64_fits(hash_bytes(self.last_commit_hash).len())
        &&& base64_fits(hash_bytes(self.data_hash).len())
        &&& base64_fits(self.validators_hash@.len())
        &&& base64_fits(self.next_validators_hash@.len())
        &&& base64_fits(self.consensus_hash@.len())
        &&& block_hash_of_app_hash(self.app_hash@) is Some
        &&& base64_fits(hash_bytes(self.last_results_hash).len())
        &&& base64_fits(hash_bytes(self.evidence_hash).len())
        &&& base64_fits(self.proposer_address@.len())
    }

    /// The header of the schema: the same values, with every hash and the
    /// proposer's address as base64 text, the application hash read as a
    /// block hash.
    pub open spec fn encoded(self) -> BlockHeaderView {
        BlockHeaderView {
            version: self.version,
            chain_id: self.chain_id@,
            height: self.height,
            time: self.time,
            last_block_id: match self.last_block_id {
                Some(id) => Some(id.encoded()),
                None => None,
            },
            last_commit_hash: optional_hash_text(self.last_commit_hash),
            data_hash: optional_hash_text(self.data_hash),
            validators_hash: base64_standard(self.validators_hash@),
            next_validators_hash: base64_standard(self.next_validators_hash@),
            consensus_hash: base64_standard(self.consensus_hash@),
            app_hash: base64_standard(block_hash_of_app_hash(self.app_hash@)->Some_0),
            last_results_hash: optional_hash_text(self.last_results_hash),
            evidence_hash: optional_hash_text(self.evidence_hash),
            proposer_address: base64_standard(self.proposer_address@),
        }
    }

    /// Whether every byte string of the header is short enough to be written
    /// as base64 text, and the application hash can be read as a block hash.
    pub fn is_encodable(&self) -> (fits: bool)
        ensures
            fits == self.encodable(),
    {
        let last_block_id_fits = match &self.last_block_id {
            Some(id) => id.is_encodable(),
            None => true,
        };
        let app_hash_fits = app_hash_as_block_hash(&self.app_hash).is_some();
        last_block_id_fits && app_hash_fits && optional_hash_fits(&self.last_commit_hash) && optional_hash_fits(
            &self.data_hash,
        ) && base64_would_fit(self.validators_hash.len()) && base64_would_fit(
            self.next_validators_hash.len(),
        ) && base64_would_fit(self.consensus_hash.len())
            && optional_hash_fits(&self.last_results_hash) && optional_hash_fits(
            &self.evidence_hash,
        ) && base64_would_fit(self.proposer_address.len())
    }

    /// Writes the header as the schema wants it.
    pub fn encode(self) -> (header: BlockHeader)
        requires
            self.encodable(),
        ensures
            header.deep_view() == self.encoded(),
    {
        let last_block_id = match &self.last_block_id {
            Some(id) => Some(id.encode()),
            None => None,
        };
        let app_hash = match app_hash_as_block_hash(&self.app_hash) {
            Some(hash) => hash,
            None => Vec::new(),
        };
        BlockHeader {
            version: self.version,
            last_block_id,
            last_commit_hash: optional_hash_to_base64string(&self.last_commit_hash),
            data_hash: optional_hash_to_base64string(&self.data_hash),
            validators_hash: hash_to_base64string(&self.validators_hash),
            next_validators_hash: hash_to_base64string(&self.next_validators_hash),
            consensus_hash: hash_to_base64string(&self.consensus_hash),
            app_hash: hash_to_base64string(&app_hash),
            last_results_hash: optional_hash_to_base64string(&self.last_results_hash),
            evidence_hash: optional_hash_to_base64string(&self.evidence_hash),
            proposer_address: hash_to_base64string(&self.proposer_address),
            chain_id: self.chain_id,
            height: self.height,
            time: self.time,
        }
    }
}

/// Whether a hash that may be missing is short enough to be written as base64
/// text.
fn optional_hash_fits(hash: &Option<Vec<u8>>) -> (fits: bool)
    ensures
        fits == base64_fits(hash_bytes(*hash).len()),
{
    match hash {
        Some(bytes) => base64_would_fit(bytes.len()),
        None => true,
    }
}

impl RawBlock {
    /// Every byte string of the block is short enough to be written as base64
    /// text, and the application hash can be read as a block hash.
    pub open spec fn encodable(self) -> bool {
        &&& self.block_id.encodable()
        &&& self.header.encodable()
        &&& forall|i: int| 0 <= i < self.txs@.len() ==> base64_fits((#[trigger] self.txs@[i])@.len())
        &&& (self.last_commit matches Some(commit) ==> commit.encodable())
    }

    /// The answer of the schema: the block with every byte string as base64
    /// text, its transactions in their order, and no evidence.
    pub open spec fn encoded(self) -> BlockResponseView {
        BlockResponseView {
            block_id: self.block_id.encoded(),
            block: BlockView {
                header: self.header.encoded(),
                txs: self.txs@.map_values(|tx: Vec<u8>| base64_standard(tx@)),
                evidence: Seq::empty(),
                last_commit: match self.last_commit {
                    Some(commit) => Some(commit.encoded()),
                    None => None,
                },
            },
        }
    }

    /// Whether the block can be written as the schema wants it; see
    /// [`RawBlock::encodable`].
    pub fn is_encodable(&self) -> (fits: bool)
        ensures
            fits == self.encodable(),
    {
        if !self.block_id.is_encodable() || !self.header.is_encodable() {
            return false;
        }
        let commit_fits = match &self.last_commit {
            Some(commit) => commit.is_encodable(),
            None => true,
        };
        if !commit_fits {
            return false;
        }
        let mut i: usize = 0;
        while i < self.txs.len()
            invariant
                i <= self.txs.len(),
                forall|j: int| 0 <= j < i ==> base64_fits((#[trigger] self.txs@[j])@.len()),
            decreases self.txs.len() - i,
        {
            if !base64_would_fit(self.txs[i].len()) {
                return false;
            }
            i = i + 1;
        }
        true
    }
}

impl BlockResponse {
    /// Writes a block as the schema wants it.
    pub fn from(value: RawBlock) -> (response: BlockResponse)
        requires
            value.encodable(),
        ensures
            response.deep_view() == value.encoded(),
    {
        let ghost raw = value;
        let RawBlock { block_id, header, txs, last_commit } = value;
        let block_id = block_id.encode();
        let mut data = BlockData { txs: Vec::new() };
        let mut i: usize = 0;
        while i < txs.len()
            invariant
                i <= txs.len(),
                txs == raw.txs,
                raw.encodable(),
                data.txs.len() == i,
                forall|j: int| 0 <= j < i ==> (#[trigger] data.txs[j])@ == base64_standard(txs@[j]@),
            decreases txs.len() - i,
        {
            assert(base64_fits(raw.txs@[i as int]@.len()));
            data.txs.push(hash_to_base64string(&txs[i]));
            i = i + 1;
        }
        assert(data.txs.deep_view() =~= raw.txs@.map_values(|tx: Vec<u8>| base64_standard(tx@)));
        let evidence = BlockEvidence { evidence: Vec::new() };
        assert(evidence.evidence.deep_view() =~= Seq::<Seq<char>>::empty());
        let last_commit = match last_commit {
            Some(last_commit) => Some(LastCommit::from(last_commit)),
            None => None,
        };
        let block = Block { header: header.encode(), data, evidence, last_commit };
        BlockResponse { block_id, block }
    }
}

/// Writes a block as the schema wants it, if it can be written so: if every
/// byte string of it is short enough for base64 text, and its application
/// hash can be read as a block hash.
pub fn encode_block(value: RawBlock) -> (response: Option<BlockResponse>)
    ensures
        response is Some <==> value.encodable(),
        response matches Some(r) ==> r.deep_view() == value.encoded(),
{
    if value.is_encodable() {
        Some(BlockResponse::from(value))
    } else {
        None
    }
}

} // verus!

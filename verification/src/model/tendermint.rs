//! Shapes of the base area: blocks, node info and validator sets.

use vstd::prelude::*;
use vstd::string::StringExecFns;
use crate::model::shared::{PaginationInfo, PaginationInfoView, Timestamp};
use crate::model::staking::{ConsensusKeyInfo, ConsensusKeyInfoView};

verus! {

/// The header of a block's part set. `hash` is base64 text.
#[derive(Debug)]
pub struct PartSetHeader {
    pub total: u32,
    pub hash: String,
}

/// What a [`PartSetHeader`] holds, as mathematical values.
pub struct PartSetHeaderView {
    pub total: u32,
    pub hash: Seq<char>,
}

impl DeepView for PartSetHeader {
    type V = PartSetHeaderView;

    open spec fn deep_view(&self) -> PartSetHeaderView {
        PartSetHeaderView { total: self.total, hash: self.hash@ }
    }
}

/// What identifies a block. `hash` is base64 text.
#[derive(Debug)]
pub struct BlockId {
    pub hash: String,
    pub part_set_header: PartSetHeader,
}

/// What a [`BlockId`] holds, as mathematical values.
pub struct BlockIdView {
    pub hash: Seq<char>,
    pub part_set_header: PartSetHeaderView,
}

impl DeepView for BlockId {
    type V = BlockIdView;

    open spec fn deep_view(&self) -> BlockIdView {
        BlockIdView { hash: self.hash@, part_set_header: self.part_set_header.deep_view() }
    }
}

/// The protocol versions that a block was made under.
#[derive(Clone, Copy, Debug, PartialEq, Eq, Structural)]
pub struct HeaderVersion {
    pub block: u64,
    pub app: u64,
}

/// The header of a block. Hashes and the proposer's address are base64 text.
#[derive(Debug)]
pub struct BlockHeader {
    pub version: HeaderVersion,
    pub chain_id: String,
    pub height: u64,
    pub time: Timestamp,
    pub last_block_id: Option<BlockId>,
    pub last_commit_hash: Option<String>,
    pub data_hash: Option<String>,
    pub validators_hash: String,
    pub next_validators_hash: String,
    pub consensus_hash: String,
    pub app_hash: String,
    pub last_results_hash: Option<String>,
    pub evidence_hash: Option<String>,
    pub proposer_address: String,
}

/// What a [`BlockHeader`] holds, as mathematical values.
pub struct BlockHeaderView {
    pub version: HeaderVersion,
    pub chain_id: Seq<char>,
    pub height: u64,
    pub time: Timestamp,
    pub last_block_id: Option<BlockIdView>,
    pub last_commit_hash: Option<Seq<char>>,
    pub data_hash: Option<Seq<char>>,
    pub validators_hash: Seq<char>,
    pub next_validators_hash: Seq<char>,
    pub consensus_hash: Seq<char>,
    pub app_hash: Seq<char>,
    pub last_results_hash: Option<Seq<char>>,
    pub evidence_hash: Option<Seq<char>>,
    pub proposer_address: Seq<char>,
}

impl DeepView for BlockHeader {
    type V = BlockHeaderView;

    open spec fn deep_view(&self) -> BlockHeaderView {
        BlockHeaderView {
            version: self.version,
            chain_id: self.chain_id@,
            height: self.height,
            time: self.time,
            last_block_id: self.last_block_id.deep_view(),
            last_commit_hash: self.last_commit_hash.deep_view(),
            data_hash: self.data_hash.deep_view(),
            validators_hash: self.validators_hash@,
            next_validators_hash: self.next_validators_hash@,
            consensus_hash: self.consensus_hash@,
            app_hash: self.app_hash@,
            last_results_hash: self.last_results_hash.deep_view(),
            evidence_hash: self.evidence_hash.deep_view(),
            proposer_address: self.proposer_address@,
        }
    }
}

/// The transactions of a block, each as base64 text.
#[derive(Debug)]
pub struct BlockData {
    pub txs: Vec<String>,
}

/// The evidence of misbehaviour that a block carries.
#[derive(Debug)]
pub struct BlockEvidence {
    pub evidence: Vec<String>,
}

/// One validator's signature under a commit. The address and the signature
/// are base64 text; `block_id_flag` is the flag's number in decimal.
#[derive(Debug)]
pub struct Signature {
    pub block_id_flag: String,
    pub validator_address: String,
    pub timestamp: Timestamp,
    pub signature: String,
}

/// What a [`Signature`] holds, as mathematical values.
pub struct SignatureView {
    pub block_id_flag: Seq<char>,
    pub validator_address: Seq<char>,
    pub timestamp: Timestamp,
    pub signature: Seq<char>,
}

impl DeepView for Signature {
    type V = SignatureView;

    open spec fn deep_view(&self) -> SignatureView {
        SignatureView {
            block_id_flag: self.block_id_flag@,
            validator_address: self.validator_address@,
            timestamp: self.timestamp,
            signature: self.signature@,
        }
    }
}

/// The commit of the block before.
#[derive(Debug)]
pub struct LastCommit {
    pub height: u64,
    pub round: u32,
    pub block_id: BlockId,
    pub signatures: Vec<Signature>,
}

/// What a [`LastCommit`] holds, as mathematical values.
pub struct LastCommitView {
    pub height: u64,
    pub round: u32,
    pub block_id: BlockIdView,
    pub signatures: Seq<SignatureView>,
}

impl DeepView for LastCommit {
    type V = LastCommitView;

    open spec fn deep_view(&self) -> LastCommitView {
        LastCommitView {
            height: self.height,
            round: self.round,
            block_id: self.block_id.deep_view(),
            signatures: self.signatures.deep_view(),
        }
    }
}

/// A block.
#[derive(Debug)]
pub struct Block {
    pub header: BlockHeader,
    pub data: BlockData,
    pub evidence: BlockEvidence,
    pub last_commit: Option<LastCommit>,
}

/// What a [`Block`] holds, as mathematical values.
pub struct BlockView {
    pub header: BlockHeaderView,
    pub txs: Seq<Seq<char>>,
    pub evidence: Seq<Seq<char>>,
    pub last_commit: Option<LastCommitView>,
}

impl DeepView for Block {
    type V = BlockView;

    open spec fn deep_view(&self) -> BlockView {
        BlockView {
            header: self.header.deep_view(),
            txs: self.data.txs.deep_view(),
            evidence: self.evidence.evidence.deep_view(),
            last_commit: self.last_commit.deep_view(),
        }
    }
}

/// The answer to a query for a block.
#[derive(Debug)]
pub struct BlockResponse {
    pub block_id: BlockId,
    pub block: Block,
}

/// What a [`BlockResponse`] holds, as mathematical values.
pub struct BlockResponseView {
    pub block_id: BlockIdView,
    pub block: BlockView,
}

impl DeepView for BlockResponse {
    type V = BlockResponseView;

    open spec fn deep_view(&self) -> BlockResponseView {
        BlockResponseView { block_id: self.block_id.deep_view(), block: self.block.deep_view() }
    }
}

/// The protocol versions that a node speaks.
#[derive(Clone, Copy, Debug, PartialEq, Eq, Structural)]
pub struct ProtocolVersionInfo {
    pub p2p: u64,
    pub block: u64,
    pub app: u64,
}

/// Whether a node indexes transactions.
#[derive(Clone, Copy, Debug, PartialEq, Eq, Structural)]
pub enum TxIndexStatus {
    On,
    Off,
}

/// What else a node says of itself.
#[derive(Debug)]
pub struct OtherInfo {
    pub tx_index: TxIndexStatus,
    pub rpc_address: String,
}

/// What a node says of itself, as the chain reports it.
#[derive(Debug)]
pub struct NodeInfo {
    pub protocol_version: ProtocolVersionInfo,
    pub id: String,
    pub listen_addr: String,
    pub network: String,
    pub version: String,
    pub channels: String,
    pub moniker: String,
    pub other: OtherInfo,
}

/// What a node says of itself, as the REST schema reports it.
#[derive(Debug)]
pub struct CosmosNodeInfo {
    pub protocol_version: ProtocolVersionInfo,
    pub default_node_id: String,
    pub listen_addr: String,
    pub network: String,
    pub version: String,
    pub channels: String,
    pub moniker: String,
    pub other: OtherInfo,
}

/// What a [`CosmosNodeInfo`] holds, as mathematical values.
pub struct CosmosNodeInfoView {
    pub protocol_version: ProtocolVersionInfo,
    pub default_node_id: Seq<char>,
    pub listen_addr: Seq<char>,
    pub network: Seq<char>,
    pub version: Seq<char>,
    pub channels: Seq<char>,
    pub moniker: Seq<char>,
    pub tx_index: TxIndexStatus,
    pub rpc_address: Seq<char>,
}

impl DeepView for CosmosNodeInfo {
    type V = CosmosNodeInfoView;

    open spec fn deep_view(&self) -> CosmosNodeInfoView {
        CosmosNodeInfoView {
            protocol_version: self.protocol_version,
            default_node_id: self.default_node_id@,
            listen_addr: self.listen_addr@,
            network: self.network@,
            version: self.version@,
            channels: self.channels@,
            moniker: self.moniker@,
            tx_index: self.other.tx_index,
            rpc_address: self.other.rpc_address@,
        }
    }
}

/// The schema's node info for what the chain reports: the same values, the
/// node's id under the schema's name for it.
pub open spec fn node_info_view(info: NodeInfo) -> CosmosNodeInfoView {
    CosmosNodeInfoView {
        protocol_version: info.protocol_version,
        default_node_id: info.id@,
        listen_addr: info.listen_addr@,
        network: info.network@,
        version: info.version@,
        channels: info.channels@,
        moniker: info.moniker@,
        tx_index: info.other.tx_index,
        rpc_address: info.other.rpc_address@,
    }
}

impl From<NodeInfo> for CosmosNodeInfo {
    /// Renames the node's id and keeps everything else.
    fn from(info: NodeInfo) -> (node: CosmosNodeInfo)
        ensures
            node.deep_view() == node_info_view(info),
    {
        CosmosNodeInfo {
            protocol_version: info.protocol_version,
            default_node_id: info.id,
            listen_addr: info.listen_addr,
            network: info.network,
            version: info.version,
            channels: info.channels,
            moniker: info.moniker,
            other: info.other,
        }
    }
}

impl vstd::std_specs::convert::FromSpecImpl<NodeInfo> for CosmosNodeInfo {
    open spec fn obeys_from_spec() -> bool {
        true
    }

    open spec fn from_spec(info: NodeInfo) -> CosmosNodeInfo {
        CosmosNodeInfo {
            protocol_version: info.protocol_version,
            default_node_id: info.id,
            listen_addr: info.listen_addr,
            network: info.network,
            version: info.version,
            channels: info.channels,
            moniker: info.moniker,
            other: info.other,
        }
    }
}

/// A dependency that an application was built with.
#[derive(Debug)]
pub struct BuildDep {
    path: String,
    version: String,
    sum: Option<String>,
}

/// What a [`BuildDep`] holds, as mathematical values.
pub struct BuildDepView {
    pub path: Seq<char>,
    pub version: Seq<char>,
    pub sum: Option<Seq<char>>,
}

impl DeepView for BuildDep {
    type V = BuildDepView;

    closed spec fn deep_view(&self) -> BuildDepView {
        BuildDepView { path: self.path@, version: self.version@, sum: self.sum.deep_view() }
    }
}

/// The version of the application behind the node.
#[derive(Debug)]
pub struct CosmosAppVersion {
    name: String,
    app_name: String,
    version: String,
    git_commit: String,
    build_tags: Option<String>,
    go_version: Option<String>,
    build_deps: Option<Vec<BuildDep>>,
}

/// What a [`CosmosAppVersion`] holds, as mathematical values.
pub struct CosmosAppVersionView {
    pub name: Seq<char>,
    pub app_name: Seq<char>,
    pub version: Seq<char>,
    pub git_commit: Seq<char>,
    pub build_tags: Option<Seq<char>>,
    pub go_version: Option<Seq<char>>,
    pub build_deps: Option<Seq<BuildDepView>>,
}

impl DeepView for CosmosAppVersion {
    type V = CosmosAppVersionView;

    closed spec fn deep_view(&self) -> CosmosAppVersionView {
        CosmosAppVersionView {
            name: self.name@,
            app_name: self.app_name@,
            version: self.version@,
            git_commit: self.git_commit@,
            build_tags: self.build_tags.deep_view(),
            go_version: self.go_version.deep_view(),
            build_deps: self.build_deps.deep_view(),
        }
    }
}

/// The application version that is reported while the chain's own is not
/// looked up.
pub open spec fn placeholder_app_version() -> CosmosAppVersionView {
    CosmosAppVersionView {
        name: "namada"@,
        app_name: "namadan"@,
        version: "placeholder"@,
        git_commit: "placeholder"@,
        build_tags: Some("placeholder"@),
        go_version: Some("placeholder"@),
        build_deps: None,
    }
}

impl CosmosAppVersion {
    /// The application version that is reported while the chain's own is not
    /// looked up.
    pub fn new() -> (version: CosmosAppVersion)
        ensures
            version.deep_view() == placeholder_app_version(),
    {
        CosmosAppVersion {
            name: String::from_str("namada"),
            app_name: String::from_str("namadan"),
            version: String::from_str("placeholder"),
            git_commit: String::from_str("placeholder"),
            build_tags: Some(String::from_str("placeholder")),
            go_version: Some(String::from_str("placeholder")),
            build_deps: None,
        }
    }

    /// The application's name.
    pub fn name(&self) -> (s: &String)
        ensures
            s@ == self.deep_view().name,
    {
        &self.name
    }

    /// The name of the application's binary.
    pub fn app_name(&self) -> (s: &String)
        ensures
            s@ == self.deep_view().app_name,
    {
        &self.app_name
    }

    /// The application's version.
    pub fn version(&self) -> (s: &String)
        ensures
            s@ == self.deep_view().version,
    {
        &self.version
    }

    /// The commit that the application was built from.
    pub fn git_commit(&self) -> (s: &String)
        ensures
            s@ == self.deep_view().git_commit,
    {
        &self.git_commit
    }

    /// The tags that the application was built with.
    pub fn build_tags(&self) -> (s: &Option<String>)
        ensures
            s.deep_view() == self.deep_view().build_tags,
    {
        &self.build_tags
    }

    /// The version of the compiler that built the application.
    pub fn go_version(&self) -> (s: &Option<String>)
        ensures
            s.deep_view() == self.deep_view().go_version,
    {
        &self.go_version
    }

    /// How many build dependencies are listed, if they are listed at all.
    pub fn build_deps_len(&self) -> (n: Option<usize>)
        ensures
            n.is_some() == self.deep_view().build_deps.is_some(),
            n matches Some(k) ==> self.deep_view().build_deps->Some_0.len() == k,
    {
        match &self.build_deps {
            Some(deps) => Some(deps.len()),
            None => None,
        }
    }
}

/// The answer to a query for the node's info.
#[derive(Debug)]
pub struct NodeInfoResponse {
    pub default_node_info: CosmosNodeInfo,
    pub application_version: CosmosAppVersion,
}

/// One validator of a validator set. `voting_power` is its stake.
#[derive(Debug)]
pub struct ValidatorInfo {
    pub address: String,
    pub pub_key: ConsensusKeyInfo,
    pub voting_power: String,
    pub proposer_priority: String,
}

/// What a [`ValidatorInfo`] holds, as mathematical values.
pub struct ValidatorInfoView {
    pub address: Seq<char>,
    pub pub_key: ConsensusKeyInfoView,
    pub voting_power: Seq<char>,
    pub proposer_priority: Seq<char>,
}

impl DeepView for ValidatorInfo {
    type V = ValidatorInfoView;

    open spec fn deep_view(&self) -> ValidatorInfoView {
        ValidatorInfoView {
            address: self.address@,
            pub_key: self.pub_key.deep_view(),
            voting_power: self.voting_power@,
            proposer_priority: self.proposer_priority@,
        }
    }
}

/// The answer to a query for a validator set.
#[derive(Debug)]
pub struct ValidatorSetsResponse {
    pub block_height: String,
    pub validators: Vec<ValidatorInfo>,
    pub pagination: PaginationInfo,
}

/// What a [`ValidatorSetsResponse`] holds, as mathematical values.
pub struct ValidatorSetsResponseView {
    pub block_height: Seq<char>,
    pub validators: Seq<ValidatorInfoView>,
    pub pagination: PaginationInfoView,
}

impl DeepView for ValidatorSetsResponse {
    type V = ValidatorSetsResponseView;

    open spec fn deep_view(&self) -> ValidatorSetsResponseView {
        ValidatorSetsResponseView {
            block_height: self.block_height@,
            validators: self.validators.deep_view(),
            pagination: self.pagination.deep_view(),
        }
    }
}

} // verus!

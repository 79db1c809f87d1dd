use vstd::prelude::*;
use crate::state::Staking;

verus! {

/// One-time setup message. `admin` is the already-validated admin candidate,
/// or `None` when no valid candidate was supplied; `nft_addr` is the first
/// allow-listed collection.
#[derive(Debug, PartialEq)]
pub struct InstantiateMsg {
    pub admin: Option<String>,
    pub nft_addr: String,
}

/// An inbound mutating request, as the dispatcher receives it.
#[derive(Debug, PartialEq)]
pub enum ExecuteMsg {
    /// A collection notifies the ledger that `sender` handed token
    /// `token_id` into custody; the collection itself is the caller.
    ReceiveNft { sender: String, token_id: String },
    /// The caller asks to start unbonding its record at `index`.
    Unstake { index: u64 },
    /// The caller asks for the token of its record at `index` back.
    Claim { index: u64 },
    /// The admin seizes the record at `index` and burns its token.
    AdminBurn { index: u64 },
    /// The admin appends a collection to the allow list.
    AddCollection { nft_addr: String },
    /// The admin removes a collection from the allow list.
    RemoveCollection { nft_addr: String },
}

/// Spec-level image of an `ExecuteMsg`.
pub enum MsgModel {
    ReceiveNft { sender: Seq<char>, token_id: Seq<char> },
    Unstake { index: u64 },
    Claim { index: u64 },
    AdminBurn { index: u64 },
    AddCollection { nft_addr: Seq<char> },
    RemoveCollection { nft_addr: Seq<char> },
}

impl DeepView for ExecuteMsg {
    type V = MsgModel;

    open spec fn deep_view(&self) -> MsgModel {
        match *self {
            ExecuteMsg::ReceiveNft { sender, token_id } => MsgModel::ReceiveNft {
                sender: sender@,
                token_id: token_id@,
            },
            ExecuteMsg::Unstake { index } => MsgModel::Unstake { index },
            ExecuteMsg::Claim { index } => MsgModel::Claim { index },
            ExecuteMsg::AdminBurn { index } => MsgModel::AdminBurn { index },
            ExecuteMsg::AddCollection { nft_addr } => MsgModel::AddCollection {
                nft_addr: nft_addr@,
            },
            ExecuteMsg::RemoveCollection { nft_addr } => MsgModel::RemoveCollection {
                nft_addr: nft_addr@,
            },
        }
    }
}

/// A read-only request.
#[derive(Debug, PartialEq)]
pub enum QueryMsg {
    /// The allow-listed collection addresses.
    WhitelistedNftAddresses,
    /// The admin identity.
    AdminAddress,
    /// The staking records of one depositor.
    StakingsByAddress { address: String },
}

/// Answer to `QueryMsg::WhitelistedNftAddresses`.
#[derive(Debug, PartialEq)]
pub struct WhitelistedNftAddressesResponse {
    pub nft_addrs: Vec<String>,
}

/// Answer to `QueryMsg::AdminAddress`.
#[derive(Debug, PartialEq)]
pub struct AdminAddressResponse {
    pub admin: String,
}

/// Answer to `QueryMsg::StakingsByAddress`: the depositor's records in
/// deposit order, empty when none were ever recorded.
#[derive(Debug, PartialEq)]
pub struct StakingsResponse {
    pub stakings: Vec<Staking>,
}

/// The answer a query produces, one variant per `QueryMsg` variant.
#[derive(Debug, PartialEq)]
pub enum QueryAnswer {
    WhitelistedNftAddresses(WhitelistedNftAddressesResponse),
    AdminAddress(AdminAddressResponse),
    Stakings(StakingsResponse),
}

} // verus!

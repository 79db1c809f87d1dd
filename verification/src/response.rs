use vstd::prelude::*;

verus! {

/// An outbound custody-protocol command, addressed to the collection that
/// issued the token. The host delivers it; the ledger only describes it.
#[derive(Debug, PartialEq)]
pub enum CustodyCommand {
    /// Hand the token back to `recipient`.
    Transfer { nft_addr: String, recipient: String, token_id: String },
    /// Destroy the token.
    Burn { nft_addr: String, token_id: String },
}

/// Spec-level image of a `CustodyCommand`.
pub enum CommandModel {
    Transfer { nft_addr: Seq<char>, recipient: Seq<char>, token_id: Seq<char> },
    Burn { nft_addr: Seq<char>, token_id: Seq<char> },
}

impl DeepView for CustodyCommand {
    type V = CommandModel;

    open spec fn deep_view(&self) -> CommandModel {
        match *self {
            CustodyCommand::Transfer { nft_addr, recipient, token_id } => CommandModel::Transfer {
                nft_addr: nft_addr@,
                recipient: recipient@,
                token_id: token_id@,
            },
            CustodyCommand::Burn { nft_addr, token_id } => CommandModel::Burn {
                nft_addr: nft_addr@,
                token_id: token_id@,
            },
        }
    }
}

/// The structured event a successful operation reports for observability.
#[derive(Debug, PartialEq)]
pub enum Event {
    Staked { nft_addr: String, token_id: String, sender: String, start_timestamp: u64 },
    /// Reports the record with its new deadline: `end_timestamp` is the
    /// time the unbonding just requested will finish.
    Unstaked {
        nft_addr: String,
        token_id: String,
        sender: String,
        start_timestamp: u64,
        end_timestamp: u64,
        index: u64,
    },
    BurnedByAdmin { nft_addr: String, token_id: String, index: u64 },
    Claimed { nft_addr: String, token_id: String, index: u64 },
    CollectionAdded { nft_addr: String },
    CollectionRemoved { nft_addr: String },
}

/// Spec-level image of an `Event`.
pub enum EventModel {
    Staked { nft_addr: Seq<char>, token_id: Seq<char>, sender: Seq<char>, start_timestamp: u64 },
    Unstaked {
        nft_addr: Seq<char>,
        token_id: Seq<char>,
        sender: Seq<char>,
        start_timestamp: u64,
        end_timestamp: u64,
        index: u64,
    },
    BurnedByAdmin { nft_addr: Seq<char>, token_id: Seq<char>, index: u64 },
    Claimed { nft_addr: Seq<char>, token_id: Seq<char>, index: u64 },
    CollectionAdded { nft_addr: Seq<char> },
    CollectionRemoved { nft_addr: Seq<char> },
}

impl DeepView for Event {
    type V = EventModel;

    open spec fn deep_view(&self) -> EventModel {
        match *self {
            Event::Staked { nft_addr, token_id, sender, start_timestamp } => EventModel::Staked {
                nft_addr: nft_addr@,
                token_id: token_id@,
                sender: sender@,
                start_timestamp,
            },
            Event::Unstaked {
                nft_addr,
                token_id,
                sender,
                start_timestamp,
                end_timestamp,
                index,
            } => EventModel::Unstaked {
                nft_addr: nft_addr@,
                token_id: token_id@,
                sender: sender@,
                start_timestamp,
                end_timestamp,
                index,
            },
            Event::BurnedByAdmin { nft_addr, token_id, index } => EventModel::BurnedByAdmin {
                nft_addr: nft_addr@,
                token_id: token_id@,
                index,
            },
            Event::Claimed { nft_addr, token_id, index } => EventModel::Claimed {
                nft_addr: nft_addr@,
                token_id: token_id@,
                index,
            },
            Event::CollectionAdded { nft_addr } => EventModel::CollectionAdded {
                nft_addr: nft_addr@,
            },
            Event::CollectionRemoved { nft_addr } => EventModel::CollectionRemoved {
                nft_addr: nft_addr@,
            },
        }
    }
}

/// What a successful mutating operation hands back to the host: one event
/// and zero or more custody commands to deliver.
#[derive(Debug, PartialEq)]
pub struct Response {
    pub event: Event,
    pub commands: Vec<CustodyCommand>,
}

/// Spec-level image of a `Response`.
pub struct ResponseModel {
    pub event: EventModel,
    pub commands: Seq<CommandModel>,
}

impl DeepView for Response {
    type V = ResponseModel;

    open spec fn deep_view(&self) -> ResponseModel {
        ResponseModel { event: self.event.deep_view(), commands: self.commands.deep_view() }
    }
}

} // verus!

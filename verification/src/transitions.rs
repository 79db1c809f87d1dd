//! The staking state machine, stated mathematically. Each function here maps
//! the persisted state, the caller, the current time and the request to the
//! new state, the reported response and the error, exactly as the executable
//! operations in `contract` promise to behave.

use vstd::prelude::*;
use crate::error::ContractError;
use crate::msg::MsgModel;
use crate::response::{CommandModel, EventModel, ResponseModel};
use crate::state::{ConfigModel, RecordModel};

verus! {

/// The fixed unbonding delay, in seconds: fourteen days between requesting
/// withdrawal and eligibility to claim.
pub const UNBONDING_PERIOD: u64 = 14 * 24 * 60 * 60;

/// Whether `addr` is on the allow list `wl`.
pub open spec fn wl_contains(wl: Seq<Seq<char>>, addr: Seq<char>) -> bool {
    exists|i: int| 0 <= i < wl.len() && wl[i] == addr
}

/// The registry produced by one-time setup: the validated admin candidate if
/// one was supplied, else the caller, and an allow list of exactly the first
/// collection.
pub open spec fn spec_instantiate(
    sender: Seq<char>,
    admin: Option<Seq<char>>,
    nft_addr: Seq<char>,
) -> ConfigModel {
    ConfigModel {
        admin: match admin {
            Some(a) => a,
            None => sender,
        },
        whitelisted_nft_addrs: seq![nft_addr],
    }
}

/// A deposit of `token_id` from collection `nft_addr` by `sender` at `now`.
/// It is rejected when the collection is not allow-listed (reported as
/// `AlreadyWhitelisted`); otherwise a fresh record in the held state is
/// appended to the depositor's list, at the index equal to the prior count.
pub open spec fn spec_stake(
    config: ConfigModel,
    recs: Seq<RecordModel>,
    nft_addr: Seq<char>,
    sender: Seq<char>,
    token_id: Seq<char>,
    now: u64,
) -> Result<(Seq<RecordModel>, ResponseModel), ContractError> {
    if !wl_contains(config.whitelisted_nft_addrs, nft_addr) {
        Err(ContractError::AlreadyWhitelisted)
    } else {
        let rec = RecordModel {
            nft_addr,
            token_id,
            sender,
            start_timestamp: now,
            end_timestamp: 0,
            is_burned_by_admin: false,
        };
        Ok(
            (
                recs.push(rec),
                ResponseModel {
                    event: EventModel::Staked { nft_addr, token_id, sender, start_timestamp: now },
                    commands: Seq::empty(),
                },
            ),
        )
    }
}

/// A request by `caller` to start unbonding the record at `index` in `recs`.
/// Rejections, in order: no record at `index`; unbonding already requested
/// (a non-zero deadline, pending or past); the caller is not the depositor;
/// the record was seized. On success the deadline becomes
/// `now + UNBONDING_PERIOD`, and the event reports the record with that new
/// deadline, so an observer learns when the claim opens.
pub open spec fn spec_unstake(
    recs: Seq<RecordModel>,
    caller: Seq<char>,
    index: u64,
    now: u64,
) -> Result<(Seq<RecordModel>, ResponseModel), ContractError> {
    if index >= recs.len() {
        Err(ContractError::RecordNotFound)
    } else {
        let rec = recs[index as int];
        if rec.end_timestamp != 0 {
            Err(ContractError::AlreadyUnstaked)
        } else if caller != rec.sender {
            Err(ContractError::Unauthorized)
        } else if rec.is_burned_by_admin {
            Err(ContractError::StakedTokenIsBurnedByAdmin)
        } else {
            let updated = RecordModel {
                end_timestamp: (now + UNBONDING_PERIOD) as u64,
                ..rec
            };
            Ok(
                (
                    recs.update(index as int, updated),
                    ResponseModel {
                        event: EventModel::Unstaked {
                            nft_addr: rec.nft_addr,
                            token_id: rec.token_id,
                            sender: rec.sender,
                            start_timestamp: rec.start_timestamp,
                            end_timestamp: updated.end_timestamp,
                            index,
                        },
                        commands: Seq::empty(),
                    },
                ),
            )
        }
    }
}

/// A seizure by `caller` of the record at `index` in `recs`. Rejections, in
/// order: no record at `index`; the caller is not the admin. Otherwise the
/// seizure succeeds whatever the record's state — held, unbonding, past its
/// deadline, or already seized — marks the record seized, and issues a burn
/// command to the record's collection.
pub open spec fn spec_admin_burn(
    config: ConfigModel,
    recs: Seq<RecordModel>,
    caller: Seq<char>,
    index: u64,
) -> Result<(Seq<RecordModel>, ResponseModel), ContractError> {
    if index >= recs.len() {
        Err(ContractError::RecordNotFound)
    } else if caller != config.admin {
        Err(ContractError::Unauthorized)
    } else {
        let rec = recs[index as int];
        let updated = RecordModel { is_burned_by_admin: true, ..rec };
        Ok(
            (
                recs.update(index as int, updated),
                ResponseModel {
                    event: EventModel::BurnedByAdmin {
                        nft_addr: rec.nft_addr,
                        token_id: rec.token_id,
                        index,
                    },
                    commands: seq![
                        CommandModel::Burn { nft_addr: rec.nft_addr, token_id: rec.token_id }
                    ],
                },
            ),
        )
    }
}

/// A claim by `caller` of the record at `index` in `recs` at time `now`.
/// Rejections, in order: no record at `index`; the caller is not the
/// depositor; the record was seized; the deadline lies in the future
/// (reported with the deadline). A record whose unbonding was never
/// requested has a zero deadline, which is never in the future, so such a
/// record is claimable at once. On success a transfer command to the
/// depositor is issued; the record itself is not changed.
pub open spec fn spec_claim(
    recs: Seq<RecordModel>,
    caller: Seq<char>,
    index: u64,
    now: u64,
) -> Result<ResponseModel, ContractError> {
    if index >= recs.len() {
        Err(ContractError::RecordNotFound)
    } else {
        let rec = recs[index as int];
        if caller != rec.sender {
            Err(ContractError::Unauthorized)
        } else if rec.is_burned_by_admin {
            Err(ContractError::StakedTokenIsBurnedByAdmin)
        } else if rec.end_timestamp > now {
            Err(ContractError::StillUnbonding { will_finish: rec.end_timestamp })
        } else {
            Ok(
                ResponseModel {
                    event: EventModel::Claimed {
                        nft_addr: rec.nft_addr,
                        token_id: rec.token_id,
                        index,
                    },
                    commands: seq![
                        CommandModel::Transfer {
                            nft_addr: rec.nft_addr,
                            recipient: caller,
                            token_id: rec.token_id,
                        }
                    ],
                },
            )
        }
    }
}

/// An addition of `nft_addr` to the allow list by `caller`. Rejections, in
/// order: the caller is not the admin; the collection is already listed.
/// On success the collection is appended.
pub open spec fn spec_add_collection(
    config: ConfigModel,
    caller: Seq<char>,
    nft_addr: Seq<char>,
) -> Result<(ConfigModel, ResponseModel), ContractError> {
    if caller != config.admin {
        Err(ContractError::Unauthorized)
    } else if wl_contains(config.whitelisted_nft_addrs, nft_addr) {
        Err(ContractError::AlreadyWhitelisted)
    } else {
        Ok(
            (
                ConfigModel {
                    admin: config.admin,
                    whitelisted_nft_addrs: config.whitelisted_nft_addrs.push(nft_addr),
                },
                ResponseModel {
                    event: EventModel::CollectionAdded { nft_addr },
                    commands: Seq::empty(),
                },
            ),
        )
    }
}

/// A removal of `nft_addr` from the allow list by `caller`. Rejections, in
/// order: the caller is not the admin; the collection is not listed. On
/// success the first (and only) matching entry is removed, the rest keeping
/// their order.
pub open spec fn spec_remove_collection(
    config: ConfigModel,
    caller: Seq<char>,
    nft_addr: Seq<char>,
) -> Result<(ConfigModel, ResponseModel), ContractError> {
    if caller != config.admin {
        Err(ContractError::Unauthorized)
    } else {
        match config.whitelisted_nft_addrs.index_of_first(nft_addr) {
            Some(i) => Ok(
                (
                    ConfigModel {
                        admin: config.admin,
                        whitelisted_nft_addrs: config.whitelisted_nft_addrs.remove(i),
                    },
                    ResponseModel {
                        event: EventModel::CollectionRemoved { nft_addr },
                        commands: Seq::empty(),
                    },
                ),
            ),
            None => Err(ContractError::NotWhitelisted),
        }
    }
}

/// The key under which the record list touched by `msg` is stored: the
/// reported depositor for a deposit notification, the caller for everything
/// else.
pub open spec fn spec_staking_key(msg: MsgModel, sender: Seq<char>) -> Seq<char> {
    match msg {
        MsgModel::ReceiveNft { sender: depositor, .. } => depositor,
        _ => sender,
    }
}

/// One dispatch step: `sender` is the caller, `recs` the record list stored
/// under `spec_staking_key(msg, sender)`. The result carries the new
/// registry, the new record list and the response, or the error of the one
/// operation the message selects.
pub open spec fn spec_execute(
    config: ConfigModel,
    recs: Seq<RecordModel>,
    sender: Seq<char>,
    now: u64,
    msg: MsgModel,
) -> Result<(ConfigModel, Seq<RecordModel>, ResponseModel), ContractError> {
    match msg {
        MsgModel::ReceiveNft { sender: depositor, token_id } => match spec_stake(
            config,
            recs,
            sender,
            depositor,
            token_id,
            now,
        ) {
            Ok((recs2, resp)) => Ok((config, recs2, resp)),
            Err(e) => Err(e),
        },
        MsgModel::Unstake { index } => match spec_unstake(recs, sender, index, now) {
            Ok((recs2, resp)) => Ok((config, recs2, resp)),
            Err(e) => Err(e),
        },
        MsgModel::Claim { index } => match spec_claim(recs, sender, index, now) {
            Ok(resp) => Ok((config, recs, resp)),
            Err(e) => Err(e),
        },
        MsgModel::AdminBurn { index } => match spec_admin_burn(config, recs, sender, index) {
            Ok((recs2, resp)) => Ok((config, recs2, resp)),
            Err(e) => Err(e),
        },
        MsgModel::AddCollection { nft_addr } => match spec_add_collection(config, sender, nft_addr) {
            Ok((config2, resp)) => Ok((config2, recs, resp)),
            Err(e) => Err(e),
        },
        MsgModel::RemoveCollection { nft_addr } => match spec_remove_collection(
            config,
            sender,
            nft_addr,
        ) {
            Ok((config2, resp)) => Ok((config2, recs, resp)),
            Err(e) => Err(e),
        },
    }
}

} // verus!

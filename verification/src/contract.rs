//! The executable operations. Each takes the persisted state it touches —
//! the registry and, where records are involved, one depositor's record
//! list — together with the caller and the current time, and behaves exactly
//! as the matching function in `transitions` states. The host loads the
//! state before the call, persists it only on success, validates addresses,
//! and delivers the returned custody commands and events.

use vstd::prelude::*;
use crate::error::ContractError;
use crate::msg::{
    AdminAddressResponse, ExecuteMsg, InstantiateMsg, QueryAnswer, QueryMsg, StakingsResponse,
    WhitelistedNftAddressesResponse,
};
use crate::response::{CommandModel, CustodyCommand, Event, Response};
use crate::state::{clone_strings, Config, RecordModel, Staking};
use crate::transitions::{
    spec_add_collection, spec_admin_burn, spec_claim, spec_execute, spec_instantiate,
    spec_remove_collection, spec_stake, spec_staking_key, spec_unstake, wl_contains,
    UNBONDING_PERIOD,
};

verus! {

/// Whether `addr` occurs in `list`.
fn contains_addr(list: &Vec<String>, addr: &String) -> (r: bool)
    ensures
        r == wl_contains(list.deep_view(), addr@),
{
    let mut i: usize = 0;
    while i < list.len()
        invariant
            i <= list.len(),
            forall|j: int| 0 <= j < i ==> list.deep_view()[j] != addr@,
        decreases list.len() - i,
    {
        if list[i] == *addr {
            proof {
                assert(list.deep_view()[i as int] == addr@);
            }
            return true;
        }
        i += 1;
    }
    false
}

/// The position of the first occurrence of `addr` in `list`, if any.
fn find_addr(list: &Vec<String>, addr: &String) -> (r: Option<usize>)
    ensures
        match r {
            Some(i) => list.deep_view().index_of_first(addr@) == Some(i as int),
            None => list.deep_view().index_of_first(addr@) is None,
        },
{
    let ghost dv = list.deep_view();
    proof {
        dv.index_of_first_ensures(addr@);
    }
    let mut i: usize = 0;
    while i < list.len()
        invariant
            i <= list.len(),
            forall|j: int| 0 <= j < i ==> list.deep_view()[j] != addr@,
            dv == list.deep_view(),
            dv.index_of_first(addr@) matches Some(k) ==> 0 <= k < dv.len() && dv[k] == addr@
                && (forall|j: int| 0 <= j < k ==> dv[j] != addr@),
            dv.index_of_first(addr@) is None ==> !wl_contains(dv, addr@),
        decreases list.len() - i,
    {
        if list[i] == *addr {
            proof {
                assert(dv[i as int] == addr@);
            }
            return Some(i);
        }
        i += 1;
    }
    proof {
        assert(forall|j: int| 0 <= j < dv.len() ==> dv[j] != addr@);
        if dv.index_of_first(addr@) is Some {
            let k = dv.index_of_first(addr@)->Some_0;
            assert(dv[k] != addr@);
        }
    }
    None
}

/// One-time setup: the admin becomes the validated candidate when one was
/// supplied, else the caller, and the allow list starts as exactly the first
/// collection. The host validates both addresses in `msg` beforehand and
/// passes `admin: None` when no valid candidate was given.
pub fn instantiate(sender: String, msg: InstantiateMsg) -> (c: Config)
    ensures
        c.deep_view() == spec_instantiate(sender@, msg.admin.deep_view(), msg.nft_addr@),
{
    let admin = match msg.admin {
        Some(a) => a,
        None => sender,
    };
    let mut whitelisted_nft_addrs: Vec<String> = Vec::new();
    whitelisted_nft_addrs.push(msg.nft_addr);
    let c = Config { admin, whitelisted_nft_addrs };
    proof {
        assert(c.deep_view().whitelisted_nft_addrs =~= seq![msg.nft_addr@]);
    }
    c
}

/// A deposit: collection `nft_addr` (the caller of the inbound notification)
/// reports that `sender` handed `token_id` into custody at `now`. `stakings`
/// is the record list of `sender`. Behaves as `spec_stake` states; the new
/// record's index is the depositor's prior record count.
pub fn execute_stake(
    config: &Config,
    stakings: &mut Vec<Staking>,
    nft_addr: String,
    sender: String,
    token_id: String,
    now: u64,
) -> (r: Result<Response, ContractError>)
    ensures
        ({
            let outcome = spec_stake(
                config.deep_view(),
                old(stakings).deep_view(),
                nft_addr@,
                sender@,
                token_id@,
                now,
            );
            match outcome {
                Ok((recs, respm)) => r matches Ok(resp) && final(stakings).deep_view() == recs
                    && resp.deep_view() == respm,
                Err(e) => r == Err::<Response, ContractError>(e) && final(stakings).deep_view()
                    == old(stakings).deep_view(),
            }
        }),
{
    if !contains_addr(&config.whitelisted_nft_addrs, &nft_addr) {
        return Err(ContractError::AlreadyWhitelisted);
    }
    let ghost rec_model = RecordModel {
        nft_addr: nft_addr@,
        token_id: token_id@,
        sender: sender@,
        start_timestamp: now,
        end_timestamp: 0,
        is_burned_by_admin: false,
    };
    let rec = Staking {
        nft_addr: nft_addr.clone(),
        token_id: token_id.clone(),
        sender: sender.clone(),
        start_timestamp: now,
        end_timestamp: 0,
        is_burned_by_admin: false,
    };
    stakings.push(rec);
    let resp = Response {
        event: Event::Staked { nft_addr, token_id, sender, start_timestamp: now },
        commands: Vec::new(),
    };
    proof {
        assert(stakings.deep_view() =~= old(stakings).deep_view().push(rec_model));
        assert(resp.deep_view().commands =~= Seq::<CommandModel>::empty());
    }
    Ok(resp)
}

/// A request by `sender` to start unbonding its record at `index` in
/// `stakings`, its own record list. Behaves as `spec_unstake` states: on
/// success the record's deadline becomes `now + UNBONDING_PERIOD` and the
/// reported event carries that new deadline.
pub fn execute_unstake(
    stakings: &mut Vec<Staking>,
    sender: &String,
    index: u64,
    now: u64,
) -> (r: Result<Response, ContractError>)
    requires
        now + UNBONDING_PERIOD <= u64::MAX,
    ensures
        ({
            let outcome = spec_unstake(old(stakings).deep_view(), sender@, index, now);
            match outcome {
                Ok((recs, respm)) => r matches Ok(resp) && final(stakings).deep_view() == recs
                    && resp.deep_view() == respm,
                Err(e) => r == Err::<Response, ContractError>(e) && final(stakings).deep_view()
                    == old(stakings).deep_view(),
            }
        }),
{
    if index >= stakings.len() as u64 {
        return Err(ContractError::RecordNotFound);
    }
    let i: usize = index as usize;
    if stakings[i].end_timestamp != 0 {
        return Err(ContractError::AlreadyUnstaked);
    }
    if *sender != stakings[i].sender {
        return Err(ContractError::Unauthorized);
    }
    if stakings[i].is_burned_by_admin {
        return Err(ContractError::StakedTokenIsBurnedByAdmin);
    }
    let end_timestamp = now + UNBONDING_PERIOD;
    let event = Event::Unstaked {
        nft_addr: stakings[i].nft_addr.clone(),
        token_id: stakings[i].token_id.clone(),
        sender: stakings[i].sender.clone(),
        start_timestamp: stakings[i].start_timestamp,
        end_timestamp,
        index,
    };
    let ghost updated = RecordModel {
        end_timestamp: (now + UNBONDING_PERIOD) as u64,
        ..old(stakings).deep_view()[index as int]
    };
    stakings[i].end_timestamp = end_timestamp;
    let resp = Response { event, commands: Vec::new() };
    proof {
        assert(stakings.deep_view() =~= old(stakings).deep_view().update(index as int, updated));
        assert(resp.deep_view().commands =~= Seq::<CommandModel>::empty());
    }
    Ok(resp)
}

/// A seizure by `sender` of the record at `index` in `stakings`. Behaves as
/// `spec_admin_burn` states: only the admin may seize, the seizure succeeds
/// whatever the record's state, marks it seized, and issues a burn command
/// to the record's collection — also when the record was already seized.
pub fn execute_admin_burn(
    config: &Config,
    stakings: &mut Vec<Staking>,
    sender: &String,
    index: u64,
) -> (r: Result<Response, ContractError>)
    ensures
        ({
            let outcome = spec_admin_burn(
                config.deep_view(),
                old(stakings).deep_view(),
                sender@,
                index,
            );
            match outcome {
                Ok((recs, respm)) => r matches Ok(resp) && final(stakings).deep_view() == recs
                    && resp.deep_view() == respm,
                Err(e) => r == Err::<Response, ContractError>(e) && final(stakings).deep_view()
                    == old(stakings).deep_view(),
            }
        }),
{
    if index >= stakings.len() as u64 {
        return Err(ContractError::RecordNotFound);
    }
    if *sender != config.admin {
        return Err(ContractError::Unauthorized);
    }
    let i: usize = index as usize;
    let event = Event::BurnedByAdmin {
        nft_addr: stakings[i].nft_addr.clone(),
        token_id: stakings[i].token_id.clone(),
        index,
    };
    let burn = CustodyCommand::Burn {
        nft_addr: stakings[i].nft_addr.clone(),
        token_id: stakings[i].token_id.clone(),
    };
    let ghost updated = RecordModel {
        is_burned_by_admin: true,
        ..old(stakings).deep_view()[index as int]
    };
    stakings[i].is_burned_by_admin = true;
    let mut commands: Vec<CustodyCommand> = Vec::new();
    commands.push(burn);
    let resp = Response { event, commands };
    proof {
        assert(stakings.deep_view() =~= old(stakings).deep_view().update(index as int, updated));
        assert(resp.deep_view().commands =~= seq![
            CommandModel::Burn {
                nft_addr: old(stakings).deep_view()[index as int].nft_addr,
                token_id: old(stakings).deep_view()[index as int].token_id,
            }
        ]);
    }
    Ok(resp)
}

/// A claim by `sender` of the record at `index` in `stakings`, its own
/// record list, at time `now`. Behaves as `spec_claim` states: once the
/// deadline is not in the future — and a record that never began unbonding
/// has a zero deadline, so it is claimable at once — the token goes back to
/// the depositor by a transfer command. The record itself is not changed.
pub fn execute_claim(
    stakings: &Vec<Staking>,
    sender: &String,
    index: u64,
    now: u64,
) -> (r: Result<Response, ContractError>)
    ensures
        ({
            let outcome = spec_claim(stakings.deep_view(), sender@, index, now);
            match outcome {
                Ok(respm) => r matches Ok(resp) && resp.deep_view() == respm,
                Err(e) => r == Err::<Response, ContractError>(e),
            }
        }),
{
    if index >= stakings.len() as u64 {
        return Err(ContractError::RecordNotFound);
    }
    let i: usize = index as usize;
    if *sender != stakings[i].sender {
        return Err(ContractError::Unauthorized);
    }
    if stakings[i].is_burned_by_admin {
        return Err(ContractError::StakedTokenIsBurnedByAdmin);
    }
    if stakings[i].end_timestamp > now {
        return Err(ContractError::StillUnbonding { will_finish: stakings[i].end_timestamp });
    }
    let event = Event::Claimed {
        nft_addr: stakings[i].nft_addr.clone(),
        token_id: stakings[i].token_id.clone(),
        index,
    };
    let transfer = CustodyCommand::Transfer {
        nft_addr: stakings[i].nft_addr.clone(),
        recipient: sender.clone(),
        token_id: stakings[i].token_id.clone(),
    };
    let mut commands: Vec<CustodyCommand> = Vec::new();
    commands.push(transfer);
    let resp = Response { event, commands };
    proof {
        assert(resp.deep_view().commands =~= seq![
            CommandModel::Transfer {
                nft_addr: stakings.deep_view()[index as int].nft_addr,
                recipient: sender@,
                token_id: stakings.deep_view()[index as int].token_id,
            }
        ]);
    }
    Ok(resp)
}

/// An addition of `nft_addr` (validated by the host) to the allow list by
/// `sender`. Behaves as `spec_add_collection` states.
pub fn execute_add_collection(
    config: &mut Config,
    sender: &String,
    nft_addr: String,
) -> (r: Result<Response, ContractError>)
    ensures
        ({
            let outcome = spec_add_collection(old(config).deep_view(), sender@, nft_addr@);
            match outcome {
                Ok((c2, respm)) => r matches Ok(resp) && final(config).deep_view() == c2
                    && resp.deep_view() == respm,
                Err(e) => r == Err::<Response, ContractError>(e) && final(config).deep_view()
                    == old(config).deep_view(),
            }
        }),
{
    if *sender != config.admin {
        return Err(ContractError::Unauthorized);
    }
    if contains_addr(&config.whitelisted_nft_addrs, &nft_addr) {
        return Err(ContractError::AlreadyWhitelisted);
    }
    config.whitelisted_nft_addrs.push(nft_addr.clone());
    let resp = Response { event: Event::CollectionAdded { nft_addr }, commands: Vec::new() };
    proof {
        assert(config.deep_view().whitelisted_nft_addrs =~= old(
            config,
        ).deep_view().whitelisted_nft_addrs.push(nft_addr@));
        assert(resp.deep_view().commands =~= Seq::<CommandModel>::empty());
    }
    Ok(resp)
}

/// A removal of `nft_addr` from the allow list by `sender`. Behaves as
/// `spec_remove_collection` states: the first matching entry goes, the rest
/// keep their order.
pub fn execute_remove_collection(
    config: &mut Config,
    sender: &String,
    nft_addr: String,
) -> (r: Result<Response, ContractError>)
    ensures
        ({
            let outcome = spec_remove_collection(old(config).deep_view(), sender@, nft_addr@);
            match outcome {
                Ok((c2, respm)) => r matches Ok(resp) && final(config).deep_view() == c2
                    && resp.deep_view() == respm,
                Err(e) => r == Err::<Response, ContractError>(e) && final(config).deep_view()
                    == old(config).deep_view(),
            }
        }),
{
    if *sender != config.admin {
        return Err(ContractError::Unauthorized);
    }
    match find_addr(&config.whitelisted_nft_addrs, &nft_addr) {
        Some(i) => {
            proof {
                config.whitelisted_nft_addrs.deep_view().index_of_first_ensures(nft_addr@);
            }
            config.whitelisted_nft_addrs.remove(i);
            let resp = Response {
                event: Event::CollectionRemoved { nft_addr },
                commands: Vec::new(),
            };
            proof {
                assert(config.deep_view().whitelisted_nft_addrs =~= old(
                    config,
                ).deep_view().whitelisted_nft_addrs.remove(i as int));
                assert(resp.deep_view().commands =~= Seq::<CommandModel>::empty());
            }
            Ok(resp)
        },
        None => Err(ContractError::NotWhitelisted),
    }
}

/// The key under which the record list that `msg` touches is stored: the
/// reported depositor for a deposit notification, the caller for everything
/// else.
pub fn staking_key(msg: &ExecuteMsg, sender: &String) -> (k: String)
    ensures
        k@ == spec_staking_key(msg.deep_view(), sender@),
{
    match msg {
        ExecuteMsg::ReceiveNft { sender: depositor, .. } => depositor.clone(),
        _ => sender.clone(),
    }
}

/// One dispatch step: applies the operation `msg` selects. `sender` is the
/// caller of the inbound request; `stakings` is the record list stored under
/// `staking_key(&msg, &sender)`, which the host loads before the call and
/// persists only on success. Behaves as `spec_execute` states.
pub fn execute(
    config: &mut Config,
    stakings: &mut Vec<Staking>,
    sender: &String,
    now: u64,
    msg: ExecuteMsg,
) -> (r: Result<Response, ContractError>)
    requires
        (msg matches ExecuteMsg::Unstake { .. }) ==> now + UNBONDING_PERIOD <= u64::MAX,
    ensures
        ({
            let outcome = spec_execute(
                old(config).deep_view(),
                old(stakings).deep_view(),
                sender@,
                now,
                msg.deep_view(),
            );
            match outcome {
                Ok((c2, recs2, respm)) => r matches Ok(resp) && final(config).deep_view() == c2
                    && final(stakings).deep_view() == recs2 && resp.deep_view() == respm,
                Err(e) => r == Err::<Response, ContractError>(e) && final(config).deep_view()
                    == old(config).deep_view() && final(stakings).deep_view() == old(
                    stakings,
                ).deep_view(),
            }
        }),
{
    match msg {
        ExecuteMsg::ReceiveNft { sender: depositor, token_id } => execute_stake(
            config,
            stakings,
            sender.clone(),
            depositor,
            token_id,
            now,
        ),
        ExecuteMsg::Unstake { index } => execute_unstake(stakings, sender, index, now),
        ExecuteMsg::Claim { index } => execute_claim(stakings, sender, index, now),
        ExecuteMsg::AdminBurn { index } => execute_admin_burn(config, stakings, sender, index),
        ExecuteMsg::AddCollection { nft_addr } => execute_add_collection(config, sender, nft_addr),
        ExecuteMsg::RemoveCollection { nft_addr } => execute_remove_collection(
            config,
            sender,
            nft_addr,
        ),
    }
}

/// The admin identity.
pub fn query_admin(config: &Config) -> (r: AdminAddressResponse)
    ensures
        r.admin@ == config.deep_view().admin,
{
    AdminAddressResponse { admin: config.admin.clone() }
}

/// The allow-listed collection addresses, in insertion order.
pub fn query_whitelisted_nft_addresses(config: &Config) -> (r: WhitelistedNftAddressesResponse)
    ensures
        r.nft_addrs.deep_view() == config.deep_view().whitelisted_nft_addrs,
{
    let r = WhitelistedNftAddressesResponse {
        nft_addrs: clone_strings(&config.whitelisted_nft_addrs),
    };
    proof {
        assert(r.nft_addrs.deep_view() =~= config.whitelisted_nft_addrs.deep_view());
    }
    r
}

/// The staking records of one depositor, in deposit order. `stakings` is the
/// stored list for the queried address, `None` when none was ever recorded;
/// the answer is then empty, never an error.
pub fn query_stakings_by_address(stakings: Option<Vec<Staking>>) -> (r: StakingsResponse)
    ensures
        r.stakings.deep_view() == match stakings {
            Some(s) => s.deep_view(),
            None => Seq::<RecordModel>::empty(),
        },
{
    match stakings {
        Some(s) => StakingsResponse { stakings: s },
        None => {
            let r = StakingsResponse { stakings: Vec::new() };
            proof {
                assert(r.stakings.deep_view() =~= Seq::<RecordModel>::empty());
            }
            r
        },
    }
}

/// One read-only dispatch step. For `StakingsByAddress`, `stakings` is the
/// stored list of the queried address; the other queries ignore it.
pub fn query(config: &Config, stakings: Option<Vec<Staking>>, msg: &QueryMsg) -> (r: QueryAnswer)
    ensures
        match msg {
            QueryMsg::WhitelistedNftAddresses => r matches QueryAnswer::WhitelistedNftAddresses(w)
                && w.nft_addrs.deep_view() == config.deep_view().whitelisted_nft_addrs,
            QueryMsg::AdminAddress => r matches QueryAnswer::AdminAddress(a) && a.admin@
                == config.deep_view().admin,
            QueryMsg::StakingsByAddress { .. } => r matches QueryAnswer::Stakings(s)
                && s.stakings.deep_view() == match stakings {
                Some(v) => v.deep_view(),
                None => Seq::<RecordModel>::empty(),
            },
        },
{
    match msg {
        QueryMsg::WhitelistedNftAddresses => QueryAnswer::WhitelistedNftAddresses(
            query_whitelisted_nft_addresses(config),
        ),
        QueryMsg::AdminAddress => QueryAnswer::AdminAddress(query_admin(config)),
        QueryMsg::StakingsByAddress { .. } => QueryAnswer::Stakings(
            query_stakings_by_address(stakings),
        ),
    }
}

} // verus!

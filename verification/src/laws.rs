//! Laws of the staking state machine, stated and proved over the functions
//! in `transitions` — the same functions the executable operations are
//! specified against, so each law carries over to the running code.

use vstd::prelude::*;
use crate::error::ContractError;
use crate::response::{EventModel, ResponseModel};
use crate::state::{ConfigModel, RecordModel};
use crate::transitions::{
    spec_add_collection, spec_admin_burn, spec_claim, spec_remove_collection, spec_stake,
    spec_unstake, wl_contains, UNBONDING_PERIOD,
};

verus! {

/// Law: a deposit into an allow-listed collection always succeeds, and the
/// new record stands at the index equal to the depositor's prior record
/// count — records are appended, never reordered — in the held state, with
/// `start_timestamp = now` and an unset deadline.
pub proof fn lemma_deposit_appends(
    config: ConfigModel,
    recs: Seq<RecordModel>,
    nft_addr: Seq<char>,
    sender: Seq<char>,
    token_id: Seq<char>,
    now: u64,
)
    requires
        wl_contains(config.whitelisted_nft_addrs, nft_addr),
    ensures
        spec_stake(config, recs, nft_addr, sender, token_id, now) matches Ok((recs2, _)) && {
            &&& recs2.len() == recs.len() + 1
            &&& recs2.subrange(0, recs.len() as int) == recs
            &&& recs2[recs.len() as int] == (RecordModel {
                nft_addr,
                token_id,
                sender,
                start_timestamp: now,
                end_timestamp: 0,
                is_burned_by_admin: false,
            })
        },
{
    let rec = RecordModel {
        nft_addr,
        token_id,
        sender,
        start_timestamp: now,
        end_timestamp: 0,
        is_burned_by_admin: false,
    };
    assert(recs.push(rec).subrange(0, recs.len() as int) =~= recs);
}

/// Law: requesting unbonding on a record whose deadline is unset — the
/// caller being its depositor and the record unseized — succeeds, sets the
/// deadline to `now + UNBONDING_PERIOD`, and reports that deadline in the
/// `Unstaked` event; a second request on the same record then fails
/// `AlreadyUnstaked`, whatever time it comes at.
pub proof fn lemma_unstake_once_then_already_unstaked(
    recs: Seq<RecordModel>,
    caller: Seq<char>,
    index: u64,
    now: u64,
    now2: u64,
)
    requires
        index < recs.len(),
        recs[index as int].end_timestamp == 0,
        caller == recs[index as int].sender,
        !recs[index as int].is_burned_by_admin,
        now + UNBONDING_PERIOD <= u64::MAX,
    ensures
        spec_unstake(recs, caller, index, now) matches Ok((recs2, resp)) && {
            &&& recs2[index as int].end_timestamp == now + UNBONDING_PERIOD
            &&& recs2[index as int].end_timestamp > 0
            &&& (resp.event matches EventModel::Unstaked { end_timestamp, .. } && end_timestamp
                == now + UNBONDING_PERIOD)
            &&& spec_unstake(recs2, caller, index, now2) == Err::<
                (Seq<RecordModel>, ResponseModel),
                ContractError,
            >(ContractError::AlreadyUnstaked)
        },
{
}

/// Law: a claim by the depositor on an unseized record fails
/// `StillUnbonding`, carrying the deadline, exactly as long as the deadline
/// lies in the future; at or after the deadline it succeeds. A record whose
/// unbonding was never requested has a zero deadline, which is never in the
/// future, so it is claimable at once.
pub proof fn lemma_claim_timing(recs: Seq<RecordModel>, caller: Seq<char>, index: u64, now: u64)
    requires
        index < recs.len(),
        caller == recs[index as int].sender,
        !recs[index as int].is_burned_by_admin,
    ensures
        now < recs[index as int].end_timestamp ==> spec_claim(recs, caller, index, now) == Err::<
            ResponseModel,
            ContractError,
        >(ContractError::StillUnbonding { will_finish: recs[index as int].end_timestamp }),
        now >= recs[index as int].end_timestamp ==> spec_claim(recs, caller, index, now) is Ok,
{
}

/// Law: a seizure by anyone but the admin fails `Unauthorized`, whatever the
/// record's state; by the admin it always succeeds, and afterwards the
/// depositor's claim fails `StakedTokenIsBurnedByAdmin` at any time, as does
/// a request to start unbonding — provided unbonding had not already been
/// requested, since such a request fails `AlreadyUnstaked` first.
pub proof fn lemma_seize_authorization(
    config: ConfigModel,
    recs: Seq<RecordModel>,
    caller: Seq<char>,
    index: u64,
    now: u64,
)
    requires
        index < recs.len(),
    ensures
        caller != config.admin ==> spec_admin_burn(config, recs, caller, index) == Err::<
            (Seq<RecordModel>, ResponseModel),
            ContractError,
        >(ContractError::Unauthorized),
        caller == config.admin ==> (spec_admin_burn(config, recs, caller, index) matches Ok(
            (recs2, _),
        ) && {
            let depositor = recs[index as int].sender;
            &&& recs2[index as int].is_burned_by_admin
            &&& spec_claim(recs2, depositor, index, now) == Err::<ResponseModel, ContractError>(
                ContractError::StakedTokenIsBurnedByAdmin,
            )
            &&& recs[index as int].end_timestamp == 0 ==> spec_unstake(recs2, depositor, index, now)
                == Err::<(Seq<RecordModel>, ResponseModel), ContractError>(
                ContractError::StakedTokenIsBurnedByAdmin,
            )
        }),
{
}

/// Law: adding a collection twice fails `AlreadyWhitelisted` at the second
/// call, whenever the first succeeded; and removing a collection that is not
/// on the allow list fails `NotWhitelisted`.
pub proof fn lemma_allow_list_membership(
    config: ConfigModel,
    caller: Seq<char>,
    nft_addr: Seq<char>,
)
    ensures
        spec_add_collection(config, caller, nft_addr) matches Ok((c2, _)) ==> spec_add_collection(
            c2,
            caller,
            nft_addr,
        ) == Err::<(ConfigModel, ResponseModel), ContractError>(ContractError::AlreadyWhitelisted),
        caller == config.admin && !wl_contains(config.whitelisted_nft_addrs, nft_addr)
            ==> spec_remove_collection(config, caller, nft_addr) == Err::<
            (ConfigModel, ResponseModel),
            ContractError,
        >(ContractError::NotWhitelisted),
{
    if spec_add_collection(config, caller, nft_addr) is Ok {
        let wl2 = config.whitelisted_nft_addrs.push(nft_addr);
        assert(wl2[config.whitelisted_nft_addrs.len() as int] == nft_addr);
        assert(wl_contains(wl2, nft_addr));
    }
    if caller == config.admin && !wl_contains(config.whitelisted_nft_addrs, nft_addr) {
        config.whitelisted_nft_addrs.index_of_first_ensures(nft_addr);
        if config.whitelisted_nft_addrs.index_of_first(nft_addr) is Some {
            let k = config.whitelisted_nft_addrs.index_of_first(nft_addr)->Some_0;
            assert(wl_contains(config.whitelisted_nft_addrs, nft_addr));
        }
    }
}

} // verus!

use nft_staking::contract::{
    execute, execute_add_collection, execute_admin_burn, execute_claim,
    execute_remove_collection, execute_stake, execute_unstake, instantiate, query, query_admin,
    query_stakings_by_address, query_whitelisted_nft_addresses, staking_key,
};
use nft_staking::error::ContractError;
use nft_staking::msg::{ExecuteMsg, InstantiateMsg, QueryAnswer, QueryMsg};
use nft_staking::response::{CustodyCommand, Event, Response};
use nft_staking::state::{Config, Staking};
use nft_staking::transitions::UNBONDING_PERIOD;

fn s(x: &str) -> String {
    x.to_string()
}

fn setup() -> Config {
    instantiate(s("creator"), InstantiateMsg { admin: Some(s("admin")), nft_addr: s("coll") })
}

fn deposit(config: &Config, stakings: &mut Vec<Staking>, depositor: &str, token: &str, now: u64) {
    let r = execute_stake(config, stakings, s("coll"), s(depositor), s(token), now);
    assert!(r.is_ok());
}

#[test]
fn instantiate_uses_validated_admin() {
    let config = setup();
    assert_eq!(config.admin, s("admin"));
    assert_eq!(config.whitelisted_nft_addrs, vec![s("coll")]);
}

#[test]
fn instantiate_falls_back_to_caller() {
    let config = instantiate(s("creator"), InstantiateMsg { admin: None, nft_addr: s("coll") });
    assert_eq!(config.admin, s("creator"));
    assert_eq!(config.whitelisted_nft_addrs, vec![s("coll")]);
}

#[test]
fn unbonding_period_is_fourteen_days_in_seconds() {
    assert_eq!(UNBONDING_PERIOD, 14 * 24 * 60 * 60);
    assert_eq!(UNBONDING_PERIOD, 1209600);
}

#[test]
fn deposit_appends_at_prior_record_count() {
    let config = setup();
    let mut stakings: Vec<Staking> = Vec::new();

    let r = execute_stake(&config, &mut stakings, s("coll"), s("dave"), s("tok1"), 7);
    assert_eq!(
        r,
        Ok(Response {
            event: Event::Staked {
                nft_addr: s("coll"),
                token_id: s("tok1"),
                sender: s("dave"),
                start_timestamp: 7,
            },
            commands: vec![],
        })
    );
    assert_eq!(stakings.len(), 1);

    let r2 = execute_stake(&config, &mut stakings, s("coll"), s("dave"), s("tok2"), 9);
    assert!(r2.is_ok());
    assert_eq!(stakings.len(), 2);
    assert_eq!(
        stakings[1],
        Staking {
            nft_addr: s("coll"),
            token_id: s("tok2"),
            sender: s("dave"),
            start_timestamp: 9,
            end_timestamp: 0,
            is_burned_by_admin: false,
        }
    );
}

#[test]
fn deposit_from_unlisted_collection_is_rejected() {
    let config = setup();
    let mut stakings: Vec<Staking> = Vec::new();
    let r = execute_stake(&config, &mut stakings, s("other"), s("dave"), s("tok1"), 0);
    assert_eq!(r, Err(ContractError::AlreadyWhitelisted));
    assert!(stakings.is_empty());
}

#[test]
fn unstake_sets_deadline_then_fails_already_unstaked() {
    let config = setup();
    let mut stakings: Vec<Staking> = Vec::new();
    deposit(&config, &mut stakings, "dave", "tok1", 0);

    let sender = s("dave");
    let r = execute_unstake(&mut stakings, &sender, 0, 0);
    assert_eq!(
        r,
        Ok(Response {
            event: Event::Unstaked {
                nft_addr: s("coll"),
                token_id: s("tok1"),
                sender: s("dave"),
                start_timestamp: 0,
                end_timestamp: 1209600,
                index: 0,
            },
            commands: vec![],
        })
    );
    assert_eq!(stakings[0].end_timestamp, 1209600);

    let again = execute_unstake(&mut stakings, &sender, 0, 50);
    assert_eq!(again, Err(ContractError::AlreadyUnstaked));
}

#[test]
fn unstake_by_non_depositor_is_unauthorized() {
    let config = setup();
    let mut stakings: Vec<Staking> = Vec::new();
    deposit(&config, &mut stakings, "dave", "tok1", 0);
    let r = execute_unstake(&mut stakings, &s("mallory"), 0, 0);
    assert_eq!(r, Err(ContractError::Unauthorized));
    assert_eq!(stakings[0].end_timestamp, 0);
}

#[test]
fn unstake_on_missing_record_fails_record_not_found() {
    let mut stakings: Vec<Staking> = Vec::new();
    let r = execute_unstake(&mut stakings, &s("dave"), 0, 0);
    assert_eq!(r, Err(ContractError::RecordNotFound));
}

#[test]
fn claim_respects_the_unbonding_deadline() {
    let config = setup();
    let mut stakings: Vec<Staking> = Vec::new();
    deposit(&config, &mut stakings, "dave", "tok1", 0);
    let sender = s("dave");
    execute_unstake(&mut stakings, &sender, 0, 0).unwrap();
    assert_eq!(stakings[0].end_timestamp, 1209600);

    let early = execute_claim(&stakings, &sender, 0, 1209599);
    assert_eq!(early, Err(ContractError::StillUnbonding { will_finish: 1209600 }));

    let on_time = execute_claim(&stakings, &sender, 0, 1209600);
    assert_eq!(
        on_time,
        Ok(Response {
            event: Event::Claimed { nft_addr: s("coll"), token_id: s("tok1"), index: 0 },
            commands: vec![CustodyCommand::Transfer {
                nft_addr: s("coll"),
                recipient: s("dave"),
                token_id: s("tok1"),
            }],
        })
    );
}

#[test]
fn claim_without_unstake_succeeds_at_once() {
    // A record that never began unbonding keeps the zero deadline, which is
    // never in the future, so a claim right after the deposit goes through.
    let config = setup();
    let mut stakings: Vec<Staking> = Vec::new();
    deposit(&config, &mut stakings, "dave", "tok1", 0);
    assert_eq!(stakings[0].start_timestamp, 0);
    assert_eq!(stakings[0].end_timestamp, 0);

    let r = execute_claim(&stakings, &s("dave"), 0, 1);
    assert_eq!(
        r,
        Ok(Response {
            event: Event::Claimed { nft_addr: s("coll"), token_id: s("tok1"), index: 0 },
            commands: vec![CustodyCommand::Transfer {
                nft_addr: s("coll"),
                recipient: s("dave"),
                token_id: s("tok1"),
            }],
        })
    );
    // The record is not changed by a claim, so a repeated claim reissues the
    // transfer command.
    let again = execute_claim(&stakings, &s("dave"), 0, 2);
    assert!(again.is_ok());
}

#[test]
fn claim_by_non_depositor_is_unauthorized() {
    let config = setup();
    let mut stakings: Vec<Staking> = Vec::new();
    deposit(&config, &mut stakings, "dave", "tok1", 0);
    let r = execute_claim(&stakings, &s("mallory"), 0, 5);
    assert_eq!(r, Err(ContractError::Unauthorized));
}

#[test]
fn claim_on_missing_record_fails_record_not_found() {
    let stakings: Vec<Staking> = Vec::new();
    let r = execute_claim(&stakings, &s("dave"), 3, 5);
    assert_eq!(r, Err(ContractError::RecordNotFound));
}

#[test]
fn seize_by_non_admin_is_unauthorized() {
    let config = setup();
    let mut stakings: Vec<Staking> = Vec::new();
    deposit(&config, &mut stakings, "dave", "tok1", 0);
    let r = execute_admin_burn(&config, &mut stakings, &s("mallory"), 0);
    assert_eq!(r, Err(ContractError::Unauthorized));
    assert!(!stakings[0].is_burned_by_admin);
}

#[test]
fn seize_then_depositor_operations_fail() {
    let config = setup();
    let mut stakings: Vec<Staking> = Vec::new();
    deposit(&config, &mut stakings, "dave", "tok1", 0);

    let r = execute_admin_burn(&config, &mut stakings, &s("admin"), 0);
    assert_eq!(
        r,
        Ok(Response {
            event: Event::BurnedByAdmin { nft_addr: s("coll"), token_id: s("tok1"), index: 0 },
            commands: vec![CustodyCommand::Burn { nft_addr: s("coll"), token_id: s("tok1") }],
        })
    );
    assert!(stakings[0].is_burned_by_admin);

    let sender = s("dave");
    let unstake = execute_unstake(&mut stakings, &sender, 0, 10);
    assert_eq!(unstake, Err(ContractError::StakedTokenIsBurnedByAdmin));
    let claim = execute_claim(&stakings, &sender, 0, 10);
    assert_eq!(claim, Err(ContractError::StakedTokenIsBurnedByAdmin));
}

#[test]
fn reseize_reissues_the_burn_command() {
    let config = setup();
    let mut stakings: Vec<Staking> = Vec::new();
    deposit(&config, &mut stakings, "dave", "tok1", 0);
    execute_admin_burn(&config, &mut stakings, &s("admin"), 0).unwrap();
    let again = execute_admin_burn(&config, &mut stakings, &s("admin"), 0);
    assert_eq!(
        again.unwrap().commands,
        vec![CustodyCommand::Burn { nft_addr: s("coll"), token_id: s("tok1") }]
    );
}

#[test]
fn seize_on_missing_record_fails_record_not_found() {
    let config = setup();
    let mut stakings: Vec<Staking> = Vec::new();
    let r = execute_admin_burn(&config, &mut stakings, &s("admin"), 0);
    assert_eq!(r, Err(ContractError::RecordNotFound));
}

#[test]
fn add_collection_twice_fails_already_whitelisted() {
    let mut config = setup();
    let admin = s("admin");
    let first = execute_add_collection(&mut config, &admin, s("c2"));
    assert_eq!(
        first,
        Ok(Response { event: Event::CollectionAdded { nft_addr: s("c2") }, commands: vec![] })
    );
    assert_eq!(config.whitelisted_nft_addrs, vec![s("coll"), s("c2")]);

    let second = execute_add_collection(&mut config, &admin, s("c2"));
    assert_eq!(second, Err(ContractError::AlreadyWhitelisted));
    assert_eq!(config.whitelisted_nft_addrs, vec![s("coll"), s("c2")]);
}

#[test]
fn remove_absent_collection_fails_not_whitelisted() {
    let mut config = setup();
    let r = execute_remove_collection(&mut config, &s("admin"), s("ghost"));
    assert_eq!(r, Err(ContractError::NotWhitelisted));
    assert_eq!(config.whitelisted_nft_addrs, vec![s("coll")]);
}

#[test]
fn remove_collection_keeps_the_order_of_the_rest() {
    let mut config = setup();
    let admin = s("admin");
    execute_add_collection(&mut config, &admin, s("c2")).unwrap();
    execute_add_collection(&mut config, &admin, s("c3")).unwrap();
    let r = execute_remove_collection(&mut config, &admin, s("c2"));
    assert_eq!(
        r,
        Ok(Response { event: Event::CollectionRemoved { nft_addr: s("c2") }, commands: vec![] })
    );
    assert_eq!(config.whitelisted_nft_addrs, vec![s("coll"), s("c3")]);
}

#[test]
fn allow_list_changes_by_non_admin_are_unauthorized() {
    let mut config = setup();
    let mallory = s("mallory");
    assert_eq!(
        execute_add_collection(&mut config, &mallory, s("c2")),
        Err(ContractError::Unauthorized)
    );
    assert_eq!(
        execute_remove_collection(&mut config, &mallory, s("coll")),
        Err(ContractError::Unauthorized)
    );
    assert_eq!(config.whitelisted_nft_addrs, vec![s("coll")]);
}

#[test]
fn staking_key_is_the_depositor_for_deposits_and_the_caller_otherwise() {
    let receive = ExecuteMsg::ReceiveNft { sender: s("dave"), token_id: s("tok1") };
    assert_eq!(staking_key(&receive, &s("coll")), s("dave"));
    let unstake = ExecuteMsg::Unstake { index: 0 };
    assert_eq!(staking_key(&unstake, &s("dave")), s("dave"));
}

#[test]
fn dispatcher_routes_a_full_lifecycle() {
    let mut config = setup();
    let mut stakings: Vec<Staking> = Vec::new();

    // The collection itself is the caller of the deposit notification.
    let coll = s("coll");
    let dep = execute(
        &mut config,
        &mut stakings,
        &coll,
        0,
        ExecuteMsg::ReceiveNft { sender: s("dave"), token_id: s("tok1") },
    );
    assert!(dep.is_ok());
    assert_eq!(stakings.len(), 1);

    let dave = s("dave");
    let unstake = execute(&mut config, &mut stakings, &dave, 0, ExecuteMsg::Unstake { index: 0 });
    assert!(unstake.is_ok());
    assert_eq!(stakings[0].end_timestamp, 1209600);

    let early = execute(&mut config, &mut stakings, &dave, 100, ExecuteMsg::Claim { index: 0 });
    assert_eq!(early, Err(ContractError::StillUnbonding { will_finish: 1209600 }));

    let claim = execute(&mut config, &mut stakings, &dave, 1209600, ExecuteMsg::Claim {
        index: 0,
    });
    assert_eq!(
        claim.unwrap().commands,
        vec![CustodyCommand::Transfer {
            nft_addr: s("coll"),
            recipient: s("dave"),
            token_id: s("tok1"),
        }]
    );

    let admin = s("admin");
    let burn = execute(&mut config, &mut stakings, &admin, 1209601, ExecuteMsg::AdminBurn {
        index: 0,
    });
    assert_eq!(
        burn.unwrap().commands,
        vec![CustodyCommand::Burn { nft_addr: s("coll"), token_id: s("tok1") }]
    );
    assert!(stakings[0].is_burned_by_admin);

    let add = execute(&mut config, &mut stakings, &admin, 0, ExecuteMsg::AddCollection {
        nft_addr: s("c2"),
    });
    assert!(add.is_ok());
    let rem = execute(&mut config, &mut stakings, &admin, 0, ExecuteMsg::RemoveCollection {
        nft_addr: s("c2"),
    });
    assert!(rem.is_ok());
    assert_eq!(config.whitelisted_nft_addrs, vec![s("coll")]);
}

#[test]
fn queries_report_the_stored_state() {
    let config = setup();
    assert_eq!(query_admin(&config).admin, s("admin"));
    assert_eq!(query_whitelisted_nft_addresses(&config).nft_addrs, vec![s("coll")]);

    let none = query_stakings_by_address(None);
    assert!(none.stakings.is_empty());

    let mut stakings: Vec<Staking> = Vec::new();
    deposit(&config, &mut stakings, "dave", "tok1", 3);
    let some = query_stakings_by_address(Some(stakings));
    assert_eq!(some.stakings.len(), 1);
    assert_eq!(some.stakings[0].token_id, s("tok1"));
}

#[test]
fn query_dispatcher_answers_each_variant() {
    let config = setup();
    match query(&config, None, &QueryMsg::AdminAddress) {
        QueryAnswer::AdminAddress(a) => assert_eq!(a.admin, s("admin")),
        other => panic!("unexpected answer: {:?}", other),
    }
    match query(&config, None, &QueryMsg::WhitelistedNftAddresses) {
        QueryAnswer::WhitelistedNftAddresses(w) => {
            assert_eq!(w.nft_addrs, vec![s("coll")]);
        }
        other => panic!("unexpected answer: {:?}", other),
    }
    let mut stakings: Vec<Staking> = Vec::new();
    deposit(&config, &mut stakings, "dave", "tok1", 0);
    match query(
        &config,
        Some(stakings),
        &QueryMsg::StakingsByAddress { address: s("dave") },
    ) {
        QueryAnswer::Stakings(resp) => assert_eq!(resp.stakings.len(), 1),
        other => panic!("unexpected answer: {:?}", other),
    }
}

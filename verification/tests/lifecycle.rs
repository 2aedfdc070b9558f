//! End-to-end scenarios of the option lifecycle.

use option_escrow::{
    handle, handle_burn, handle_execute, handle_transfer, init, query, query_config, Coin, Env,
    Error, HandleMsg, InitMsg, QueryMsg, State,
};

fn coin(amount: u128, denom: &str) -> Coin {
    Coin { denom: denom.to_string(), amount }
}

fn coins(amount: u128, denom: &str) -> Vec<Coin> {
    vec![coin(amount, denom)]
}

fn env(height: u64, sender: &str, sent_funds: Vec<Coin>) -> Env {
    Env { height, sender: sender.to_string(), sent_funds, contract: "contract".to_string() }
}

fn created_option() -> State {
    let e = env(100, "alice", coins(1000, "earth"));
    let msg = InitMsg { counter_offer: coins(500, "token"), expires: 200 };
    init(&e, msg).unwrap()
}

#[test]
fn proper_initialization() {
    let e = env(100, "creator", coins(1000, "earth"));
    let msg = InitMsg { counter_offer: coins(500, "token"), expires: 200 };
    let state = init(&e, msg).unwrap();
    assert_eq!(state.creator, "creator".to_string());
    assert_eq!(state.owner, "creator".to_string());
    assert_eq!(state.collateral, coins(1000, "earth"));
    assert_eq!(state.counter_offer, coins(500, "token"));
    assert_eq!(state.expires, 200);

    let read = query(Some(&state), QueryMsg::Config {}).unwrap();
    assert_eq!(read, state);
}

#[test]
fn transfer_then_execute() {
    let state = created_option();

    let (state, resp) =
        handle_transfer(Some(&state), &env(110, "alice", vec![]), "bob".to_string()).unwrap();
    assert_eq!(resp.messages.len(), 0);
    assert_eq!(resp.logs.len(), 2);
    assert_eq!(resp.logs[0].key, "action".to_string());
    assert_eq!(resp.logs[0].value, "transfer".to_string());
    assert_eq!(resp.logs[1].key, "owner".to_string());
    assert_eq!(resp.logs[1].value, "bob".to_string());
    assert_eq!(state.owner, "bob".to_string());
    assert_eq!(state.creator, "alice".to_string());

    let resp = handle_execute(Some(&state), &env(150, "bob", coins(500, "token"))).unwrap();
    assert_eq!(resp.messages.len(), 2);
    assert_eq!(resp.messages[0].from, "contract".to_string());
    assert_eq!(resp.messages[0].to, "alice".to_string());
    assert_eq!(resp.messages[0].amount, coins(500, "token"));
    assert_eq!(resp.messages[1].from, "contract".to_string());
    assert_eq!(resp.messages[1].to, "bob".to_string());
    assert_eq!(resp.messages[1].amount, coins(1000, "earth"));
    assert_eq!(resp.logs.len(), 1);
    assert_eq!(resp.logs[0].key, "action".to_string());
    assert_eq!(resp.logs[0].value, "execute".to_string());

    // Through the dispatcher the record comes back deleted.
    let (next, _) =
        handle(Some(&state), &env(150, "bob", coins(500, "token")), HandleMsg::Execute {}).unwrap();
    assert!(next.is_none());
}

#[test]
fn expired_execute_then_burn() {
    let state = created_option();
    let (state, _) =
        handle_transfer(Some(&state), &env(110, "alice", vec![]), "bob".to_string()).unwrap();

    let err = handle_execute(Some(&state), &env(250, "bob", coins(500, "token"))).unwrap_err();
    assert_eq!(err, Error::Expired);

    let resp = handle_burn(Some(&state), &env(250, "anyone", vec![])).unwrap();
    assert_eq!(resp.messages.len(), 1);
    assert_eq!(resp.messages[0].from, "contract".to_string());
    assert_eq!(resp.messages[0].to, "alice".to_string());
    assert_eq!(resp.messages[0].amount, coins(1000, "earth"));
    assert_eq!(resp.logs.len(), 1);
    assert_eq!(resp.logs[0].key, "action".to_string());
    assert_eq!(resp.logs[0].value, "burn".to_string());

    let (next, _) = handle(Some(&state), &env(250, "anyone", vec![]), HandleMsg::Burn {}).unwrap();
    assert!(next.is_none());
}

#[test]
fn fund_mismatch_keeps_record() {
    let state = created_option();
    let (state, _) =
        handle_transfer(Some(&state), &env(110, "alice", vec![]), "bob".to_string()).unwrap();

    let err = handle_execute(Some(&state), &env(150, "bob", coins(400, "token"))).unwrap_err();
    assert_eq!(err, Error::FundMismatch { expected: coins(500, "token") });

    // The record was only borrowed: it is unchanged and still queryable.
    let read = query_config(Some(&state)).unwrap();
    assert_eq!(read, state);
    assert_eq!(read.owner, "bob".to_string());
}

#[test]
fn deletion_is_final() {
    let state = created_option();
    let (next, _) =
        handle(Some(&state), &env(150, "alice", coins(500, "token")), HandleMsg::Execute {})
            .unwrap();
    assert!(next.is_none());

    let err = handle(None, &env(151, "alice", vec![]), HandleMsg::Burn {}).unwrap_err();
    assert_eq!(err, Error::NotFound);
    let err =
        handle(None, &env(151, "alice", vec![]), HandleMsg::Transfer { recipient: "bob".to_string() })
            .unwrap_err();
    assert_eq!(err, Error::NotFound);
    let err = query(None, QueryMsg::Config {}).unwrap_err();
    assert_eq!(err, Error::NotFound);
    let err = query_config(None).unwrap_err();
    assert_eq!(err, Error::NotFound);
}

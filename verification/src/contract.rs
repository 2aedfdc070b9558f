//! The transition engine: the one place the option's lifecycle rules live.
//!
//! Each executable entry point is proved to return exactly what the matching
//! specification-level transition says, for every input: the same record, the
//! same effects and logs on success, the same error otherwise.

use vstd::prelude::*;

use crate::error::{ErrV, Error};
use crate::funds::{funds_eq, funds_match};
use crate::msg::{ConfigResponse, HandleMsg, HandleMsgV, InitMsg, InitMsgV, QueryMsg};
use crate::state::{clone_coins, funds_of, Coin, CoinV, Env, EnvV, State, StateV};

verus! {

/// One outbound fund transfer, queued by a successful transition and executed
/// by the host after the call returns.
#[derive(Debug, PartialEq)]
pub struct BankSend {
    pub from: String,
    pub to: String,
    pub amount: Vec<Coin>,
}

/// Mathematical image of a [`BankSend`].
#[verifier::ext_equal]
pub struct BankSendV {
    pub from: Seq<char>,
    pub to: Seq<char>,
    pub amount: Seq<CoinV>,
}

impl View for BankSend {
    type V = BankSendV;

    open spec fn view(&self) -> BankSendV {
        BankSendV { from: self.from@, to: self.to@, amount: funds_of(self.amount@) }
    }
}

/// One key-value audit log entry.
#[derive(Debug, PartialEq)]
pub struct LogEntry {
    pub key: String,
    pub value: String,
}

impl View for LogEntry {
    type V = (Seq<char>, Seq<char>);

    open spec fn view(&self) -> (Seq<char>, Seq<char>) {
        (self.key@, self.value@)
    }
}

/// What a successful transition hands back to the host: ordered fund
/// transfers, then ordered log entries.
#[derive(Debug, PartialEq)]
pub struct Response {
    pub messages: Vec<BankSend>,
    pub logs: Vec<LogEntry>,
}

/// Mathematical image of a [`Response`].
#[verifier::ext_equal]
pub struct RespV {
    pub messages: Seq<BankSendV>,
    pub logs: Seq<(Seq<char>, Seq<char>)>,
}

impl View for Response {
    type V = RespV;

    open spec fn view(&self) -> RespV {
        RespV {
            messages: self.messages@.map_values(|m: BankSend| m@),
            logs: self.logs@.map_values(|l: LogEntry| l@),
        }
    }
}

/// The record the engine was handed, if one exists.
pub open spec fn record_view(record: Option<&State>) -> Option<StateV> {
    match record {
        Option::Some(s) => Option::Some(s@),
        Option::None => Option::None,
    }
}

/// The record a transition asks the host to persist: present after a
/// transfer, absent after an execute or a burn.
pub open spec fn saved_view(record: Option<State>) -> Option<StateV> {
    match record {
        Option::Some(s) => Option::Some(s@),
        Option::None => Option::None,
    }
}

/// What creation returns: a fresh record owned by its creator, holding the
/// attached funds as collateral, provided the expiry lies strictly ahead.
pub open spec fn spec_init(env: EnvV, msg: InitMsgV) -> Result<StateV, ErrV> {
    if msg.expires <= env.height {
        Err(ErrV::InvalidExpiry)
    } else {
        Ok(
            StateV {
                creator: env.sender,
                owner: env.sender,
                collateral: env.sent_funds,
                counter_offer: msg.counter_offer,
                expires: msg.expires,
            },
        )
    }
}

/// What a transfer returns: the same record with only the owner replaced,
/// provided the sender is the current owner.
pub open spec fn spec_transfer(s: StateV, sender: Seq<char>, recipient: Seq<char>) -> Result<
    (StateV, RespV),
    ErrV,
> {
    if sender != s.owner {
        Err(ErrV::Unauthorized)
    } else {
        Ok(
            (
                StateV { owner: recipient, ..s },
                RespV {
                    messages: Seq::empty(),
                    logs: seq![("action"@, "transfer"@), ("owner"@, recipient)],
                },
            ),
        )
    }
}

/// What an execute returns: the counter-offer paid to the creator, then the
/// collateral paid to the owner, provided the sender is the owner, the option
/// has not expired, and the attached funds equal the counter-offer exactly.
pub open spec fn spec_execute(s: StateV, env: EnvV) -> Result<RespV, ErrV> {
    if env.sender != s.owner {
        Err(ErrV::Unauthorized)
    } else if env.height >= s.expires {
        Err(ErrV::Expired)
    } else if !funds_eq(env.sent_funds, s.counter_offer) {
        Err(ErrV::FundMismatch { expected: s.counter_offer })
    } else {
        Ok(
            RespV {
                messages: seq![
                    BankSendV { from: env.contract, to: s.creator, amount: s.counter_offer },
                    BankSendV { from: env.contract, to: s.owner, amount: s.collateral },
                ],
                logs: seq![("action"@, "execute"@)],
            },
        )
    }
}

/// What a burn returns: the collateral paid back to the creator, provided the
/// option has expired and no funds are attached. Any caller may burn.
pub open spec fn spec_burn(s: StateV, env: EnvV) -> Result<RespV, ErrV> {
    if env.height < s.expires {
        Err(ErrV::NotYetExpired)
    } else if env.sent_funds.len() != 0 {
        Err(ErrV::UnexpectedFunds)
    } else {
        Ok(
            RespV {
                messages: seq![
                    BankSendV { from: env.contract, to: s.creator, amount: s.collateral },
                ],
                logs: seq![("action"@, "burn"@)],
            },
        )
    }
}

/// One step of the state machine: dispatches a request against the current
/// record and says which record the host must persist afterwards.
pub open spec fn spec_handle(rec: Option<StateV>, env: EnvV, msg: HandleMsgV) -> Result<
    (Option<StateV>, RespV),
    ErrV,
> {
    match rec {
        Option::None => Err(ErrV::NotFound),
        Option::Some(s) => match msg {
            HandleMsgV::Transfer { recipient } => match spec_transfer(s, env.sender, recipient) {
                Ok((s2, resp)) => Ok((Option::Some(s2), resp)),
                Err(e) => Err(e),
            },
            HandleMsgV::Execute {  } => match spec_execute(s, env) {
                Ok(resp) => Ok((Option::None, resp)),
                Err(e) => Err(e),
            },
            HandleMsgV::Burn {  } => match spec_burn(s, env) {
                Ok(resp) => Ok((Option::None, resp)),
                Err(e) => Err(e),
            },
        },
    }
}

/// What a configuration query returns: the record verbatim, if one exists.
pub open spec fn spec_query_config(rec: Option<StateV>) -> Result<StateV, ErrV> {
    match rec {
        Option::Some(s) => Ok(s),
        Option::None => Err(ErrV::NotFound),
    }
}

/// Creates the option record. Fails with `InvalidExpiry` unless the expiry
/// lies strictly after the current height; otherwise the creator becomes the
/// first owner and the attached funds become the collateral.
pub fn init(env: &Env, msg: InitMsg) -> (r: Result<State, Error>)
    ensures
        match r {
            Ok(s) => spec_init(env@, msg@) == Ok::<StateV, ErrV>(s@),
            Err(e) => spec_init(env@, msg@) == Err::<StateV, ErrV>(e@),
        },
{
    if msg.expires <= env.height {
        return Err(Error::InvalidExpiry);
    }
    let state = State {
        creator: env.sender.clone(),
        owner: env.sender.clone(),
        collateral: clone_coins(&env.sent_funds),
        counter_offer: msg.counter_offer,
        expires: msg.expires,
    };
    proof {
        assert(state@ =~= spec_init(env@, msg@)->Ok_0);
    }
    Ok(state)
}

/// Hands the option to a new owner. Only the current owner may transfer;
/// nothing but the owner field changes, and no funds move.
pub fn handle_transfer(record: Option<&State>, env: &Env, recipient: String) -> (r: Result<
    (State, Response),
    Error,
>)
    ensures
        ({
            let s = spec_handle(
                record_view(record),
                env@,
                HandleMsgV::Transfer { recipient: recipient@ },
            );
            match r {
                Ok((st, resp)) => s == Ok::<(Option<StateV>, RespV), ErrV>(
                    (Option::Some(st@), resp@),
                ),
                Err(e) => s == Err::<(Option<StateV>, RespV), ErrV>(e@),
            }
        }),
{
    let state = match record {
        Option::Some(s) => s,
        Option::None => {
            return Err(Error::NotFound);
        },
    };
    if !(env.sender == state.owner) {
        return Err(Error::Unauthorized);
    }
    let new_state = State {
        creator: state.creator.clone(),
        owner: recipient.clone(),
        collateral: clone_coins(&state.collateral),
        counter_offer: clone_coins(&state.counter_offer),
        expires: state.expires,
    };
    let mut logs: Vec<LogEntry> = Vec::new();
    logs.push(LogEntry { key: "action".to_owned(), value: "transfer".to_owned() });
    logs.push(LogEntry { key: "owner".to_owned(), value: recipient });
    let resp = Response { messages: Vec::new(), logs };
    proof {
        assert(new_state@ =~= StateV { owner: new_state.owner@, ..state@ });
        assert(resp@ =~= spec_transfer(state@, env@.sender, new_state.owner@)->Ok_0.1);
    }
    Ok((new_state, resp))
}

/// Exchanges the counter-offer for the collateral and retires the option.
/// Only the owner may execute, only before expiry, and only with funds that
/// equal the counter-offer exactly; the counter-offer goes to the creator and
/// the collateral to the owner, in that order.
pub fn handle_execute(record: Option<&State>, env: &Env) -> (r: Result<Response, Error>)
    ensures
        ({
            let s = spec_handle(record_view(record), env@, HandleMsgV::Execute {  });
            match r {
                Ok(resp) => s == Ok::<(Option<StateV>, RespV), ErrV>((Option::None, resp@)),
                Err(e) => s == Err::<(Option<StateV>, RespV), ErrV>(e@),
            }
        }),
{
    let state = match record {
        Option::Some(s) => s,
        Option::None => {
            return Err(Error::NotFound);
        },
    };
    if !(env.sender == state.owner) {
        return Err(Error::Unauthorized);
    }
    if env.height >= state.expires {
        return Err(Error::Expired);
    }
    if !funds_match(&env.sent_funds, &state.counter_offer) {
        let expected = clone_coins(&state.counter_offer);
        proof {
            assert(ErrV::FundMismatch { expected: funds_of(expected@) } =~= ErrV::FundMismatch {
                expected: state@.counter_offer,
            });
        }
        return Err(Error::FundMismatch { expected });
    }
    let mut messages: Vec<BankSend> = Vec::new();
    messages.push(
        BankSend {
            from: env.contract.clone(),
            to: state.creator.clone(),
            amount: clone_coins(&state.counter_offer),
        },
    );
    messages.push(
        BankSend {
            from: env.contract.clone(),
            to: state.owner.clone(),
            amount: clone_coins(&state.collateral),
        },
    );
    let mut logs: Vec<LogEntry> = Vec::new();
    logs.push(LogEntry { key: "action".to_owned(), value: "execute".to_owned() });
    let resp = Response { messages, logs };
    proof {
        assert(resp@ =~= spec_execute(state@, env@)->Ok_0);
    }
    Ok(resp)
}

/// Reclaims the collateral for the creator once the option has expired. Any
/// caller may burn, but must attach no funds.
pub fn handle_burn(record: Option<&State>, env: &Env) -> (r: Result<Response, Error>)
    ensures
        ({
            let s = spec_handle(record_view(record), env@, HandleMsgV::Burn {  });
            match r {
                Ok(resp) => s == Ok::<(Option<StateV>, RespV), ErrV>((Option::None, resp@)),
                Err(e) => s == Err::<(Option<StateV>, RespV), ErrV>(e@),
            }
        }),
{
    let state = match record {
        Option::Some(s) => s,
        Option::None => {
            return Err(Error::NotFound);
        },
    };
    if env.height < state.expires {
        return Err(Error::NotYetExpired);
    }
    if !env.sent_funds.is_empty() {
        return Err(Error::UnexpectedFunds);
    }
    let mut messages: Vec<BankSend> = Vec::new();
    messages.push(
        BankSend {
            from: env.contract.clone(),
            to: state.creator.clone(),
            amount: clone_coins(&state.collateral),
        },
    );
    let mut logs: Vec<LogEntry> = Vec::new();
    logs.push(LogEntry { key: "action".to_owned(), value: "burn".to_owned() });
    let resp = Response { messages, logs };
    proof {
        assert(resp@ =~= spec_burn(state@, env@)->Ok_0);
    }
    Ok(resp)
}

/// Dispatches one request against the current record and returns the record
/// the host must persist next to the response.
pub fn handle(record: Option<&State>, env: &Env, msg: HandleMsg) -> (r: Result<
    (Option<State>, Response),
    Error,
>)
    ensures
        ({
            let s = spec_handle(record_view(record), env@, msg@);
            match r {
                Ok((st, resp)) => s == Ok::<(Option<StateV>, RespV), ErrV>(
                    (saved_view(st), resp@),
                ),
                Err(e) => s == Err::<(Option<StateV>, RespV), ErrV>(e@),
            }
        }),
{
    match msg {
        HandleMsg::Transfer { recipient } => match handle_transfer(record, env, recipient) {
            Ok((st, resp)) => Ok((Option::Some(st), resp)),
            Err(e) => Err(e),
        },
        HandleMsg::Execute {  } => match handle_execute(record, env) {
            Ok(resp) => Ok((Option::None, resp)),
            Err(e) => Err(e),
        },
        HandleMsg::Burn {  } => match handle_burn(record, env) {
            Ok(resp) => Ok((Option::None, resp)),
            Err(e) => Err(e),
        },
    }
}

/// Answers a read-only request. The record is returned verbatim; nothing
/// changes and no effects are queued.
pub fn query(record: Option<&State>, msg: QueryMsg) -> (r: Result<ConfigResponse, Error>)
    ensures
        match r {
            Ok(c) => spec_query_config(record_view(record)) == Ok::<StateV, ErrV>(c@),
            Err(e) => spec_query_config(record_view(record)) == Err::<StateV, ErrV>(e@),
        },
{
    match msg {
        QueryMsg::Config {  } => query_config(record),
    }
}

/// Returns the record verbatim, or `NotFound` when none exists.
pub fn query_config(record: Option<&State>) -> (r: Result<ConfigResponse, Error>)
    ensures
        match r {
            Ok(c) => spec_query_config(record_view(record)) == Ok::<StateV, ErrV>(c@),
            Err(e) => spec_query_config(record_view(record)) == Err::<StateV, ErrV>(e@),
        },
{
    match record {
        Option::Some(s) => Ok(s.clone()),
        Option::None => Err(Error::NotFound),
    }
}

} // verus!

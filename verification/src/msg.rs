//! The request surface of the contract, as plain values. Wire decoding and
//! encoding belong to the host side, outside this crate.

use vstd::prelude::*;

use crate::state::{funds_of, Coin, CoinV, State};

verus! {

/// Parameters of creation. Funds attached to the creating call become the
/// collateral.
#[derive(Debug, PartialEq)]
pub struct InitMsg {
    pub counter_offer: Vec<Coin>,
    pub expires: u64,
}

/// Mathematical image of an [`InitMsg`].
#[verifier::ext_equal]
pub struct InitMsgV {
    pub counter_offer: Seq<CoinV>,
    pub expires: u64,
}

impl View for InitMsg {
    type V = InitMsgV;

    open spec fn view(&self) -> InitMsgV {
        InitMsgV { counter_offer: funds_of(self.counter_offer@), expires: self.expires }
    }
}

/// A state-changing request against an existing option.
#[derive(Debug, PartialEq)]
pub enum HandleMsg {
    Transfer { recipient: String },
    Execute {},
    Burn {},
}

/// Mathematical image of a [`HandleMsg`].
#[verifier::ext_equal]
pub enum HandleMsgV {
    Transfer { recipient: Seq<char> },
    Execute {},
    Burn {},
}

impl View for HandleMsg {
    type V = HandleMsgV;

    open spec fn view(&self) -> HandleMsgV {
        match self {
            HandleMsg::Transfer { recipient } => HandleMsgV::Transfer { recipient: recipient@ },
            HandleMsg::Execute {  } => HandleMsgV::Execute {  },
            HandleMsg::Burn {  } => HandleMsgV::Burn {  },
        }
    }
}

/// A read-only request.
#[derive(Debug, PartialEq)]
pub enum QueryMsg {
    Config {},
}

/// The configuration query returns the record verbatim.
pub type ConfigResponse = State;

} // verus!

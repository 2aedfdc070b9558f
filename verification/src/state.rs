//! The persisted option record and the facts of a call, as plain values.

use vstd::prelude::*;

verus! {

/// A quantity of a single denomination.
#[derive(Debug, PartialEq)]
pub struct Coin {
    pub denom: String,
    pub amount: u128,
}

/// Mathematical image of a [`Coin`].
#[verifier::ext_equal]
pub struct CoinV {
    pub denom: Seq<char>,
    pub amount: u128,
}

impl View for Coin {
    type V = CoinV;

    open spec fn view(&self) -> CoinV {
        CoinV { denom: self.denom@, amount: self.amount }
    }
}

impl Clone for Coin {
    fn clone(&self) -> (res: Self)
        ensures
            res == *self,
    {
        Coin { denom: self.denom.clone(), amount: self.amount }
    }
}

/// The image of a list of coins: the sequence of the coins' images.
pub open spec fn funds_of(s: Seq<Coin>) -> Seq<CoinV> {
    s.map_values(|c: Coin| c@)
}

/// Copies a fund list element by element.
pub fn clone_coins(v: &Vec<Coin>) -> (r: Vec<Coin>)
    ensures
        r@ == v@,
{
    let mut r: Vec<Coin> = Vec::new();
    let mut i: usize = 0;
    while i < v.len()
        invariant
            i <= v.len(),
            r@ =~= v@.take(i as int),
        decreases v.len() - i,
    {
        r.push(v[i].clone());
        i = i + 1;
    }
    proof {
        assert(r@ =~= v@);
    }
    r
}

/// The one record an option instance persists.
#[derive(Debug, PartialEq)]
pub struct State {
    /// Account that created the option; receives the counter-offer on
    /// execution and the collateral back on burn. Never changes.
    pub creator: String,
    /// Account currently entitled to execute; changes only by transfer.
    pub owner: String,
    /// Funds locked at creation. Never change.
    pub collateral: Vec<Coin>,
    /// Funds the owner must attach, exactly, to execute. Never change.
    pub counter_offer: Vec<Coin>,
    /// Block height at and after which the option can only be burned.
    pub expires: u64,
}

/// Mathematical image of a [`State`].
#[verifier::ext_equal]
pub struct StateV {
    pub creator: Seq<char>,
    pub owner: Seq<char>,
    pub collateral: Seq<CoinV>,
    pub counter_offer: Seq<CoinV>,
    pub expires: u64,
}

impl View for State {
    type V = StateV;

    open spec fn view(&self) -> StateV {
        StateV {
            creator: self.creator@,
            owner: self.owner@,
            collateral: funds_of(self.collateral@),
            counter_offer: funds_of(self.counter_offer@),
            expires: self.expires,
        }
    }
}

impl Clone for State {
    fn clone(&self) -> (res: Self)
        ensures
            res@ == self@,
    {
        State {
            creator: self.creator.clone(),
            owner: self.owner.clone(),
            collateral: clone_coins(&self.collateral),
            counter_offer: clone_coins(&self.counter_offer),
            expires: self.expires,
        }
    }
}

/// Facts of the current call, supplied by the host environment.
#[derive(Debug, PartialEq)]
pub struct Env {
    /// Current block height; increases monotonically across calls.
    pub height: u64,
    /// Authenticated sender of the current call.
    pub sender: String,
    /// Funds the sender attached to the current call.
    pub sent_funds: Vec<Coin>,
    /// Address of the contract itself; the from-address of every effect.
    pub contract: String,
}

/// Mathematical image of an [`Env`].
#[verifier::ext_equal]
pub struct EnvV {
    pub height: u64,
    pub sender: Seq<char>,
    pub sent_funds: Seq<CoinV>,
    pub contract: Seq<char>,
}

impl View for Env {
    type V = EnvV;

    open spec fn view(&self) -> EnvV {
        EnvV {
            height: self.height,
            sender: self.sender@,
            sent_funds: funds_of(self.sent_funds@),
            contract: self.contract@,
        }
    }
}

} // verus!

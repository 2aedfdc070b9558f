//! The guarantees of the state machine, stated and proved once and for all
//! over the specification-level transitions. Every executable entry point is
//! proved to return exactly what those transitions say, so each law below
//! holds of the executable engine as well.

use vstd::prelude::*;

use crate::contract::{RespV, spec_burn, spec_execute, spec_handle, spec_init, spec_query_config};
use crate::error::ErrV;
use crate::funds::funds_eq;
use crate::msg::{HandleMsgV, InitMsgV};
use crate::state::{EnvV, StateV};

verus! {

/// Creation validity: creation fails with `InvalidExpiry` exactly when the
/// requested expiry does not lie strictly after the current height, and a
/// successful creation locks precisely the attached funds as collateral, with
/// the sender as both creator and first owner.
pub proof fn lemma_creation_validity(env: EnvV, msg: InitMsgV)
    ensures
        msg.expires <= env.height <==> spec_init(env, msg) == Err::<StateV, ErrV>(
            ErrV::InvalidExpiry,
        ),
        msg.expires > env.height ==> (spec_init(env, msg) matches Ok(s) && s.collateral
            == env.sent_funds && s.creator == env.sender && s.owner == env.sender
            && s.counter_offer == msg.counter_offer && s.expires == msg.expires),
{
}

/// Ownership exclusivity: on a freshly created option the creator is the
/// owner, and any other caller is refused both transfer and execute with
/// `Unauthorized`. A refused call changes nothing: the engine only ever hands
/// back a record to persist on success.
pub proof fn lemma_ownership_exclusivity(
    env: EnvV,
    msg: InitMsgV,
    s: StateV,
    env2: EnvV,
    recipient: Seq<char>,
)
    requires
        spec_init(env, msg) == Ok::<StateV, ErrV>(s),
        env2.sender != s.creator,
    ensures
        s.owner == s.creator,
        spec_handle(Some(s), env2, HandleMsgV::Transfer { recipient }) == Err::<
            (Option<StateV>, RespV),
            ErrV,
        >(ErrV::Unauthorized),
        spec_handle(Some(s), env2, HandleMsgV::Execute {  }) == Err::<
            (Option<StateV>, RespV),
            ErrV,
        >(ErrV::Unauthorized),
{
}

/// Transfer updates only the owner: a transfer by the current owner succeeds
/// and yields a record identical to the input except for the owner field; no
/// funds move.
pub proof fn lemma_transfer_updates_only_owner(s: StateV, env: EnvV, recipient: Seq<char>)
    requires
        env.sender == s.owner,
    ensures
        spec_handle(Some(s), env, HandleMsgV::Transfer { recipient }) matches Ok((next, resp))
            && next == Some(
            StateV {
                creator: s.creator,
                owner: recipient,
                collateral: s.collateral,
                counter_offer: s.counter_offer,
                expires: s.expires,
            },
        ) && resp.messages.len() == 0,
{
}

/// Execute fund-exactness: with the owner calling before expiry, execution
/// succeeds exactly when the attached funds equal the counter-offer as
/// multisets; otherwise it fails with `FundMismatch` carrying the expected
/// counter-offer.
pub proof fn lemma_execute_fund_exactness(s: StateV, env: EnvV)
    requires
        env.sender == s.owner,
        env.height < s.expires,
    ensures
        spec_execute(s, env) is Ok <==> funds_eq(env.sent_funds, s.counter_offer),
        !funds_eq(env.sent_funds, s.counter_offer) ==> spec_execute(s, env) == Err::<RespV, ErrV>(
            ErrV::FundMismatch { expected: s.counter_offer },
        ),
{
}

/// Execute/burn mutual exclusion by time: execution can succeed only strictly
/// before the expiry height, burning only at or after it, and every height
/// falls in exactly one of the two ranges; the two can never both succeed.
pub proof fn lemma_time_exclusion(s: StateV, env: EnvV, env2: EnvV)
    requires
        env.height == env2.height,
    ensures
        spec_execute(s, env) is Ok ==> env.height < s.expires,
        spec_burn(s, env) is Ok ==> env.height >= s.expires,
        (env.height < s.expires) <==> !(env.height >= s.expires),
        !(spec_execute(s, env) is Ok && spec_burn(s, env2) is Ok),
{
}

/// Deletion finality: a successful execute or burn leaves no record behind,
/// and against an absent record every further request, state-changing or
/// read-only, fails with `NotFound`.
pub proof fn lemma_deletion_finality(
    rec: Option<StateV>,
    env: EnvV,
    msg: HandleMsgV,
    env2: EnvV,
    msg2: HandleMsgV,
)
    requires
        msg is Execute || msg is Burn,
        spec_handle(rec, env, msg) is Ok,
    ensures
        spec_handle(rec, env, msg)->Ok_0.0 is None,
        spec_handle(None, env2, msg2) == Err::<(Option<StateV>, RespV), ErrV>(ErrV::NotFound),
        spec_query_config(None) == Err::<StateV, ErrV>(ErrV::NotFound),
{
}

} // verus!

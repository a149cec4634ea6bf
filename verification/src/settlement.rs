//! Prize settlement: the atomic payout of the whole pool to the verified
//! winning ticket's owner, together with the `claimed` flag transition.
//!
//! The claim check and the flag mutation happen as one test-and-set inside a
//! single operation, so a claim can succeed at most once per lottery even
//! without leaning on the host's serialisation guarantee.

use vstd::prelude::*;

use crate::addr::Address;
use crate::errors::LotteryError;
use crate::lottery::{LotteryInstance, Ticket};

verus! {

/// What `settle` does: a checked move of `pool` out of custody into the
/// winner's balance, with the `claimed` flag set in the same unit.
pub open spec fn settle_spec(
    l: LotteryInstance,
    winner_balance: u64,
    pool: u64,
) -> Result<(LotteryInstance, u64), LotteryError> {
    if l.custody < pool {
        Err(LotteryError::InsufficientCustody)
    } else if winner_balance + pool > u64::MAX {
        Err(LotteryError::ArithmeticOverflow)
    } else {
        Ok(
            (
                LotteryInstance { custody: (l.custody - pool) as u64, claimed: true, ..l },
                (winner_balance + pool) as u64,
            ),
        )
    }
}

/// Moves `pool` from the lottery's custody to the winner's balance and sets
/// `claimed`, as one atomic unit.
///
/// The subtraction is checked: a custody balance that cannot cover the pool
/// is rejected as `InsufficientCustody` (unreachable from states this
/// library builds, where custody equals the pool, but guarded regardless).
/// The addition is checked too and fails `ArithmeticOverflow`. On failure
/// nothing changes.
pub fn settle(lottery: &mut LotteryInstance, winner_balance: &mut u64, pool: u64) -> (r: Result<
    (),
    LotteryError,
>)
    ensures
        ({
            let s = settle_spec(*old(lottery), *old(winner_balance), pool);
            match s {
                Ok(p) => r is Ok && *final(lottery) == p.0 && *final(winner_balance) == p.1,
                Err(e) => r matches Err(e2) && e2 == e,
            }
        }),
        r is Err ==> ({
            &&& *final(lottery) == *old(lottery)
            &&& *final(winner_balance) == *old(winner_balance)
        }),
        r is Ok <==> (old(lottery).custody >= pool && *old(winner_balance) + pool <= u64::MAX),
        r is Ok ==> final(lottery).claimed && final(lottery).custody == old(lottery).custody - pool
            && *final(winner_balance) == *old(winner_balance) + pool,
{
    if lottery.custody < pool {
        return Err(LotteryError::InsufficientCustody);
    }
    if *winner_balance > u64::MAX - pool {
        return Err(LotteryError::ArithmeticOverflow);
    }
    lottery.custody = lottery.custody - pool;
    *winner_balance = *winner_balance + pool;
    lottery.claimed = true;
    Ok(())
}

/// What `claim_prize` does, in the order the checks are made: a winner must
/// exist, the presented ticket must be the winning ticket of this lottery,
/// the caller must own it, the pool must not have been claimed yet, the pool
/// `ticket_price * last_ticket_id` must fit the numeric range, and the
/// checked transfer of `settle_spec` must go through.
pub open spec fn claim_spec(
    l: LotteryInstance,
    caller: Address,
    ticket: Ticket,
    winner_balance: u64,
) -> Result<(LotteryInstance, u64, u64), LotteryError> {
    match l.winner_ticket_id {
        None => Err(LotteryError::WinnerNotChosen),
        Some(w) => if ticket.ticket_id != w {
            Err(LotteryError::WrongTicket)
        } else if ticket.lottery_id != l.id {
            Err(LotteryError::WrongLottery)
        } else if ticket.owner != caller {
            Err(LotteryError::Unauthorized)
        } else if l.claimed {
            Err(LotteryError::AlreadyClaimed)
        } else if l.ticket_price * l.last_ticket_id > u64::MAX {
            Err(LotteryError::ArithmeticOverflow)
        } else {
            let pool = (l.ticket_price * l.last_ticket_id) as u64;
            match settle_spec(l, winner_balance, pool) {
                Ok(p) => Ok((p.0, p.1, pool)),
                Err(e) => Err(e),
            }
        },
    }
}

/// Pays the whole pool, `ticket_price * last_ticket_id`, to the owner of the
/// winning ticket, and marks the lottery claimed, all as one atomic unit.
///
/// Fails `WinnerNotChosen` before a draw; `WrongTicket` when the presented
/// ticket is not the winning one; `WrongLottery` when it belongs to another
/// lottery; `Unauthorized` when the caller does not own it; `AlreadyClaimed`
/// on any claim after the first; and `ArithmeticOverflow` rather than
/// wrapping when the pool product or the winner's credited balance would
/// exceed the numeric range. On failure nothing changes.
pub fn claim_prize(
    lottery: &mut LotteryInstance,
    caller: Address,
    ticket: &Ticket,
    winner_balance: &mut u64,
) -> (r: Result<u64, LotteryError>)
    ensures
        ({
            let s = claim_spec(*old(lottery), caller, *ticket, *old(winner_balance));
            match s {
                Ok(p) => ({
                    &&& r matches Ok(pool) && pool == p.2
                    &&& *final(lottery) == p.0
                    &&& *final(winner_balance) == p.1
                }),
                Err(e) => r matches Err(e2) && e2 == e,
            }
        }),
        r is Err ==> ({
            &&& *final(lottery) == *old(lottery)
            &&& *final(winner_balance) == *old(winner_balance)
        }),
        r is Ok <==> ({
            let pool = old(lottery).ticket_price * old(lottery).last_ticket_id;
            &&& old(lottery).winner_ticket_id matches Some(w)
            &&& ticket.ticket_id == w
            &&& ticket.lottery_id == old(lottery).id
            &&& ticket.owner == caller
            &&& !old(lottery).claimed
            &&& pool <= u64::MAX
            &&& old(lottery).custody >= pool
            &&& *old(winner_balance) + pool <= u64::MAX
        }),
        r matches Ok(pool) ==> ({
            &&& pool == old(lottery).ticket_price * old(lottery).last_ticket_id
            &&& final(lottery).claimed
            &&& final(lottery).custody == old(lottery).custody - pool
            &&& *final(winner_balance) == *old(winner_balance) + pool
            &&& final(lottery).winner_ticket_id == old(lottery).winner_ticket_id
        }),
        old(lottery).wf() && r is Ok ==> final(lottery).wf(),
{
    let w = match lottery.winner_ticket_id {
        None => { return Err(LotteryError::WinnerNotChosen) },
        Some(w) => w,
    };
    if ticket.ticket_id != w {
        return Err(LotteryError::WrongTicket);
    }
    if ticket.lottery_id != lottery.id {
        return Err(LotteryError::WrongLottery);
    }
    if ticket.owner != caller {
        return Err(LotteryError::Unauthorized);
    }
    if lottery.claimed {
        return Err(LotteryError::AlreadyClaimed);
    }
    let pool = match lottery.ticket_price.checked_mul(lottery.last_ticket_id as u64) {
        None => { return Err(LotteryError::ArithmeticOverflow) },
        Some(pool) => pool,
    };
    let settled = settle(lottery, winner_balance, pool);
    match settled {
        Ok(_) => Ok(pool),
        Err(e) => Err(e),
    }
}

/// A claim succeeds at most once per lottery: after a successful claim, the
/// same claim presented again — by the same owner with the same winning
/// ticket — is rejected as `AlreadyClaimed`.
pub proof fn lemma_claim_at_most_once(
    l: LotteryInstance,
    caller: Address,
    ticket: Ticket,
    balance1: u64,
    balance2: u64,
)
    requires
        claim_spec(l, caller, ticket, balance1) is Ok,
    ensures
        claim_spec(claim_spec(l, caller, ticket, balance1)->Ok_0.0, caller, ticket, balance2)
            == Err::<(LotteryInstance, u64, u64), LotteryError>(LotteryError::AlreadyClaimed),
{
}

} // verus!

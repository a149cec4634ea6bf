//! The per-lottery state machine: creation and ticket sales.
//!
//! A lottery moves through `Selling` (`winner_ticket_id == None`) to
//! `WinnerChosen` (`Some(w)` with `1 <= w <= last_ticket_id`) to `Claimed`
//! (`claimed == true`), and never back. Ticket sales pay a fixed price into
//! the instance's pooled custody balance and append one immutable ticket
//! record per sale.

use vstd::prelude::*;

use crate::addr::{ticket_seeds, ticket_seeds_spec, Address};
use crate::errors::LotteryError;
use crate::registry::Registry;

verus! {

/// A per-lottery state machine together with its pooled custody balance.
#[derive(Clone, Copy, PartialEq, Eq, Debug)]
pub struct LotteryInstance {
    /// Identifier assigned once at creation, immutable thereafter.
    pub id: u32,
    /// The identity permitted to trigger winner selection.
    pub authority: Address,
    /// What one ticket costs; fixed at creation, strictly positive.
    pub ticket_price: u64,
    /// How many tickets have been sold; non-decreasing.
    pub last_ticket_id: u32,
    /// `None` until a winner is drawn, then `Some(w)` exactly once.
    pub winner_ticket_id: Option<u32>,
    /// Whether the pool has been paid out; transitions `false -> true` once.
    pub claimed: bool,
    /// The pooled funds the instance holds custody of, from ticket sales.
    pub custody: u64,
}

/// An immutable proof-of-purchase record: ticket `ticket_id` of lottery
/// `lottery_id`, owned by the buyer that paid for it.
#[derive(Clone, Copy, PartialEq, Eq, Debug)]
pub struct Ticket {
    pub lottery_id: u32,
    pub ticket_id: u32,
    pub owner: Address,
}

impl LotteryInstance {
    /// Every state reachable through the operations of this library
    /// satisfies this invariant.
    pub open spec fn wf(self) -> bool {
        &&& self.ticket_price >= 1
        &&& (self.winner_ticket_id matches Some(w) ==> 1 <= w <= self.last_ticket_id)
        &&& (self.claimed ==> self.winner_ticket_id is Some)
        &&& (!self.claimed ==> self.custody == self.ticket_price * self.last_ticket_id)
        &&& (self.claimed ==> self.custody == 0)
    }

    /// Pure read: the sequence number the next ticket sale will be given.
    pub fn next_ticket_id(&self) -> (r: u32)
        requires
            self.last_ticket_id < u32::MAX,
        ensures
            r == self.last_ticket_id + 1,
    {
        self.last_ticket_id + 1
    }
}

impl Ticket {
    /// The seed group that addresses this ticket record: the ticket namespace
    /// tag, the address of its lottery, and its sequence number.
    pub fn seeds(lottery: &Address, ticket_id: u32) -> (s: Vec<Vec<u8>>)
        ensures
            s.deep_view() == ticket_seeds_spec(*lottery, ticket_id),
    {
        ticket_seeds(lottery, ticket_id)
    }
}

/// What `create_lottery` does: a zero price is rejected; otherwise the
/// registry advances by one and a fresh instance is born under the new id.
pub open spec fn create_spec(
    reg: Registry,
    authority: Address,
    ticket_price: u64,
) -> Result<(Registry, LotteryInstance), LotteryError> {
    if ticket_price == 0 {
        Err(LotteryError::InvalidPrice)
    } else {
        let id = (reg.last_id + 1) as u32;
        Ok(
            (
                Registry { last_id: id },
                LotteryInstance {
                    id,
                    authority,
                    ticket_price,
                    last_ticket_id: 0,
                    winner_ticket_id: None,
                    claimed: false,
                    custody: 0,
                },
            ),
        )
    }
}

/// Creates a new lottery under the next registry id.
///
/// The caller must supply a strictly positive `ticket_price`: zero-price
/// lotteries are rejected with `InvalidPrice`, so every instance in
/// circulation has `ticket_price >= 1`. On success the registry advances by
/// exactly one and the new instance starts with no tickets, no winner,
/// nothing claimed and an empty custody balance.
pub fn create_lottery(registry: &mut Registry, authority: Address, ticket_price: u64) -> (r:
    Result<LotteryInstance, LotteryError>)
    requires
        ticket_price >= 1 ==> old(registry).last_id < u32::MAX,
    ensures
        ({
            let s = create_spec(*old(registry), authority, ticket_price);
            match s {
                Ok(p) => r matches Ok(l) && l == p.1 && *final(registry) == p.0,
                Err(e) => r matches Err(e2) && e2 == e && *final(registry) == *old(registry),
            }
        }),
        r is Ok <==> ticket_price >= 1,
        r matches Ok(l) ==> l.wf() && l.id == old(registry).last_id + 1 && final(registry).last_id
            == l.id && l.authority == authority && l.ticket_price == ticket_price
            && l.last_ticket_id == 0 && l.winner_ticket_id is None && !l.claimed && l.custody == 0,
        r is Err ==> *final(registry) == *old(registry),
{
    if ticket_price == 0 {
        return Err(LotteryError::InvalidPrice);
    }
    let id = registry.next_id();
    let recorded = registry.record_creation(id);
    match recorded {
        Ok(_) => Ok(
            LotteryInstance {
                id,
                authority,
                ticket_price,
                last_ticket_id: 0,
                winner_ticket_id: None,
                claimed: false,
                custody: 0,
            },
        ),
        Err(e) => Err(e),
    }
}

/// What `buy_ticket` does: rejected once a winner exists or when the buyer
/// cannot cover the price; otherwise the price moves from the buyer into
/// custody and ticket `last_ticket_id + 1` is minted to the buyer, all as
/// one unit.
pub open spec fn buy_spec(
    l: LotteryInstance,
    buyer: Address,
    buyer_balance: u64,
) -> Result<(LotteryInstance, u64, Ticket), LotteryError> {
    if l.winner_ticket_id is Some {
        Err(LotteryError::WinnerAlreadyChosen)
    } else if buyer_balance < l.ticket_price {
        Err(LotteryError::InsufficientFunds)
    } else {
        let ticket = Ticket {
            lottery_id: l.id,
            ticket_id: (l.last_ticket_id + 1) as u32,
            owner: buyer,
        };
        let sold = LotteryInstance {
            last_ticket_id: (l.last_ticket_id + 1) as u32,
            custody: (l.custody + l.ticket_price) as u64,
            ..l
        };
        Ok((sold, (buyer_balance - l.ticket_price) as u64, ticket))
    }
}

/// Sells one ticket: debits the buyer, credits custody, and mints the next
/// ticket record, all or nothing.
///
/// After a failed attempt neither a debit nor a new ticket exists. Sales are
/// rejected with `WinnerAlreadyChosen` once a winner is drawn, and with
/// `InsufficientFunds` when the buyer's balance does not cover the price.
pub fn buy_ticket(lottery: &mut LotteryInstance, buyer: Address, buyer_balance: &mut u64) -> (r:
    Result<Ticket, LotteryError>)
    requires
        old(lottery).winner_ticket_id is None && *old(buyer_balance) >= old(
            lottery,
        ).ticket_price ==> ({
            &&& old(lottery).last_ticket_id < u32::MAX
            &&& old(lottery).custody + old(lottery).ticket_price <= u64::MAX
        }),
    ensures
        ({
            let s = buy_spec(*old(lottery), buyer, *old(buyer_balance));
            match s {
                Ok(p) => ({
                    &&& r matches Ok(t) && t == p.2
                    &&& *final(lottery) == p.0
                    &&& *final(buyer_balance) == p.1
                }),
                Err(e) => r matches Err(e2) && e2 == e,
            }
        }),
        r is Err ==> ({
            &&& *final(lottery) == *old(lottery)
            &&& *final(buyer_balance) == *old(buyer_balance)
        }),
        r is Ok <==> ({
            &&& old(lottery).winner_ticket_id is None
            &&& *old(buyer_balance) >= old(lottery).ticket_price
        }),
        r matches Ok(t) ==> ({
            &&& t.lottery_id == old(lottery).id
            &&& t.ticket_id == old(lottery).last_ticket_id + 1
            &&& t.owner == buyer
            &&& final(lottery).last_ticket_id == t.ticket_id
            &&& final(lottery).custody == old(lottery).custody + old(lottery).ticket_price
            &&& *final(buyer_balance) == *old(buyer_balance) - old(lottery).ticket_price
            &&& final(lottery).id == old(lottery).id
            &&& final(lottery).authority == old(lottery).authority
            &&& final(lottery).ticket_price == old(lottery).ticket_price
            &&& final(lottery).winner_ticket_id is None
            &&& final(lottery).claimed == old(lottery).claimed
        }),
        old(lottery).wf() && r is Ok ==> final(lottery).wf(),
{
    if lottery.winner_ticket_id.is_some() {
        return Err(LotteryError::WinnerAlreadyChosen);
    }
    if *buyer_balance < lottery.ticket_price {
        return Err(LotteryError::InsufficientFunds);
    }
    *buyer_balance = *buyer_balance - lottery.ticket_price;
    lottery.custody = lottery.custody + lottery.ticket_price;
    lottery.last_ticket_id = lottery.last_ticket_id + 1;
    let ticket = Ticket {
        lottery_id: lottery.id,
        ticket_id: lottery.last_ticket_id,
        owner: buyer,
    };
    proof {
        let p = old(lottery).ticket_price;
        let n = old(lottery).last_ticket_id;
        assert(p * (n + 1) == p * n + p) by (nonlinear_arith);
    }
    Ok(ticket)
}

/// The ids handed out by `n` consecutive successful creations that start
/// from registry state `reg`, all with the same authority and price.
pub open spec fn create_run_ids(reg: Registry, authority: Address, price: u64, n: nat) -> Seq<u32>
    decreases n,
{
    if n == 0 {
        Seq::empty()
    } else {
        match create_spec(reg, authority, price) {
            Ok(p) => seq![p.1.id] + create_run_ids(p.0, authority, price, (n - 1) as nat),
            Err(_) => Seq::empty(),
        }
    }
}

/// A run of `n` successful creations from registry state `reg` hands out the
/// ids `reg.last_id + 1, ..., reg.last_id + n`, in order: each id is one more
/// than the previous, with no gap and no repeat.
pub proof fn lemma_create_run_ids(reg: Registry, authority: Address, price: u64, n: nat)
    requires
        price >= 1,
        reg.last_id + n <= u32::MAX,
    ensures
        create_run_ids(reg, authority, price, n).len() == n,
        forall|i: int|
            0 <= i < n ==> create_run_ids(reg, authority, price, n)[i] == reg.last_id + i + 1,
    decreases n,
{
    if n > 0 {
        let next = Registry { last_id: (reg.last_id + 1) as u32 };
        lemma_create_run_ids(next, authority, price, (n - 1) as nat);
    }
}

/// For any sequence of `N` successful creations that starts from a freshly
/// initialised registry, the resulting ids are exactly `1, ..., N`: no gap
/// and no repeat.
pub proof fn lemma_creation_ids_from_fresh(authority: Address, price: u64, n: nat)
    requires
        price >= 1,
        n <= u32::MAX,
    ensures
        create_run_ids(Registry { last_id: 0 }, authority, price, n).len() == n,
        forall|i: int|
            0 <= i < n ==> create_run_ids(Registry { last_id: 0 }, authority, price, n)[i] == i + 1,
{
    lemma_create_run_ids(Registry { last_id: 0 }, authority, price, n);
}

} // verus!

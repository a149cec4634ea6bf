//! Winner selection: a stateless reduction from external entropy to a ticket
//! number in `[1, last_ticket_id]`.
//!
//! The entropy handed in is whatever time-varying bytes the caller observes
//! (the host's current timestamp, in the on-chain deployment). It is hashed
//! and reduced deterministically, so ledger replay reproduces the identical
//! winner; it is *not* cryptographically secure, and whoever controls when
//! the operation runs can influence the outcome. That weakness is documented
//! here rather than silently fixed, and kept behind a replaceable entropy
//! argument so a stronger source can be handed in.

use vstd::prelude::*;

use vstd::bytes::{spec_u64_from_le_bytes, u64_from_le_bytes};
use vstd::slice::slice_subrange;

use crate::addr::Address;
use crate::errors::LotteryError;
use crate::lottery::LotteryInstance;

verus! {

/// The 32-byte digest that the host's hash function assigns to the given
/// bytes: a pure function of them.
pub uninterp spec fn blake3_of(input: Seq<u8>) -> Seq<u8>;

/// Relies on `solana_blake3_hasher::hash` (reached through `anchor_lang`):
/// a 32-byte digest that depends on the hashed bytes alone.
#[verifier::external_body]
fn blake3_hash(input: &Vec<u8>) -> (r: Vec<u8>)
    ensures
        r@ == blake3_of(input@),
        r@.len() == 32,
{
    anchor_lang::solana_program::blake3::hash(input.as_slice()).to_bytes().to_vec()
}

/// The deterministic reduction of a digest to a ticket number in
/// `[1, upper]`: the digest's first eight bytes, read as a little-endian
/// 64-bit number, reduced modulo `u32::MAX` and then modulo `upper`, plus
/// one. Meaningful for `upper >= 1` and a digest of at least eight bytes.
pub open spec fn select_spec(digest: Seq<u8>, upper: u32) -> u32 {
    if upper == 0 {
        0
    } else {
        let seed = spec_u64_from_le_bytes(digest.subrange(0, 8)) as int;
        let pseudo = seed % 0xFFFF_FFFF;
        ((pseudo % (upper as int)) + 1) as u32
    }
}

/// Reduces a digest to a ticket number in `[1, upper]`, deterministically:
/// the same digest and bound always give the same ticket.
pub fn select(digest: &Vec<u8>, upper: u32) -> (r: u32)
    requires
        digest@.len() >= 8,
        upper >= 1,
    ensures
        r == select_spec(digest@, upper),
        1 <= r <= upper,
{
    let head = slice_subrange(digest.as_slice(), 0, 8);
    let seed = u64_from_le_bytes(head);
    let pseudo = (seed % 0xFFFF_FFFFu64) as u32;
    pseudo % upper + 1
}

/// What `pick_winner` does: only the recorded authority may draw, only once,
/// only after at least one sale and before any payout; the winner is the
/// deterministic reduction of the entropy's digest.
pub open spec fn pick_spec(
    l: LotteryInstance,
    caller: Address,
    digest: Seq<u8>,
) -> Result<(LotteryInstance, u32), LotteryError> {
    if caller != l.authority {
        Err(LotteryError::Unauthorized)
    } else if l.winner_ticket_id is Some {
        Err(LotteryError::WinnerAlreadyChosen)
    } else if l.last_ticket_id == 0 {
        Err(LotteryError::NoTicketsSold)
    } else if l.claimed {
        Err(LotteryError::AlreadyClaimed)
    } else {
        let w = select_spec(digest, l.last_ticket_id);
        Ok((LotteryInstance { winner_ticket_id: Some(w), ..l }, w))
    }
}

/// Draws the winning ticket from the given entropy bytes and records it.
///
/// Fails `Unauthorized` unless the caller is the recorded authority,
/// `WinnerAlreadyChosen` if a winner exists, `NoTicketsSold` while no ticket
/// has been sold, and `AlreadyClaimed` after a payout. On success the
/// recorded winner satisfies `1 <= w <= last_ticket_id`, is the deterministic
/// reduction of the entropy's digest, and nothing else changes; any further
/// draw fails. On failure nothing changes at all.
pub fn pick_winner(lottery: &mut LotteryInstance, caller: Address, entropy: &Vec<u8>) -> (r: Result<
    u32,
    LotteryError,
>)
    ensures
        ({
            let s = pick_spec(*old(lottery), caller, blake3_of(entropy@));
            match s {
                Ok(p) => r matches Ok(w) && w == p.1 && *final(lottery) == p.0,
                Err(e) => r matches Err(e2) && e2 == e,
            }
        }),
        r is Err ==> *final(lottery) == *old(lottery),
        r is Ok <==> (caller == old(lottery).authority && old(lottery).winner_ticket_id is None
            && old(lottery).last_ticket_id >= 1 && !old(lottery).claimed),
        r matches Ok(w) ==> ({
            &&& 1 <= w <= old(lottery).last_ticket_id
            &&& final(lottery).winner_ticket_id == Some(w)
            &&& *final(lottery) == (LotteryInstance {
                winner_ticket_id: Some(w),
                ..*old(lottery)
            })
        }),
        old(lottery).wf() ==> final(lottery).wf(),
{
    if caller != lottery.authority {
        return Err(LotteryError::Unauthorized);
    }
    if lottery.winner_ticket_id.is_some() {
        return Err(LotteryError::WinnerAlreadyChosen);
    }
    if lottery.last_ticket_id == 0 {
        return Err(LotteryError::NoTicketsSold);
    }
    if lottery.claimed {
        return Err(LotteryError::AlreadyClaimed);
    }
    let digest = blake3_hash(entropy);
    let w = select(&digest, lottery.last_ticket_id);
    lottery.winner_ticket_id = Some(w);
    Ok(w)
}

/// Once a winner has been drawn, drawing again always fails: the first draw
/// moves the instance into a state in which the authority's next attempt is
/// rejected as `WinnerAlreadyChosen`, whatever entropy it carries.
pub proof fn lemma_pick_winner_at_most_once(
    l: LotteryInstance,
    caller: Address,
    digest1: Seq<u8>,
    digest2: Seq<u8>,
)
    requires
        pick_spec(l, caller, digest1) is Ok,
    ensures
        pick_spec(pick_spec(l, caller, digest1)->Ok_0.0, caller, digest2) == Err::<
            (LotteryInstance, u32),
            LotteryError,
        >(LotteryError::WinnerAlreadyChosen),
{
}

} // verus!

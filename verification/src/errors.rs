//! The error taxonomy of the lottery: every operation either applies in full
//! or is rejected with exactly one of these tags and zero state change.

use vstd::prelude::*;

verus! {

/// Why an operation was rejected.
///
/// Grouped by kind: authorisation failures (`Unauthorized`), illegal states
/// (`WinnerAlreadyChosen`, `AlreadyClaimed`, `NoTicketsSold`, `WinnerNotChosen`,
/// `AlreadyInitialized`), reference mismatches (`WrongTicket`, `WrongLottery`,
/// `OutOfOrderId`), arithmetic guards (`ArithmeticOverflow`,
/// `InsufficientCustody`), and funding (`InsufficientFunds`, `InvalidPrice`).
#[derive(Clone, Copy, PartialEq, Eq, Structural, Debug)]
pub enum LotteryError {
    /// The registry record already exists.
    AlreadyInitialized,
    /// A creation was recorded with an id other than `last_id + 1`.
    OutOfOrderId,
    /// A lottery cannot be created with a ticket price of zero.
    InvalidPrice,
    /// The winner has already been selected.
    WinnerAlreadyChosen,
    /// The buyer's balance does not cover the ticket price.
    InsufficientFunds,
    /// The caller is not the recorded authority or ticket owner.
    Unauthorized,
    /// No tickets have been sold, so no winner can be drawn.
    NoTicketsSold,
    /// The prize has already been paid out.
    AlreadyClaimed,
    /// No winner has been selected yet.
    WinnerNotChosen,
    /// The presented ticket is not the winning ticket.
    WrongTicket,
    /// The presented ticket belongs to a different lottery.
    WrongLottery,
    /// A checked multiplication or addition would exceed the numeric range.
    ArithmeticOverflow,
    /// The custody balance cannot cover the payout.
    InsufficientCustody,
}

} // verus!

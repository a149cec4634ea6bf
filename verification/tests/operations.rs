use lottery::addr::Address;
use lottery::errors::LotteryError;
use lottery::lottery::{buy_ticket, create_lottery, LotteryInstance, Ticket};
use lottery::registry::{initialize_registry, Registry};
use lottery::settlement::{claim_prize, settle};
use lottery::winner::pick_winner;

fn addr(tag: u64) -> Address {
    Address { w0: tag, w1: tag.wrapping_mul(3), w2: tag.wrapping_mul(5), w3: tag.wrapping_mul(7) }
}

fn fresh_lottery(id: u32, authority: Address, price: u64) -> LotteryInstance {
    LotteryInstance {
        id,
        authority,
        ticket_price: price,
        last_ticket_id: 0,
        winner_ticket_id: None,
        claimed: false,
        custody: 0,
    }
}

#[test]
fn registry_initializes_once() {
    let created = initialize_registry(&None);
    assert_eq!(created, Ok(Registry { last_id: 0 }));
    let again = initialize_registry(&Some(Registry { last_id: 4 }));
    assert_eq!(again, Err(LotteryError::AlreadyInitialized));
}

#[test]
fn registry_next_id_and_recording() {
    let mut reg = Registry { last_id: 0 };
    assert_eq!(reg.next_id(), 1);
    assert_eq!(reg.record_creation(1), Ok(()));
    assert_eq!(reg.last_id, 1);
    assert_eq!(reg.next_id(), 2);
}

#[test]
fn registry_rejects_out_of_order_ids() {
    let mut reg = Registry { last_id: 3 };
    assert_eq!(reg.record_creation(5), Err(LotteryError::OutOfOrderId));
    assert_eq!(reg.record_creation(3), Err(LotteryError::OutOfOrderId));
    assert_eq!(reg.last_id, 3);
    assert_eq!(reg.record_creation(4), Ok(()));
    assert_eq!(reg.last_id, 4);
}

#[test]
fn creation_ids_have_no_gap_and_no_repeat() {
    let mut reg = Registry { last_id: 0 };
    let authority = addr(1);
    let mut ids = Vec::new();
    for _ in 0..5 {
        let lottery = create_lottery(&mut reg, authority, 100).unwrap();
        ids.push(lottery.id);
    }
    assert_eq!(ids, vec![1, 2, 3, 4, 5]);
    assert_eq!(reg.last_id, 5);
}

#[test]
fn creation_rejects_zero_price() {
    let mut reg = Registry { last_id: 7 };
    assert_eq!(create_lottery(&mut reg, addr(1), 0), Err(LotteryError::InvalidPrice));
    assert_eq!(reg.last_id, 7);
}

#[test]
fn creation_starts_empty() {
    let mut reg = Registry { last_id: 0 };
    let authority = addr(9);
    let lottery = create_lottery(&mut reg, authority, 250).unwrap();
    assert_eq!(lottery.id, 1);
    assert_eq!(lottery.authority, authority);
    assert_eq!(lottery.ticket_price, 250);
    assert_eq!(lottery.last_ticket_id, 0);
    assert_eq!(lottery.winner_ticket_id, None);
    assert!(!lottery.claimed);
    assert_eq!(lottery.custody, 0);
}

#[test]
fn buying_moves_the_price_and_mints_the_next_ticket() {
    let mut lottery = fresh_lottery(1, addr(1), 100);
    let buyer = addr(2);
    let mut balance: u64 = 250;
    let ticket = buy_ticket(&mut lottery, buyer, &mut balance).unwrap();
    assert_eq!(ticket, Ticket { lottery_id: 1, ticket_id: 1, owner: buyer });
    assert_eq!(balance, 150);
    assert_eq!(lottery.custody, 100);
    assert_eq!(lottery.last_ticket_id, 1);
    assert_eq!(lottery.next_ticket_id(), 2);
}

#[test]
fn failed_purchase_changes_nothing() {
    let mut lottery = fresh_lottery(1, addr(1), 100);
    let mut balance: u64 = 99;
    let attempt = buy_ticket(&mut lottery, addr(2), &mut balance);
    assert_eq!(attempt, Err(LotteryError::InsufficientFunds));
    assert_eq!(balance, 99);
    assert_eq!(lottery.custody, 0);
    assert_eq!(lottery.last_ticket_id, 0);
}

#[test]
fn no_sale_once_a_winner_exists() {
    let mut lottery = fresh_lottery(1, addr(1), 100);
    lottery.last_ticket_id = 2;
    lottery.custody = 200;
    lottery.winner_ticket_id = Some(1);
    let mut balance: u64 = 500;
    let attempt = buy_ticket(&mut lottery, addr(2), &mut balance);
    assert_eq!(attempt, Err(LotteryError::WinnerAlreadyChosen));
    assert_eq!(balance, 500);
    assert_eq!(lottery.last_ticket_id, 2);
}

#[test]
fn drawing_needs_at_least_one_ticket() {
    let authority = addr(1);
    let mut lottery = fresh_lottery(1, authority, 100);
    let attempt = pick_winner(&mut lottery, authority, &vec![7u8; 8]);
    assert_eq!(attempt, Err(LotteryError::NoTicketsSold));
    assert_eq!(lottery.winner_ticket_id, None);
}

#[test]
fn drawing_is_for_the_authority_alone() {
    let mut lottery = fresh_lottery(1, addr(1), 100);
    lottery.last_ticket_id = 3;
    lottery.custody = 300;
    let attempt = pick_winner(&mut lottery, addr(2), &vec![7u8; 8]);
    assert_eq!(attempt, Err(LotteryError::Unauthorized));
    assert_eq!(lottery.winner_ticket_id, None);
}

#[test]
fn drawing_twice_always_fails() {
    let authority = addr(1);
    let mut lottery = fresh_lottery(1, authority, 100);
    lottery.last_ticket_id = 3;
    lottery.custody = 300;
    let first = pick_winner(&mut lottery, authority, &vec![7u8; 8]).unwrap();
    assert!((1..=3).contains(&first));
    assert_eq!(lottery.winner_ticket_id, Some(first));
    let again = pick_winner(&mut lottery, authority, &vec![8u8; 8]);
    assert_eq!(again, Err(LotteryError::WinnerAlreadyChosen));
    assert_eq!(lottery.winner_ticket_id, Some(first));
}

#[test]
fn drawing_is_replayable() {
    let authority = addr(1);
    let mut one = fresh_lottery(1, authority, 100);
    one.last_ticket_id = 3;
    one.custody = 300;
    let mut two = one;
    let entropy = vec![42u8, 1, 2, 3, 4, 5, 6, 7];
    let w1 = pick_winner(&mut one, authority, &entropy).unwrap();
    let w2 = pick_winner(&mut two, authority, &entropy).unwrap();
    assert_eq!(w1, w2);
}

#[test]
fn drawing_after_a_payout_is_rejected() {
    let authority = addr(1);
    let mut lottery = fresh_lottery(1, authority, 100);
    lottery.last_ticket_id = 3;
    lottery.claimed = true;
    let attempt = pick_winner(&mut lottery, authority, &vec![7u8; 8]);
    assert_eq!(attempt, Err(LotteryError::AlreadyClaimed));
}

#[test]
fn claim_needs_a_winner() {
    let mut lottery = fresh_lottery(1, addr(1), 100);
    lottery.last_ticket_id = 1;
    lottery.custody = 100;
    let ticket = Ticket { lottery_id: 1, ticket_id: 1, owner: addr(2) };
    let mut balance: u64 = 0;
    let attempt = claim_prize(&mut lottery, addr(2), &ticket, &mut balance);
    assert_eq!(attempt, Err(LotteryError::WinnerNotChosen));
    assert_eq!(balance, 0);
}

#[test]
fn claim_rejects_the_wrong_ticket() {
    let mut lottery = fresh_lottery(1, addr(1), 100);
    lottery.last_ticket_id = 2;
    lottery.custody = 200;
    lottery.winner_ticket_id = Some(2);
    let losing = Ticket { lottery_id: 1, ticket_id: 1, owner: addr(2) };
    let mut balance: u64 = 0;
    let attempt = claim_prize(&mut lottery, addr(2), &losing, &mut balance);
    assert_eq!(attempt, Err(LotteryError::WrongTicket));
    assert!(!lottery.claimed);
}

#[test]
fn claim_rejects_a_ticket_of_another_lottery() {
    let mut lottery = fresh_lottery(1, addr(1), 100);
    lottery.last_ticket_id = 1;
    lottery.custody = 100;
    lottery.winner_ticket_id = Some(1);
    let foreign = Ticket { lottery_id: 9, ticket_id: 1, owner: addr(2) };
    let mut balance: u64 = 0;
    let attempt = claim_prize(&mut lottery, addr(2), &foreign, &mut balance);
    assert_eq!(attempt, Err(LotteryError::WrongLottery));
}

#[test]
fn claim_is_for_the_owner_alone() {
    let mut lottery = fresh_lottery(1, addr(1), 100);
    lottery.last_ticket_id = 1;
    lottery.custody = 100;
    lottery.winner_ticket_id = Some(1);
    let ticket = Ticket { lottery_id: 1, ticket_id: 1, owner: addr(2) };
    let mut balance: u64 = 0;
    let attempt = claim_prize(&mut lottery, addr(3), &ticket, &mut balance);
    assert_eq!(attempt, Err(LotteryError::Unauthorized));
}

#[test]
fn payout_is_price_times_tickets_or_overflow() {
    let mut lottery = fresh_lottery(1, addr(1), u64::MAX);
    lottery.last_ticket_id = 2;
    lottery.custody = u64::MAX;
    lottery.winner_ticket_id = Some(1);
    let ticket = Ticket { lottery_id: 1, ticket_id: 1, owner: addr(2) };
    let mut balance: u64 = 0;
    let attempt = claim_prize(&mut lottery, addr(2), &ticket, &mut balance);
    assert_eq!(attempt, Err(LotteryError::ArithmeticOverflow));
    assert_eq!(balance, 0);
    assert!(!lottery.claimed);
    assert_eq!(lottery.custody, u64::MAX);
}

#[test]
fn claim_guards_the_custody_balance() {
    let mut lottery = fresh_lottery(1, addr(1), 100);
    lottery.last_ticket_id = 3;
    lottery.custody = 200;
    lottery.winner_ticket_id = Some(2);
    let ticket = Ticket { lottery_id: 1, ticket_id: 2, owner: addr(2) };
    let mut balance: u64 = 0;
    let attempt = claim_prize(&mut lottery, addr(2), &ticket, &mut balance);
    assert_eq!(attempt, Err(LotteryError::InsufficientCustody));
    assert_eq!(lottery.custody, 200);
}

#[test]
fn claim_guards_the_winner_balance() {
    let mut lottery = fresh_lottery(1, addr(1), 100);
    lottery.last_ticket_id = 3;
    lottery.custody = 300;
    lottery.winner_ticket_id = Some(2);
    let ticket = Ticket { lottery_id: 1, ticket_id: 2, owner: addr(2) };
    let mut balance: u64 = u64::MAX - 100;
    let attempt = claim_prize(&mut lottery, addr(2), &ticket, &mut balance);
    assert_eq!(attempt, Err(LotteryError::ArithmeticOverflow));
    assert_eq!(balance, u64::MAX - 100);
    assert!(!lottery.claimed);
}

#[test]
fn settle_moves_the_pool_and_sets_the_flag() {
    let mut lottery = fresh_lottery(1, addr(1), 100);
    lottery.last_ticket_id = 3;
    lottery.custody = 300;
    lottery.winner_ticket_id = Some(2);
    let mut balance: u64 = 40;
    assert_eq!(settle(&mut lottery, &mut balance, 300), Ok(()));
    assert_eq!(balance, 340);
    assert_eq!(lottery.custody, 0);
    assert!(lottery.claimed);
}

#[test]
fn settle_rejects_an_uncovered_pool() {
    let mut lottery = fresh_lottery(1, addr(1), 100);
    lottery.custody = 10;
    let mut balance: u64 = 0;
    assert_eq!(settle(&mut lottery, &mut balance, 11), Err(LotteryError::InsufficientCustody));
    assert_eq!(lottery.custody, 10);
    assert!(!lottery.claimed);
}

#[test]
fn full_round_with_three_buyers() {
    let mut reg = Registry { last_id: 0 };
    let authority = addr(1);
    let mut lottery = create_lottery(&mut reg, authority, 100).unwrap();

    let buyers = [addr(10), addr(11), addr(12)];
    let mut balances: [u64; 3] = [1000, 1000, 1000];
    let mut tickets = Vec::new();
    for i in 0..3 {
        let ticket = buy_ticket(&mut lottery, buyers[i], &mut balances[i]).unwrap();
        assert_eq!(ticket.ticket_id, (i + 1) as u32);
        tickets.push(ticket);
    }
    assert_eq!(lottery.custody, 300);
    assert_eq!(balances, [900, 900, 900]);

    let winner_id = pick_winner(&mut lottery, authority, &vec![3u8, 1, 4, 1, 5, 9, 2, 6]).unwrap();
    assert!((1..=3).contains(&winner_id));
    assert_eq!(lottery.winner_ticket_id, Some(winner_id));

    let losing_id = if winner_id == 1 { 2 } else { 1 };
    let losing = tickets[(losing_id - 1) as usize];
    let mut losing_balance = balances[(losing_id - 1) as usize];
    let wrong = claim_prize(&mut lottery, losing.owner, &losing, &mut losing_balance);
    assert_eq!(wrong, Err(LotteryError::WrongTicket));
    assert_eq!(losing_balance, 900);

    let winning = tickets[(winner_id - 1) as usize];
    let mut winning_balance = balances[(winner_id - 1) as usize];
    let paid = claim_prize(&mut lottery, winning.owner, &winning, &mut winning_balance).unwrap();
    assert_eq!(paid, 300);
    assert_eq!(winning_balance, 1200);
    assert_eq!(lottery.custody, 0);
    assert!(lottery.claimed);

    let again = claim_prize(&mut lottery, winning.owner, &winning, &mut winning_balance);
    assert_eq!(again, Err(LotteryError::AlreadyClaimed));
    assert_eq!(winning_balance, 1200);
}

#[test]
fn draw_with_no_sales_leaves_no_winner() {
    let authority = addr(1);
    let mut lottery = fresh_lottery(1, authority, 100);
    let attempt = pick_winner(&mut lottery, authority, &vec![0u8; 8]);
    assert_eq!(attempt, Err(LotteryError::NoTicketsSold));
    assert_eq!(lottery.winner_ticket_id, None);
}

use mwc_swap::fsm::{
    cancel, next_state, process_message, required_action, step, Action, Observations, StateId,
};
use mwc_swap::message::{Message, Update};
use mwc_swap::multisig::{Builder, Phase};
use mwc_swap::slate::{ParticipantData, Slate, TxKernel};
use mwc_swap::swap::{Currency, Network, Role, Swap};
use mwc_swap::ErrorKind;

const STARTED: i64 = 1_600_000_000;
const SESSION: u128 = 0x1111;

fn slate(id: u128, fee: u64) -> Slate {
    Slate {
        id,
        amount: 1_000_000_000,
        fee,
        lock_height: 0,
        inputs: vec![],
        outputs: vec![],
        kernels: vec![],
        participant_data: vec![],
    }
}

fn commitment(tag: u8) -> Vec<u8> {
    let mut c = vec![0x08u8];
    c.extend((0..32).map(|i| tag.wrapping_mul(31).wrapping_add(i as u8)));
    c
}

fn session(seller: bool, seller_lock_first: bool) -> Swap {
    let pid = if seller { 0 } else { 1 };
    let mut multisig = Builder::new(pid, 1 - pid, 1_000_000_000);
    multisig.create_participant(commitment(pid as u8 + 1));
    Swap {
        id: SESSION,
        idx: 0,
        version: 1,
        network: Network::Floonet,
        role: if seller { Role::Seller("refund-address".to_string(), 0) } else { Role::Buyer },
        seller_lock_first,
        started: STARTED,
        state: StateId::Offered,
        primary_amount: 1_000_000_000,
        secondary_amount: 100_000,
        secondary_currency: Currency::Btc,
        secondary_data: vec![],
        redeem_public: None,
        participant_id: pid,
        multisig,
        lock_slate: slate(0x21, 8_000_000),
        refund_slate: slate(0x22, 8_000_000),
        redeem_slate: slate(0x23, 8_000_000),
        adaptor_signature: None,
        mwc_confirmations: 10,
        secondary_confirmations: 6,
        message_exchange_time_sec: 3600,
        redeem_time_sec: 1800,
        message1: None,
        message2: None,
    }
}

fn quiet() -> Observations {
    Observations {
        primary_lock_posted: false,
        secondary_lock_posted: false,
        primary_lock_confirmations: 0,
        secondary_lock_confirmations: 0,
        redeem_kernel_found: false,
        redeem_confirmed: false,
        refund_confirmed: false,
    }
}

fn both_locked() -> Observations {
    Observations {
        primary_lock_posted: true,
        secondary_lock_posted: true,
        primary_lock_confirmations: 10,
        secondary_lock_confirmations: 6,
        ..quiet()
    }
}

/// Runs both message rounds so that each party's multisig is complete.
fn exchange_messages(seller: &mut Swap, buyer: &mut Swap) {
    let offer = seller.message(Update::Offer(commitment(1)), vec![]);
    assert_eq!(process_message(buyer, &offer), Ok(true));
    let accept = buyer.message(Update::AcceptOffer(commitment(2)), vec![]);
    assert_eq!(process_message(seller, &accept), Ok(true));
    assert_eq!(seller.state, StateId::MultisigCommitted);
    assert_eq!(buyer.state, StateId::MultisigCommitted);
    let init = buyer.message(Update::InitRedeem(vec![7u8; 64], vec![2u8; 33]), vec![]);
    assert_eq!(process_message(seller, &init), Ok(true));
    let redeem = seller.message(Update::Redeem(vec![9u8; 64]), vec![]);
    assert_eq!(process_message(buyer, &redeem), Ok(true));
    assert_eq!(seller.state, StateId::MultisigComplete);
    assert_eq!(buyer.state, StateId::MultisigComplete);
}

#[test]
fn schedule_happy_path_values() {
    let s = session(true, true);
    assert_eq!(s.get_timeinterval_mwc_lock(), 660);
    assert_eq!(s.get_timeinterval_btc_lock(), 3960);
    let t = STARTED as u64;
    assert_eq!(s.get_time_start(), t);
    assert_eq!(s.get_time_message_offers(), t + 3600);
    assert_eq!(s.get_time_start_lock(), t + 3600 + 198);
    assert_eq!(s.get_time_locking(), t + 3600 + 3960);
    assert_eq!(s.get_time_message_redeem(), t + 11160);
    assert_eq!(s.get_time_mwc_redeem(), t + 12960);
    assert_eq!(s.get_time_mwc_lock(), t + 13620);
    assert_eq!(s.get_time_mwc_refund(), t + 15420);
    assert_eq!(s.get_time_btc_lock(), t + 21840);
    assert_eq!(s.get_time_btc_redeem_limit(), t + 17880);
}

#[test]
fn schedule_strictly_increasing() {
    let s = session(false, true);
    let times = [
        s.get_time_start(),
        s.get_time_message_offers(),
        s.get_time_start_lock(),
        s.get_time_locking(),
        s.get_time_message_redeem(),
        s.get_time_mwc_redeem(),
        s.get_time_mwc_refund(),
        s.get_time_btc_lock(),
    ];
    for w in times.windows(2) {
        assert!(w[0] < w[1]);
    }
    assert!(s.get_time_btc_redeem_limit() > s.get_time_mwc_refund());
}

#[test]
fn schedule_secondary_interval_dominates_only_when_longer() {
    let mut s = session(true, true);
    s.secondary_confirmations = 1;
    s.mwc_confirmations = 100;
    assert_eq!(s.get_timeinterval_mwc_lock(), 6600);
    assert_eq!(s.get_timeinterval_btc_lock(), 660);
    assert_eq!(s.get_time_start_lock(), STARTED as u64 + 3600 + 330);
    assert_eq!(s.get_time_locking(), STARTED as u64 + 3600 + 6600);
}

#[test]
fn happy_path_seller_locks_first() {
    let mut seller = session(true, true);
    let mut buyer = session(false, true);
    exchange_messages(&mut seller, &mut buyer);
    let t0 = seller.get_time_message_offers();

    // The seller posts its lock first; the buyer follows once it sees it.
    assert_eq!(required_action(&seller, seller.state, t0, &quiet()), Action::PostPrimaryLock);
    assert_eq!(required_action(&buyer, buyer.state, t0, &quiet()), Action::Nothing);
    let seller_posted = Observations { primary_lock_posted: true, ..quiet() };
    seller.state = next_state(&seller, t0 + 10, &seller_posted);
    buyer.state = next_state(&buyer, t0 + 10, &seller_posted);
    assert_eq!(seller.state, StateId::Locking);
    assert_eq!(buyer.state, StateId::Locking);
    assert_eq!(required_action(&buyer, buyer.state, t0 + 10, &seller_posted), Action::PostSecondaryLock);

    let t1 = t0 + 100;
    seller.state = next_state(&seller, t1, &both_locked());
    buyer.state = next_state(&buyer, t1, &both_locked());
    assert_eq!(seller.state, StateId::Locked);
    assert_eq!(buyer.state, StateId::Locked);
    assert_eq!(required_action(&buyer, buyer.state, t1, &both_locked()), Action::PostRedeem);
    assert_eq!(required_action(&seller, seller.state, t1, &both_locked()), Action::Nothing);

    let redeemed = Observations { redeem_kernel_found: true, ..both_locked() };
    seller.state = next_state(&seller, t1 + 60, &redeemed);
    buyer.state = next_state(&buyer, t1 + 60, &redeemed);
    assert_eq!(seller.state, StateId::RedeemSecondary);
    assert_eq!(buyer.state, StateId::Redeeming);
    assert_eq!(required_action(&seller, seller.state, t1 + 60, &redeemed), Action::RedeemSecondary);

    let done = Observations { redeem_confirmed: true, ..redeemed };
    seller.state = next_state(&seller, t1 + 600, &done);
    buyer.state = next_state(&buyer, t1 + 600, &done);
    assert_eq!(seller.state, StateId::Success);
    assert_eq!(buyer.state, StateId::Success);
    assert_eq!(seller.refund_amount(), 1_000_000_000 - 8_000_000);
}

#[test]
fn buyer_never_locks() {
    let mut seller = session(true, true);
    let mut buyer = session(false, true);
    exchange_messages(&mut seller, &mut buyer);
    let posted = Observations { primary_lock_posted: true, ..quiet() };
    let t = seller.get_time_start_lock() + 60;
    seller.state = next_state(&seller, t, &posted);
    assert_eq!(seller.state, StateId::Locking);

    let locked_own = Observations { primary_lock_confirmations: 10, ..posted };
    let t_locked = seller.get_time_locking();
    seller.state = next_state(&seller, t_locked, &locked_own);
    assert_eq!(seller.state, StateId::Locking);
    seller.state = next_state(&seller, t_locked + 1, &locked_own);
    assert_eq!(seller.state, StateId::WaitForRefund);

    let t_refund = seller.get_time_mwc_refund();
    assert_eq!(required_action(&seller, seller.state, t_refund - 1, &locked_own), Action::Nothing);
    assert_eq!(required_action(&seller, seller.state, t_refund, &locked_own), Action::PostRefund);
    let refunded = Observations { refund_confirmed: true, ..locked_own };
    assert_eq!(required_action(&seller, seller.state, t_refund, &refunded), Action::Nothing);
    seller.state = next_state(&seller, t_refund + 600, &refunded);
    assert_eq!(seller.state, StateId::Refunded);
}

#[test]
fn seller_disappears_before_lock() {
    let mut seller = session(true, true);
    let mut buyer = session(false, true);
    exchange_messages(&mut seller, &mut buyer);
    let t = buyer.get_time_start_lock();
    assert_eq!(next_state(&buyer, t - 1, &quiet()), StateId::MultisigComplete);
    buyer.state = next_state(&buyer, t, &quiet());
    assert_eq!(buyer.state, StateId::Cancelled);
    assert_eq!(required_action(&buyer, buyer.state, t, &quiet()), Action::Nothing);
}

#[test]
fn seller_recovers_after_buyer_redeem() {
    let mut seller = session(true, true);
    let mut buyer = session(false, true);
    exchange_messages(&mut seller, &mut buyer);
    seller.state = StateId::Locked;
    seller.redeem_slate.kernels.push(TxKernel { excess: vec![8u8; 33], excess_sig: vec![0u8; 64] });
    assert_eq!(seller.redeem_kernel_excess(), Ok(vec![8u8; 33]));
    let t = seller.get_time_mwc_redeem() + 600;
    let found = Observations { redeem_kernel_found: true, ..both_locked() };
    seller.state = next_state(&seller, t, &found);
    assert_eq!(seller.state, StateId::RedeemSecondary);
    assert!(t < seller.get_time_btc_redeem_limit());
    seller.state = next_state(&seller, t + 60, &Observations { redeem_confirmed: true, ..found });
    assert_eq!(seller.state, StateId::Success);
}

#[test]
fn seller_without_redeem_kernel_waits_for_refund() {
    let mut seller = session(true, true);
    seller.state = StateId::Locked;
    assert_eq!(seller.redeem_kernel_excess(), Err(ErrorKind::UnexpectedAction));
    let t = seller.get_time_mwc_redeem() + 1;
    assert_eq!(next_state(&seller, t, &both_locked()), StateId::WaitForRefund);
}

#[test]
fn malformed_partial_commitment_cancels() {
    let mut buyer = session(false, true);
    let mut bad = commitment(1);
    bad[0] = 0x02;
    let offer = Message::new(SESSION, Update::Offer(bad), vec![]);
    assert_eq!(process_message(&mut buyer, &offer), Err(ErrorKind::InvalidProof));
    assert_eq!(buyer.state, StateId::Cancelled);
    assert!(buyer.multisig.participants[0].partial_commitment.is_none());

    let mut other = session(false, true);
    let short = Message::new(SESSION, Update::Offer(vec![0x08u8; 20]), vec![]);
    assert_eq!(process_message(&mut other, &short), Err(ErrorKind::InvalidProof));
    assert_eq!(other.state, StateId::Cancelled);
}

#[test]
fn resent_message1_applied_once() {
    let mut buyer = session(false, true);
    let offer = Message::new(SESSION, Update::Offer(commitment(1)), vec![]);
    assert_eq!(process_message(&mut buyer, &offer), Ok(true));
    assert_eq!(buyer.state, StateId::MultisigCommitted);
    let commitments = buyer.multisig.participants.clone();
    assert_eq!(process_message(&mut buyer, &offer), Ok(false));
    assert_eq!(buyer.state, StateId::MultisigCommitted);
    assert_eq!(
        buyer.multisig.participants[0].partial_commitment,
        commitments[0].partial_commitment
    );
    assert_eq!(buyer.multisig.phase, Phase::Commit);
}

#[test]
fn next_state_idempotent() {
    let mut seller = session(true, true);
    let mut buyer = session(false, true);
    exchange_messages(&mut seller, &mut buyer);
    let obs = Observations { redeem_kernel_found: true, redeem_confirmed: true, ..both_locked() };
    let t = seller.get_time_message_offers() + 5;
    let first = next_state(&seller, t, &obs);
    assert_eq!(first, StateId::Success);
    seller.state = first;
    assert_eq!(next_state(&seller, t, &obs), first);
    assert_eq!(step(&seller, first, t, &obs), first);
    assert_eq!(required_action(&seller, first, t, &obs), Action::Nothing);
}

#[test]
fn message_errors() {
    let mut seller = session(true, true);
    let foreign = Message::new(SESSION + 1, Update::AcceptOffer(commitment(2)), vec![]);
    assert_eq!(process_message(&mut seller, &foreign), Err(ErrorKind::InvalidMessageData));
    let wrong_role = Message::new(SESSION, Update::Offer(commitment(2)), vec![]);
    assert_eq!(process_message(&mut seller, &wrong_role), Err(ErrorKind::UnexpectedRole));
    let early = Message::new(SESSION, Update::InitRedeem(vec![1u8; 64], vec![2u8; 33]), vec![]);
    assert_eq!(process_message(&mut seller, &early), Err(ErrorKind::UnexpectedAction));
    assert_eq!(seller.state, StateId::Offered);
}

#[test]
fn bad_adaptor_signature_cancels() {
    let mut seller = session(true, true);
    let accept = Message::new(SESSION, Update::AcceptOffer(commitment(2)), vec![]);
    assert_eq!(process_message(&mut seller, &accept), Ok(true));
    let init = Message::new(SESSION, Update::InitRedeem(vec![1u8; 63], vec![2u8; 33]), vec![]);
    assert_eq!(process_message(&mut seller, &init), Err(ErrorKind::InvalidSignature));
    assert_eq!(seller.state, StateId::Cancelled);
    assert!(seller.adaptor_signature.is_none());
}

#[test]
fn incomplete_multisig_cancels() {
    let mut seller = session(true, true);
    seller.multisig = Builder::new(0, 1, 1_000_000_000);
    let accept = Message::new(SESSION, Update::AcceptOffer(commitment(2)), vec![]);
    assert_eq!(process_message(&mut seller, &accept), Ok(true));
    assert_eq!(seller.state, StateId::Offered);
    let init = Message::new(SESSION, Update::InitRedeem(vec![1u8; 64], vec![2u8; 33]), vec![]);
    assert_eq!(process_message(&mut seller, &init), Err(ErrorKind::UnexpectedAction));
    seller.state = StateId::MultisigCommitted;
    assert_eq!(process_message(&mut seller, &init), Err(ErrorKind::MultiSigIncomplete));
    assert_eq!(seller.state, StateId::Cancelled);
}

#[test]
fn offer_expires() {
    let seller = session(true, true);
    let t = seller.get_time_message_offers();
    assert_eq!(next_state(&seller, t, &quiet()), StateId::Offered);
    assert_eq!(next_state(&seller, t + 1, &quiet()), StateId::Cancelled);
}

#[test]
fn buyer_locks_first_ordering() {
    let mut seller = session(true, false);
    let mut buyer = session(false, false);
    exchange_messages(&mut seller, &mut buyer);
    let t = buyer.get_time_message_offers();
    assert_eq!(required_action(&buyer, buyer.state, t, &quiet()), Action::PostSecondaryLock);
    assert_eq!(required_action(&seller, seller.state, t, &quiet()), Action::Nothing);
    // The seller gives up when the buyer's lock is not there by the start of locking.
    assert_eq!(next_state(&seller, seller.get_time_start_lock() + 1, &quiet()), StateId::Cancelled);
    // The buyer, locking first, may still post until the lock deadline.
    assert_eq!(next_state(&buyer, buyer.get_time_start_lock() + 1, &quiet()), StateId::MultisigComplete);
    assert_eq!(next_state(&buyer, buyer.get_time_locking() + 1, &quiet()), StateId::Cancelled);
    let posted = Observations { secondary_lock_posted: true, ..quiet() };
    assert_eq!(next_state(&seller, t, &posted), StateId::Locking);
}

#[test]
fn buyer_refunds_secondary_after_lock_expiry() {
    let mut buyer = session(false, true);
    buyer.state = StateId::WaitForRefund;
    let obs = both_locked();
    let t = buyer.get_time_btc_lock();
    assert_eq!(required_action(&buyer, buyer.state, t - 1, &obs), Action::Nothing);
    assert_eq!(required_action(&buyer, buyer.state, t, &obs), Action::RefundSecondary);
    let done = Observations { refund_confirmed: true, ..obs };
    assert_eq!(next_state(&buyer, t + 10, &done), StateId::Refunded);
}

#[test]
fn cancel_only_before_lock() {
    let mut s = session(true, true);
    assert_eq!(cancel(&mut s), Ok(()));
    assert_eq!(s.state, StateId::Cancelled);
    let mut locked = session(true, true);
    locked.state = StateId::Locking;
    assert_eq!(cancel(&mut locked), Err(ErrorKind::InvalidState));
    assert_eq!(locked.state, StateId::Locking);
}

#[test]
fn session_accessors() {
    let seller = session(true, true);
    let buyer = session(false, true);
    assert!(seller.is_seller());
    assert!(!buyer.is_seller());
    assert_eq!(seller.other_participant_id(), 1);
    assert_eq!(buyer.other_participant_id(), 0);
    assert_eq!(seller.unwrap_seller(), Ok(("refund-address".to_string(), 0)));
    assert_eq!(buyer.unwrap_seller(), Err(ErrorKind::UnexpectedRole));
    assert_eq!(seller.change_output(&vec![600_000_000, 500_000_000]), 100_000_000);
    assert_eq!(seller.change_output(&vec![600_000_000]), 0);
    assert_eq!(Currency::Bch.block_time_period_sec(), 600);
    let m = seller.message(Update::Redeem(vec![1]), vec![2]);
    assert_eq!(m.id, SESSION);
    assert_eq!(m.ordinal(), 2);
}

#[test]
fn redeem_fields_need_two_participants() {
    let seller = session(true, true);
    let mut s = slate(0x30, 8_000_000);
    assert_eq!(seller.redeem_tx_fields(&s), Err(ErrorKind::InvalidState));
    s.participant_data.push(ParticipantData {
        id: 0,
        public_blind_excess: vec![1u8; 33],
        public_nonce: vec![1u8; 33],
        part_sig: None,
    });
    assert_eq!(seller.redeem_tx_fields(&s), Err(ErrorKind::InvalidState));
}

#[test]
fn new_session_checks_invariants() {
    let opened = Swap::new(
        SESSION,
        Network::Mainnet,
        Role::Buyer,
        true,
        STARTED,
        1_000_000_000,
        100_000,
        Currency::Btc,
        (0x21, 0x22, 0x23),
        8_000_000,
        10,
        6,
        3600,
        1800,
    )
    .unwrap();
    assert_eq!(opened.participant_id, 1);
    assert_eq!(opened.multisig.party_id, 1);
    assert_eq!(opened.multisig.phase, Phase::Empty);
    assert_eq!(opened.state, StateId::Offered);
    assert_eq!(opened.refund_slate.fee, 8_000_000);
    assert_eq!(opened.refund_amount(), 992_000_000);
    assert!(opened.check_schedule());

    let seller = Swap::new(
        SESSION, Network::Mainnet, Role::Seller("a".to_string(), 5), true, STARTED,
        1_000, 1, Currency::Btc, (1, 2, 3), 999, 10, 6, 3600, 1800,
    )
    .unwrap();
    assert_eq!(seller.participant_id, 0);

    let fee_too_high = Swap::new(
        SESSION, Network::Mainnet, Role::Buyer, true, STARTED,
        1_000, 1, Currency::Btc, (1, 2, 3), 1_000, 10, 6, 3600, 1800,
    );
    assert_eq!(fee_too_high.err(), Some(ErrorKind::InvalidState));
    let same_ids = Swap::new(
        SESSION, Network::Mainnet, Role::Buyer, true, STARTED,
        1_000, 1, Currency::Btc, (1, 1, 3), 10, 10, 6, 3600, 1800,
    );
    assert_eq!(same_ids.err(), Some(ErrorKind::InvalidState));
    let id_reused = Swap::new(
        SESSION, Network::Mainnet, Role::Buyer, true, STARTED,
        1_000, 1, Currency::Btc, (SESSION, 2, 3), 10, 10, 6, 3600, 1800,
    );
    assert_eq!(id_reused.err(), Some(ErrorKind::InvalidState));
}

#[test]
fn schedule_check_rejects_overflow() {
    let mut s = session(true, true);
    assert!(s.check_schedule());
    s.mwc_confirmations = u64::MAX / 100;
    assert!(!s.check_schedule());
    let mut t = session(true, true);
    t.started = -1;
    assert!(!t.check_schedule());
    let mut u = session(true, true);
    u.redeem_time_sec = u64::MAX / 2;
    assert!(!u.check_schedule());
}

#[test]
fn sent_messages_are_cached() {
    let mut s = session(true, true);
    let first = s.message(Update::Offer(commitment(1)), vec![]);
    s.record_sent_message(first);
    assert!(s.message1.is_some());
    assert!(s.message2.is_none());
    let second = s.message(Update::Redeem(vec![3u8; 64]), vec![]);
    s.record_sent_message(second);
    assert!(matches!(s.message2.as_ref().unwrap().inner, Update::Redeem(_)));
    assert!(matches!(s.message1.as_ref().unwrap().inner, Update::Offer(_)));
}

#[test]
fn resent_offer_while_waiting_changes_nothing() {
    let mut buyer = session(false, true);
    buyer.multisig = Builder::new(1, 0, 1_000_000_000);
    let offer = Message::new(SESSION, Update::Offer(commitment(1)), vec![]);
    assert_eq!(process_message(&mut buyer, &offer), Ok(true));
    assert_eq!(buyer.state, StateId::Offered);
    assert_eq!(process_message(&mut buyer, &offer), Ok(false));
    assert_eq!(buyer.state, StateId::Offered);
    assert_eq!(buyer.multisig.participants[0].partial_commitment, Some(commitment(1)));
    let other = Message::new(SESSION, Update::Offer(commitment(5)), vec![]);
    assert_eq!(process_message(&mut buyer, &other), Err(ErrorKind::InvalidProof));
    assert_eq!(buyer.state, StateId::Cancelled);
}

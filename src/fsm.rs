//! The swap state machine: state identifiers, the time- and
//! observation-driven transitions, and the handling of peer messages.
use vstd::prelude::*;

use crate::error::ErrorKind;
use crate::message::{update_ordinal, Message, Update};
use crate::multisig::{bytes_equal, Builder, Phase};
use crate::swap::{copy_bytes, Swap};

verus! {

/// Where a session stands.
#[derive(Debug, Clone, Copy, PartialEq, Eq, Structural)]
pub enum StateId {
    /// Offer made or received; the partial commitments are being exchanged.
    Offered,
    /// Both partial commitments are known.
    MultisigCommitted,
    /// The multisig is final and the refund and redeem slates are signed.
    MultisigComplete,
    /// The first lock is posted; waiting for both chains to confirm.
    Locking,
    /// Both chains show their locks at the required depth.
    Locked,
    /// Buyer: the redeem slate is posted; waiting for its confirmation.
    Redeeming,
    /// Seller: the secret is known; redeeming the secondary coins.
    RedeemSecondary,
    /// A deadline passed without the expected event; waiting to refund.
    WaitForRefund,
    /// The trade completed.
    Success,
    /// The locked coins went back to their owner.
    Refunded,
    /// The trade stopped before any coins of this party were at stake.
    Cancelled,
}

/// What the caller observed on the two chains, handed in by the caller.
#[derive(Debug, Clone, Copy)]
pub struct Observations {
    /// The Seller's lock transaction is on the primary chain.
    pub primary_lock_posted: bool,
    /// The Buyer's lock transaction is on the secondary chain.
    pub secondary_lock_posted: bool,
    pub primary_lock_confirmations: u64,
    pub secondary_lock_confirmations: u64,
    /// The redeem kernel is on the primary chain.
    pub redeem_kernel_found: bool,
    /// This party's redeem transaction is confirmed.
    pub redeem_confirmed: bool,
    /// This party's refund transaction is confirmed.
    pub refund_confirmed: bool,
}

/// What the caller has to do in the current state.
#[derive(Debug, Clone, Copy, PartialEq, Eq, Structural)]
pub enum Action {
    Nothing,
    PostPrimaryLock,
    PostSecondaryLock,
    /// Buyer: publish the redeem slate.
    PostRedeem,
    /// Seller: redeem the secondary coins with the extracted secret.
    RedeemSecondary,
    /// Seller: publish the refund slate.
    PostRefund,
    /// Buyer: take the secondary coins back.
    RefundSecondary,
}

/// Terminal states change no more.
pub open spec fn is_terminal(s: StateId) -> bool {
    s == StateId::Success || s == StateId::Refunded || s == StateId::Cancelled
}

/// How far a state is along the protocol; transitions only go up.
pub open spec fn rank(s: StateId) -> int {
    match s {
        StateId::Offered => 0,
        StateId::MultisigCommitted => 1,
        StateId::MultisigComplete => 2,
        StateId::Locking => 3,
        StateId::Locked => 4,
        StateId::WaitForRefund => 5,
        StateId::Redeeming => 6,
        StateId::RedeemSecondary => 7,
        StateId::Success => 8,
        StateId::Refunded => 8,
        StateId::Cancelled => 8,
    }
}

/// This party's lock goes on chain first.
pub open spec fn locks_first(swap: Swap) -> bool {
    swap.spec_is_seller() == swap.seller_lock_first
}

pub open spec fn own_lock_posted(swap: Swap, obs: Observations) -> bool {
    if swap.spec_is_seller() {
        obs.primary_lock_posted
    } else {
        obs.secondary_lock_posted
    }
}

pub open spec fn first_lock_posted(swap: Swap, obs: Observations) -> bool {
    if swap.seller_lock_first {
        obs.primary_lock_posted
    } else {
        obs.secondary_lock_posted
    }
}

pub open spec fn locks_confirmed(swap: Swap, obs: Observations) -> bool {
    obs.primary_lock_confirmations >= swap.mwc_confirmations
        && obs.secondary_lock_confirmations >= swap.secondary_confirmations
}

/// One transition, from state `s` at time `now`.
pub open spec fn step_spec(swap: Swap, s: StateId, now: int, obs: Observations) -> StateId {
    match s {
        StateId::Offered | StateId::MultisigCommitted => if now > swap.t_offers() {
            StateId::Cancelled
        } else {
            s
        },
        StateId::MultisigComplete => if first_lock_posted(swap, obs) {
            StateId::Locking
        } else if locks_first(swap) {
            if now > swap.t_locked() {
                StateId::Cancelled
            } else {
                s
            }
        } else if now >= swap.t_start_lock() {
            StateId::Cancelled
        } else {
            s
        },
        StateId::Locking => if locks_confirmed(swap, obs) {
            StateId::Locked
        } else if now > swap.t_locked() {
            if own_lock_posted(swap, obs) {
                StateId::WaitForRefund
            } else {
                StateId::Cancelled
            }
        } else {
            s
        },
        StateId::Locked => if obs.redeem_kernel_found {
            if swap.spec_is_seller() {
                StateId::RedeemSecondary
            } else {
                StateId::Redeeming
            }
        } else if now > swap.t_mwc_redeem() {
            StateId::WaitForRefund
        } else {
            s
        },
        StateId::WaitForRefund => if swap.spec_is_seller() && obs.redeem_kernel_found {
            StateId::RedeemSecondary
        } else if obs.refund_confirmed {
            StateId::Refunded
        } else {
            s
        },
        StateId::Redeeming | StateId::RedeemSecondary => if obs.redeem_confirmed {
            StateId::Success
        } else {
            s
        },
        _ => s,
    }
}

/// The state reached by taking transitions until none applies.
pub open spec fn settle(swap: Swap, s: StateId, now: int, obs: Observations) -> StateId
    decreases 8 - rank(s),
{
    let n = step_spec(swap, s, now, obs);
    if n == s || rank(n) <= rank(s) {
        s
    } else {
        settle(swap, n, now, obs)
    }
}

/// A transition leaves the state or moves it up.
pub proof fn lemma_step_moves_up(swap: Swap, s: StateId, now: int, obs: Observations)
    ensures
        step_spec(swap, s, now, obs) == s || rank(step_spec(swap, s, now, obs)) > rank(s),
        0 <= rank(s) <= 8,
        is_terminal(s) ==> step_spec(swap, s, now, obs) == s,
{
}

/// A settled state takes no further transition.
pub proof fn lemma_settle_is_fixpoint(swap: Swap, s: StateId, now: int, obs: Observations)
    ensures
        step_spec(swap, settle(swap, s, now, obs), now, obs) == settle(swap, s, now, obs),
    decreases 8 - rank(s),
{
    lemma_step_moves_up(swap, s, now, obs);
    let n = step_spec(swap, s, now, obs);
    if n != s && rank(n) > rank(s) {
        lemma_step_moves_up(swap, n, now, obs);
        lemma_settle_is_fixpoint(swap, n, now, obs);
    }
}

/// Settling twice at one time with one set of observations gives what
/// settling once gave: re-entering the machine after a crash repeats nothing.
pub proof fn lemma_next_state_idempotent(swap: Swap, now: int, obs: Observations)
    ensures
        settle(swap, settle(swap, swap.state, now, obs), now, obs) == settle(
            swap,
            swap.state,
            now,
            obs,
        ),
{
    lemma_settle_is_fixpoint(swap, swap.state, now, obs);
}

/// The trade completes: a session past its message rounds whose first lock
/// is posted, whose locks both reach their depth and whose redeem is seen
/// on chain and confirmed settles in `Success`, for the Seller and the
/// Buyer alike.
pub proof fn lemma_happy_path_succeeds(swap: Swap, now: int, obs: Observations)
    requires
        swap.state == StateId::MultisigComplete || swap.state == StateId::Locking || swap.state
            == StateId::Locked,
        first_lock_posted(swap, obs),
        locks_confirmed(swap, obs),
        obs.redeem_kernel_found,
        obs.redeem_confirmed,
    ensures
        settle(swap, swap.state, now, obs) == StateId::Success,
{
    reveal_with_fuel(settle, 6);
}

/// One transition, from state `s` at time `now`.
pub fn step(swap: &Swap, s: StateId, now: u64, obs: &Observations) -> (r: StateId)
    requires
        swap.schedule_fits(),
    ensures
        r == step_spec(*swap, s, now as int, *obs),
{
    let seller = swap.is_seller();
    match s {
        StateId::Offered | StateId::MultisigCommitted => {
            if now > swap.get_time_message_offers() {
                StateId::Cancelled
            } else {
                s
            }
        },
        StateId::MultisigComplete => {
            let first_posted = if swap.seller_lock_first {
                obs.primary_lock_posted
            } else {
                obs.secondary_lock_posted
            };
            if first_posted {
                StateId::Locking
            } else if seller == swap.seller_lock_first {
                if now > swap.get_time_locking() {
                    StateId::Cancelled
                } else {
                    s
                }
            } else if now >= swap.get_time_start_lock() {
                StateId::Cancelled
            } else {
                s
            }
        },
        StateId::Locking => {
            if obs.primary_lock_confirmations >= swap.mwc_confirmations
                && obs.secondary_lock_confirmations >= swap.secondary_confirmations {
                StateId::Locked
            } else if now > swap.get_time_locking() {
                let own_posted = if seller {
                    obs.primary_lock_posted
                } else {
                    obs.secondary_lock_posted
                };
                if own_posted {
                    StateId::WaitForRefund
                } else {
                    StateId::Cancelled
                }
            } else {
                s
            }
        },
        StateId::Locked => {
            if obs.redeem_kernel_found {
                if seller {
                    StateId::RedeemSecondary
                } else {
                    StateId::Redeeming
                }
            } else if now > swap.get_time_mwc_redeem() {
                StateId::WaitForRefund
            } else {
                s
            }
        },
        StateId::WaitForRefund => {
            if seller && obs.redeem_kernel_found {
                StateId::RedeemSecondary
            } else if obs.refund_confirmed {
                StateId::Refunded
            } else {
                s
            }
        },
        StateId::Redeeming | StateId::RedeemSecondary => {
            if obs.redeem_confirmed {
                StateId::Success
            } else {
                s
            }
        },
        _ => s,
    }
}

/// The state the session is in at time `now`, given what was observed: all
/// transitions that apply are taken, and only those.
pub fn next_state(swap: &Swap, now: u64, obs: &Observations) -> (r: StateId)
    requires
        swap.schedule_fits(),
    ensures
        r == settle(*swap, swap.state, now as int, *obs),
        step_spec(*swap, r, now as int, *obs) == r,
        step_spec(*swap, swap.state, now as int, *obs) == swap.state ==> r == swap.state,
        is_terminal(step_spec(*swap, swap.state, now as int, *obs)) ==> r == step_spec(
            *swap,
            swap.state,
            now as int,
            *obs,
        ),
{
    let mut s = swap.state;
    proof {
        lemma_settle_is_fixpoint(*swap, swap.state, now as int, *obs);
        let n = step_spec(*swap, swap.state, now as int, *obs);
        lemma_step_moves_up(*swap, swap.state, now as int, *obs);
        lemma_step_moves_up(*swap, n, now as int, *obs);
        if is_terminal(n) && n != swap.state {
            assert(step_spec(*swap, n, now as int, *obs) == n);
            assert(settle(*swap, n, now as int, *obs) == n);
            assert(settle(*swap, swap.state, now as int, *obs) == settle(*swap, n, now as int, *obs));
        }
    }
    loop
        invariant
            swap.schedule_fits(),
            settle(*swap, s, now as int, *obs) == settle(*swap, swap.state, now as int, *obs),
            is_terminal(step_spec(*swap, swap.state, now as int, *obs)) ==> settle(
                *swap,
                swap.state,
                now as int,
                *obs,
            ) == step_spec(*swap, swap.state, now as int, *obs),
        decreases 8 - rank(s),
    {
        proof {
            lemma_step_moves_up(*swap, s, now as int, *obs);
        }
        let n = step(swap, s, now, obs);
        if n == s {
            return s;
        }
        s = n;
    }
}

/// What the caller has to do in state `s` at time `now`. Actions are
/// decided from observations, so an action already carried out and seen on
/// chain is not asked for again.
pub open spec fn action_spec(swap: Swap, s: StateId, now: int, obs: Observations) -> Action {
    let seller = swap.spec_is_seller();
    let own_lock = if seller {
        Action::PostPrimaryLock
    } else {
        Action::PostSecondaryLock
    };
    match s {
        StateId::MultisigComplete => if locks_first(swap) && !own_lock_posted(swap, obs) {
            own_lock
        } else {
            Action::Nothing
        },
        StateId::Locking => if !own_lock_posted(swap, obs) {
            own_lock
        } else {
            Action::Nothing
        },
        StateId::Locked => if !seller && !obs.redeem_kernel_found {
            Action::PostRedeem
        } else {
            Action::Nothing
        },
        StateId::RedeemSecondary => if !obs.redeem_confirmed {
            Action::RedeemSecondary
        } else {
            Action::Nothing
        },
        StateId::WaitForRefund => if obs.refund_confirmed {
            Action::Nothing
        } else if seller && now >= swap.t_mwc_refund() {
            Action::PostRefund
        } else if !seller && now >= swap.t_btc_lock_expire() {
            Action::RefundSecondary
        } else {
            Action::Nothing
        },
        _ => Action::Nothing,
    }
}

/// What the caller has to do in state `s` at time `now`.
pub fn required_action(swap: &Swap, s: StateId, now: u64, obs: &Observations) -> (r: Action)
    requires
        swap.schedule_fits(),
    ensures
        r == action_spec(*swap, s, now as int, *obs),
{
    let seller = swap.is_seller();
    let own_posted = if seller {
        obs.primary_lock_posted
    } else {
        obs.secondary_lock_posted
    };
    let own_lock = if seller {
        Action::PostPrimaryLock
    } else {
        Action::PostSecondaryLock
    };
    match s {
        StateId::MultisigComplete => {
            if seller == swap.seller_lock_first && !own_posted {
                own_lock
            } else {
                Action::Nothing
            }
        },
        StateId::Locking => {
            if !own_posted {
                own_lock
            } else {
                Action::Nothing
            }
        },
        StateId::Locked => {
            if !seller && !obs.redeem_kernel_found {
                Action::PostRedeem
            } else {
                Action::Nothing
            }
        },
        StateId::RedeemSecondary => {
            if !obs.redeem_confirmed {
                Action::RedeemSecondary
            } else {
                Action::Nothing
            }
        },
        StateId::WaitForRefund => {
            if obs.refund_confirmed {
                Action::Nothing
            } else if seller && now >= swap.get_time_mwc_refund() {
                Action::PostRefund
            } else if !seller && now >= swap.get_time_btc_lock() {
                Action::RefundSecondary
            } else {
                Action::Nothing
            }
        },
        _ => Action::Nothing,
    }
}

/// The state in which a message of this ordinal is awaited.
pub open spec fn awaited_state(ordinal: int) -> StateId {
    if ordinal == 1 {
        StateId::Offered
    } else {
        StateId::MultisigCommitted
    }
}

/// The Seller receives `AcceptOffer` and `InitRedeem`; the Buyer `Offer` and
/// `Redeem`.
pub open spec fn addressed_to(swap: Swap, u: Update) -> bool {
    match u {
        Update::Offer(_) => !swap.spec_is_seller(),
        Update::AcceptOffer(_) => swap.spec_is_seller(),
        Update::InitRedeem(_, _) => swap.spec_is_seller(),
        Update::Redeem(_) => !swap.spec_is_seller(),
    }
}

/// The peer's partial commitment carried by a first-round message.
pub open spec fn round_one_commitment(u: Update) -> Seq<u8> {
    match u {
        Update::Offer(c) => c@,
        Update::AcceptOffer(c) => c@,
        _ => Seq::empty(),
    }
}

/// The session after a protocol violation: cancelled, nothing else changed.
pub open spec fn cancelled(swap: Swap) -> Swap {
    Swap { state: StateId::Cancelled, ..swap }
}

/// Applies a message of the peer. A message of another session, of the
/// wrong role or ahead of the session is refused and changes nothing; one
/// whose round is already behind the session is a resend and is ignored
/// (`Ok(false)`), as is a first-round message whose commitment is already
/// recorded. A message that breaks the protocol cancels the session.
pub fn process_message(swap: &mut Swap, msg: &Message) -> (r: Result<bool, ErrorKind>)
    requires
        old(swap).wf(),
    ensures
        final(swap).wf(),
        msg.id != old(swap).id ==> r == Err::<bool, ErrorKind>(ErrorKind::InvalidMessageData)
            && *final(swap) == *old(swap),
        msg.id == old(swap).id && !addressed_to(*old(swap), msg.inner) ==> r == Err::<
            bool,
            ErrorKind,
        >(ErrorKind::UnexpectedRole) && *final(swap) == *old(swap),
        msg.id == old(swap).id && addressed_to(*old(swap), msg.inner) && rank(old(swap).state)
            > rank(awaited_state(update_ordinal(msg.inner))) ==> r == Ok::<bool, ErrorKind>(false)
            && *final(swap) == *old(swap),
        msg.id == old(swap).id && addressed_to(*old(swap), msg.inner) && rank(old(swap).state)
            < rank(awaited_state(update_ordinal(msg.inner))) ==> r == Err::<bool, ErrorKind>(
            ErrorKind::UnexpectedAction,
        ) && *final(swap) == *old(swap),
        msg.id == old(swap).id && addressed_to(*old(swap), msg.inner) && old(swap).state
            == awaited_state(update_ordinal(msg.inner)) ==> (r == Ok::<bool, ErrorKind>(false)
            ==> *final(swap) == *old(swap)) && (r.is_err() ==> *final(swap) == cancelled(
            *old(swap),
        )),
        // First round: the peer's partial commitment.
        msg.id == old(swap).id && addressed_to(*old(swap), msg.inner) && old(swap).state
            == StateId::Offered && update_ordinal(msg.inner) == 1 ==> {
            let c = round_one_commitment(msg.inner);
            let peer = old(swap).multisig.participants@[old(swap).multisig.other_party_id as int];
            let ms = final(swap).multisig;
            &&& (match peer.partial_commitment {
                Some(p) => p@ == c,
                None => false,
            }) ==> r == Ok::<bool, ErrorKind>(false) && *final(swap) == *old(swap)
            &&& !(match peer.partial_commitment {
                Some(p) => p@ == c,
                None => crate::multisig::is_commitment_bytes(c),
            }) ==> r == Err::<bool, ErrorKind>(ErrorKind::InvalidProof)
            &&& peer.partial_commitment.is_none() && crate::multisig::is_commitment_bytes(c) ==> {
                &&& r == Ok::<bool, ErrorKind>(true)
                &&& ms.commitments() == old(swap).multisig.commitments().update(
                    old(swap).multisig.other_party_id as int,
                    Some(c),
                )
                &&& ms.phase == (if old(swap).multisig.phase == Phase::Complete {
                    Phase::Complete
                } else {
                    Phase::Commit
                })
                &&& *final(swap) == (Swap {
                    state: if ms.both_known() {
                        StateId::MultisigCommitted
                    } else {
                        StateId::Offered
                    },
                    multisig: (Builder {
                        participants: ms.participants,
                        phase: ms.phase,
                        ..old(swap).multisig
                    }),
                    ..*old(swap)
                })
            }
        },
        // Second round, Seller: the Buyer's adaptor signature.
        msg.id == old(swap).id && old(swap).spec_is_seller() && old(swap).state
            == StateId::MultisigCommitted ==> match msg.inner {
            Update::InitRedeem(sig, public) => {
                &&& r.is_ok() <==> sig@.len() == 64 && old(swap).multisig.both_known()
                &&& sig@.len() != 64 ==> r == Err::<bool, ErrorKind>(ErrorKind::InvalidSignature)
                &&& sig@.len() == 64 && !old(swap).multisig.both_known() ==> r == Err::<
                    bool,
                    ErrorKind,
                >(ErrorKind::MultiSigIncomplete)
                &&& r.is_ok() ==> *final(swap) == (Swap {
                    state: StateId::MultisigComplete,
                    multisig: (Builder { phase: Phase::Complete, ..old(swap).multisig }),
                    adaptor_signature: final(swap).adaptor_signature,
                    redeem_public: final(swap).redeem_public,
                    ..*old(swap)
                })
                    && final(swap).adaptor_signature.is_some()
                    && final(swap).adaptor_signature.unwrap()@ == sig@
                    && final(swap).redeem_public.is_some()
                    && final(swap).redeem_public.unwrap()@ == public@
            },
            _ => true,
        },
        // Second round, Buyer: the Seller's answer.
        msg.id == old(swap).id && !old(swap).spec_is_seller() && old(swap).state
            == StateId::MultisigCommitted ==> match msg.inner {
            Update::Redeem(_) => {
                &&& r.is_ok() <==> old(swap).multisig.both_known()
                &&& r.is_err() ==> r == Err::<bool, ErrorKind>(ErrorKind::MultiSigIncomplete)
                &&& r.is_ok() ==> *final(swap) == (Swap {
                    state: StateId::MultisigComplete,
                    multisig: (Builder { phase: Phase::Complete, ..old(swap).multisig }),
                    ..*old(swap)
                })
            },
            _ => true,
        },
{
    if msg.id != swap.id {
        return Err(ErrorKind::InvalidMessageData);
    }
    let seller = swap.is_seller();
    let addressed = match &msg.inner {
        Update::Offer(_) => !seller,
        Update::AcceptOffer(_) => seller,
        Update::InitRedeem(_, _) => seller,
        Update::Redeem(_) => !seller,
    };
    if !addressed {
        return Err(ErrorKind::UnexpectedRole);
    }
    let ordinal = msg.ordinal();
    let awaited = if ordinal == 1 {
        StateId::Offered
    } else {
        StateId::MultisigCommitted
    };
    let state_rank = rank_of(swap.state);
    let awaited_rank = rank_of(awaited);
    if state_rank > awaited_rank {
        return Ok(false);
    }
    if state_rank < awaited_rank {
        return Err(ErrorKind::UnexpectedAction);
    }
    match &msg.inner {
        Update::Offer(c) | Update::AcceptOffer(c) => {
            let other = swap.multisig.other_party_id;
            let known_already = match &swap.multisig.participants[other].partial_commitment {
                Some(p) => bytes_equal(p, c),
                None => false,
            };
            if known_already {
                return Ok(false);
            }
            let commit = copy_bytes(c);
            match swap.multisig.import_partial_commitment(commit) {
                Ok(()) => {
                    let known = swap.multisig.participants[0].partial_commitment.is_some()
                        && swap.multisig.participants[1].partial_commitment.is_some();
                    if known {
                        swap.state = StateId::MultisigCommitted;
                    }
                    Ok(true)
                },
                Err(e) => {
                    swap.state = StateId::Cancelled;
                    Err(e)
                },
            }
        },
        Update::InitRedeem(sig, public) => {
            if sig.len() != 64 {
                swap.state = StateId::Cancelled;
                return Err(ErrorKind::InvalidSignature);
            }
            match swap.multisig.finalize() {
                Ok(()) => {
                    swap.adaptor_signature = Some(copy_bytes(sig));
                    swap.redeem_public = Some(copy_bytes(public));
                    swap.state = StateId::MultisigComplete;
                    Ok(true)
                },
                Err(e) => {
                    swap.state = StateId::Cancelled;
                    Err(e)
                },
            }
        },
        Update::Redeem(_) => {
            match swap.multisig.finalize() {
                Ok(()) => {
                    swap.state = StateId::MultisigComplete;
                    Ok(true)
                },
                Err(e) => {
                    swap.state = StateId::Cancelled;
                    Err(e)
                },
            }
        },
    }
}

/// The rank of a state.
pub fn rank_of(s: StateId) -> (r: u8)
    ensures
        r == rank(s),
{
    match s {
        StateId::Offered => 0,
        StateId::MultisigCommitted => 1,
        StateId::MultisigComplete => 2,
        StateId::Locking => 3,
        StateId::Locked => 4,
        StateId::WaitForRefund => 5,
        StateId::Redeeming => 6,
        StateId::RedeemSecondary => 7,
        StateId::Success => 8,
        StateId::Refunded => 8,
        StateId::Cancelled => 8,
    }
}

/// Asks to stop the trade. Before any lock is posted the session is
/// cancelled; later the request is refused and the session goes on.
pub fn cancel(swap: &mut Swap) -> (r: Result<(), ErrorKind>)
    ensures
        rank(old(swap).state) <= 2 ==> r.is_ok() && *final(swap) == cancelled(*old(swap)),
        rank(old(swap).state) > 2 ==> r == Err::<(), ErrorKind>(ErrorKind::InvalidState)
            && *final(swap) == *old(swap),
{
    if rank_of(swap.state) <= 2 {
        swap.state = StateId::Cancelled;
        Ok(())
    } else {
        Err(ErrorKind::InvalidState)
    }
}

} // verus!

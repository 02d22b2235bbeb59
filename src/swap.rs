//! The swap session record and the deadlines derived from it.
use vstd::prelude::*;

use crate::error::ErrorKind;
use crate::fsm::StateId;
use crate::message::{update_ordinal, Message, Update};
use crate::multisig::{Builder, Phase};
use crate::scalar::{combine_public_keys, public_key_sum_of};
use crate::slate::{kernel_message, kernel_message_of, Slate, FEE_MASK};

verus! {

/// Network of a session; both parties must agree on it.
#[derive(Debug, Clone, Copy, PartialEq, Eq, Structural)]
pub enum Network {
    Mainnet,
    Floonet,
}

/// The party's economic position in the trade.
#[derive(Debug, Clone)]
pub enum Role {
    /// Holds the primary-chain coins: refund address and change amount.
    Seller(String, u64),
    /// Holds the secondary-chain coins.
    Buyer,
}

/// The secondary chain of a trade.
#[derive(Debug, Clone, Copy, PartialEq, Eq, Structural)]
pub enum Currency {
    Btc,
    Bch,
}

pub open spec fn block_time_period(c: Currency) -> int {
    match c {
        Currency::Btc => 600,
        Currency::Bch => 600,
    }
}

impl Currency {
    /// Seconds between two blocks of the secondary chain.
    pub fn block_time_period_sec(&self) -> (r: u64)
        ensures
            r == block_time_period(*self),
    {
        match self {
            Currency::Btc => 600,
            Currency::Bch => 600,
        }
    }
}

/// The record of one trade, shared in shape by Seller and Buyer.
#[derive(Debug, Clone)]
pub struct Swap {
    pub id: u128,
    /// Reserved; always 0.
    pub idx: u32,
    pub version: u8,
    pub network: Network,
    pub role: Role,
    /// Seller locks the primary coins first when true, else the Buyer locks
    /// the secondary coins first.
    pub seller_lock_first: bool,
    /// Unix seconds at which the session started.
    pub started: i64,
    pub state: StateId,
    pub primary_amount: u64,
    pub secondary_amount: u64,
    pub secondary_currency: Currency,
    /// Secondary-chain data, opaque to the core.
    pub secondary_data: Vec<u8>,
    /// The Buyer's redeem-slate public blinding key.
    pub redeem_public: Option<Vec<u8>>,
    pub participant_id: usize,
    pub multisig: Builder,
    pub lock_slate: Slate,
    pub refund_slate: Slate,
    pub redeem_slate: Slate,
    /// The Buyer's 64-byte adaptor signature on the redeem kernel.
    pub adaptor_signature: Option<Vec<u8>>,
    pub mwc_confirmations: u64,
    pub secondary_confirmations: u64,
    pub message_exchange_time_sec: u64,
    pub redeem_time_sec: u64,
    pub message1: Option<Message>,
    pub message2: Option<Message>,
}

impl Swap {
    pub open spec fn spec_is_seller(&self) -> bool {
        self.role is Seller
    }

    /// The session invariants.
    pub open spec fn wf(&self) -> bool {
        &&& self.primary_amount > self.refund_slate.fee
        &&& self.participant_id < 2
        &&& self.multisig.wf()
        &&& self.multisig.party_id == self.participant_id
        &&& (self.spec_is_seller() ==> self.participant_id == 0)
        &&& (!self.spec_is_seller() ==> self.participant_id == 1)
        &&& self.lock_slate.id != self.refund_slate.id
        &&& self.lock_slate.id != self.redeem_slate.id
        &&& self.refund_slate.id != self.redeem_slate.id
        &&& self.lock_slate.id != self.id
        &&& self.refund_slate.id != self.id
        &&& self.redeem_slate.id != self.id
        &&& (self.adaptor_signature.is_some() ==> self.redeem_public.is_some()
            && self.multisig.phase == Phase::Complete)
    }

    // The schedule, in Unix seconds.

    pub open spec fn interval_primary(&self) -> int {
        self.mwc_confirmations * 60 * 11 / 10
    }

    pub open spec fn interval_secondary(&self) -> int {
        self.secondary_confirmations * block_time_period(self.secondary_currency) * 11 / 10
    }

    pub open spec fn interval_max(&self) -> int {
        if self.interval_primary() >= self.interval_secondary() {
            self.interval_primary()
        } else {
            self.interval_secondary()
        }
    }

    pub open spec fn t_start(&self) -> int {
        self.started as int
    }

    pub open spec fn t_offers(&self) -> int {
        self.t_start() + self.message_exchange_time_sec
    }

    pub open spec fn t_start_lock(&self) -> int {
        self.t_offers() + self.interval_max() / 20
    }

    pub open spec fn t_locked(&self) -> int {
        self.t_offers() + self.interval_max()
    }

    pub open spec fn t_msg_redeem(&self) -> int {
        self.t_locked() + self.message_exchange_time_sec
    }

    pub open spec fn t_mwc_redeem(&self) -> int {
        self.t_msg_redeem() + self.redeem_time_sec
    }

    pub open spec fn t_mwc_lock_expire(&self) -> int {
        self.t_mwc_redeem() + self.interval_primary()
    }

    pub open spec fn t_mwc_refund(&self) -> int {
        self.t_mwc_lock_expire() + self.redeem_time_sec
    }

    pub open spec fn t_btc_lock_expire(&self) -> int {
        self.t_mwc_refund() + self.redeem_time_sec + self.interval_primary()
            + self.interval_secondary()
    }

    pub open spec fn t_btc_redeem_limit(&self) -> int {
        self.t_btc_lock_expire() - self.interval_secondary()
    }

    /// Every deadline is a `u64`: the start is not before the epoch and the
    /// last deadline does not pass `u64::MAX`.
    pub open spec fn schedule_fits(&self) -> bool {
        &&& self.started >= 0
        &&& self.mwc_confirmations * 660 <= u64::MAX
        &&& self.secondary_confirmations * block_time_period(self.secondary_currency) * 11
            <= u64::MAX
        &&& self.t_btc_lock_expire() <= u64::MAX
    }

    /// The conditions under which `new` opens a session.
    pub open spec fn can_open(
        id: u128,
        primary_amount: u64,
        slate_ids: (u128, u128, u128),
        refund_fee: u64,
    ) -> bool {
        &&& primary_amount > refund_fee
        &&& slate_ids.0 != slate_ids.1
        &&& slate_ids.0 != slate_ids.2
        &&& slate_ids.1 != slate_ids.2
        &&& slate_ids.0 != id
        &&& slate_ids.1 != id
        &&& slate_ids.2 != id
    }

    /// Opens a session in state `Offered`, with empty slates carrying the
    /// given ids (lock, refund, redeem) and a multisig builder for the
    /// party's role: participant 0 for the Seller, 1 for the Buyer. Refused
    /// with `InvalidState` when the refund fee takes the whole amount or
    /// the ids are not distinct.
    pub fn new(
        id: u128,
        network: Network,
        role: Role,
        seller_lock_first: bool,
        started: i64,
        primary_amount: u64,
        secondary_amount: u64,
        secondary_currency: Currency,
        slate_ids: (u128, u128, u128),
        refund_fee: u64,
        mwc_confirmations: u64,
        secondary_confirmations: u64,
        message_exchange_time_sec: u64,
        redeem_time_sec: u64,
    ) -> (r: Result<Swap, ErrorKind>)
        ensures
            r.is_ok() <==> Self::can_open(id, primary_amount, slate_ids, refund_fee),
            r.is_err() ==> r == Err::<Swap, ErrorKind>(ErrorKind::InvalidState),
            r.is_ok() ==> {
                let s = r.unwrap();
                &&& s.wf()
                &&& s.id == id && s.idx == 0 && s.network == network
                &&& s.spec_is_seller() == (role is Seller)
                &&& s.seller_lock_first == seller_lock_first && s.started == started
                &&& s.state == StateId::Offered
                &&& s.primary_amount == primary_amount && s.secondary_amount == secondary_amount
                &&& s.secondary_currency == secondary_currency
                &&& s.lock_slate.id == slate_ids.0 && s.refund_slate.id == slate_ids.1
                    && s.redeem_slate.id == slate_ids.2
                &&& s.refund_slate.fee == refund_fee
                &&& s.mwc_confirmations == mwc_confirmations
                &&& s.secondary_confirmations == secondary_confirmations
                &&& s.message_exchange_time_sec == message_exchange_time_sec
                &&& s.redeem_time_sec == redeem_time_sec
                &&& s.multisig.phase == Phase::Empty
                &&& s.adaptor_signature.is_none() && s.redeem_public.is_none()
                &&& s.message1.is_none() && s.message2.is_none()
            },
    {
        if primary_amount <= refund_fee || slate_ids.0 == slate_ids.1 || slate_ids.0 == slate_ids.2
            || slate_ids.1 == slate_ids.2 || slate_ids.0 == id || slate_ids.1 == id || slate_ids.2
            == id {
            return Err(ErrorKind::InvalidState);
        }
        let participant_id: usize = match role {
            Role::Seller(_, _) => 0,
            Role::Buyer => 1,
        };
        let multisig = Builder::new(participant_id, 1 - participant_id, primary_amount);
        let lock_slate = Slate::new(slate_ids.0, primary_amount, 0);
        let refund_slate = Slate::new(slate_ids.1, primary_amount, refund_fee);
        let redeem_slate = Slate::new(slate_ids.2, primary_amount, 0);
        Ok(Swap {
            id,
            idx: 0,
            version: 1,
            network,
            role,
            seller_lock_first,
            started,
            state: StateId::Offered,
            primary_amount,
            secondary_amount,
            secondary_currency,
            secondary_data: Vec::new(),
            redeem_public: None,
            participant_id,
            multisig,
            lock_slate,
            refund_slate,
            redeem_slate,
            adaptor_signature: None,
            mwc_confirmations,
            secondary_confirmations,
            message_exchange_time_sec,
            redeem_time_sec,
            message1: None,
            message2: None,
        })
    }

    /// Keeps a sent message for retransmission: a first-round message as
    /// `message1`, a second-round one as `message2`.
    pub fn record_sent_message(&mut self, msg: Message)
        ensures
            update_ordinal(msg.inner) == 1 ==> *final(self) == (Swap {
                message1: Some(msg),
                ..*old(self)
            }),
            update_ordinal(msg.inner) == 2 ==> *final(self) == (Swap {
                message2: Some(msg),
                ..*old(self)
            }),
    {
        if msg.ordinal() == 1 {
            self.message1 = Some(msg);
        } else {
            self.message2 = Some(msg);
        }
    }

    /// Whether every deadline of the schedule is a `u64`, the condition the
    /// time getters ask for.
    pub fn check_schedule(&self) -> (r: bool)
        ensures
            r == self.schedule_fits(),
    {
        if self.started < 0 {
            return false;
        }
        let c = self.mwc_confirmations as u128;
        let d = self.secondary_confirmations as u128;
        let p = self.secondary_currency.block_time_period_sec() as u128;
        if c > 27950213745004479 || d > 2795021374500447 {
            return false;
        }
        proof {
            assert(c * 660 <= 27950213745004479 * 660) by (nonlinear_arith)
                requires c <= 27950213745004479;
            assert(d * p * 11 <= 2795021374500447 * 600 * 11) by (nonlinear_arith)
                requires d <= 2795021374500447, p == 600;
        }
        let ip = c * 660 / 10;
        let is = d * p * 11 / 10;
        if c * 660 > 18446744073709551615 || d * p * 11 > 18446744073709551615 {
            return false;
        }
        let im = if ip >= is {
            ip
        } else {
            is
        };
        let m = self.message_exchange_time_sec as u128;
        let r = self.redeem_time_sec as u128;
        let last = self.started as u128 + m + im + m + r + ip + r + r + ip + is;
        proof {
            assert(c * 60 * 11 == c * 660) by (nonlinear_arith);
            assert(d * p * 11 == d * block_time_period(self.secondary_currency) * 11);
        }
        last <= 18446744073709551615
    }

    /// True for the Seller.
    pub fn is_seller(&self) -> (r: bool)
        ensures
            r == self.spec_is_seller(),
    {
        match self.role {
            Role::Seller(_, _) => true,
            Role::Buyer => false,
        }
    }

    /// The Seller's refund address and change amount.
    pub fn unwrap_seller(&self) -> (r: Result<(String, u64), ErrorKind>)
        ensures
            match self.role {
                Role::Seller(address, change) => r.is_ok() && r.unwrap().0@ == address@
                    && r.unwrap().1 == change,
                Role::Buyer => r == Err::<(String, u64), ErrorKind>(ErrorKind::UnexpectedRole),
            },
    {
        match &self.role {
            Role::Seller(address, change) => Ok((address.clone(), *change)),
            Role::Buyer => Err(ErrorKind::UnexpectedRole),
        }
    }

    /// A message of this session.
    pub fn message(&self, inner: Update, inner_secondary: Vec<u8>) -> (r: Message)
        ensures
            r == (Message { id: self.id, inner, inner_secondary }),
    {
        Message::new(self.id, inner, inner_secondary)
    }

    /// What the refund slate returns to the Seller.
    pub fn refund_amount(&self) -> (r: u64)
        requires
            self.primary_amount > self.refund_slate.fee,
        ensures
            r == self.primary_amount - self.refund_slate.fee,
    {
        self.primary_amount - self.refund_slate.fee
    }

    /// The amount of the Seller's change output on the lock slate: what the
    /// inputs hold beyond the primary amount, or 0. Only the Seller has one.
    pub fn change_output(&self, input_values: &Vec<u64>) -> (r: u64)
        requires
            self.spec_is_seller(),
            seq_total(input_values@) <= u64::MAX,
        ensures
            r == if seq_total(input_values@) > self.primary_amount {
                seq_total(input_values@) - self.primary_amount
            } else {
                0
            },
    {
        let mut total: u64 = 0;
        let mut i: usize = 0;
        while i < input_values.len()
            invariant
                0 <= i <= input_values@.len(),
                total == seq_total(input_values@.subrange(0, i as int)),
                seq_total(input_values@) <= u64::MAX,
            decreases input_values@.len() - i,
        {
            proof {
                assert(input_values@.subrange(0, i + 1).drop_last() =~= input_values@.subrange(
                    0,
                    i as int,
                ));
                lemma_seq_total_prefix(input_values@, i + 1);
            }
            total = total + input_values[i];
            i = i + 1;
        }
        proof {
            assert(input_values@.subrange(0, i as int) =~= input_values@);
        }
        total.saturating_sub(self.primary_amount)
    }

    /// The participant id of the other party.
    pub fn other_participant_id(&self) -> (r: usize)
        requires
            self.participant_id < 2,
        ensures
            r == 1 - self.participant_id,
    {
        (self.participant_id + 1) % 2
    }

    /// The excess of the redeem slate's kernel, by which the Seller finds
    /// the Buyer's redeem transaction on chain.
    pub fn redeem_kernel_excess(&self) -> (r: Result<Vec<u8>, ErrorKind>)
        ensures
            self.redeem_slate.kernels@.len() > 0 ==> r.is_ok() && r.unwrap()@
                == self.redeem_slate.kernels@[0].excess@,
            self.redeem_slate.kernels@.len() == 0 ==> r == Err::<Vec<u8>, ErrorKind>(
                ErrorKind::UnexpectedAction,
            ),
    {
        if self.redeem_slate.kernels.len() == 0 {
            return Err(ErrorKind::UnexpectedAction);
        }
        Ok(copy_bytes(&self.redeem_slate.kernels[0].excess))
    }

    /// The redeem kernel's fields: the sum of the participants' public
    /// nonces, the sum of their public blinding excesses, and the message
    /// the kernel signs. A slate without exactly two participants is
    /// refused with `InvalidState`; a fee the kernel cannot carry (above 40
    /// bits) with `InvalidFee`.
    pub fn redeem_tx_fields(&self, redeem_slate: &Slate) -> (r: Result<(Vec<u8>, Vec<u8>, Vec<u8>), ErrorKind>)
        ensures
            redeem_slate.participant_data@.len() != 2 ==> r == Err::<(Vec<u8>, Vec<u8>, Vec<u8>), ErrorKind>(
                ErrorKind::InvalidState,
            ),
            redeem_slate.participant_data@.len() == 2 ==> {
                let pd = redeem_slate.participant_data@;
                let nonces = public_key_sum_of(seq![pd[0].public_nonce@, pd[1].public_nonce@]);
                let blinds = public_key_sum_of(
                    seq![pd[0].public_blind_excess@, pd[1].public_blind_excess@],
                );
                &&& r.is_ok() <==> nonces.is_some() && blinds.is_some() && redeem_slate.fee
                    <= FEE_MASK
                &&& nonces.is_some() && blinds.is_some() && redeem_slate.fee > FEE_MASK ==> r
                    == Err::<(Vec<u8>, Vec<u8>, Vec<u8>), ErrorKind>(ErrorKind::InvalidFee)
                &&& (nonces.is_none() || blinds.is_none()) ==> r == Err::<
                    (Vec<u8>, Vec<u8>, Vec<u8>),
                    ErrorKind,
                >(ErrorKind::Secp)
                &&& r.is_ok() ==> r.unwrap().0@ == nonces.unwrap() && r.unwrap().1@
                    == blinds.unwrap() && r.unwrap().2@ == kernel_message_of(redeem_slate.fee)
            },
    {
        if redeem_slate.participant_data.len() != 2 {
            return Err(ErrorKind::InvalidState);
        }
        let p0 = &redeem_slate.participant_data[0];
        let p1 = &redeem_slate.participant_data[1];
        let mut nonces: Vec<Vec<u8>> = Vec::new();
        nonces.push(copy_bytes(&p0.public_nonce));
        nonces.push(copy_bytes(&p1.public_nonce));
        let mut blinds: Vec<Vec<u8>> = Vec::new();
        blinds.push(copy_bytes(&p0.public_blind_excess));
        blinds.push(copy_bytes(&p1.public_blind_excess));
        proof {
            assert(nonces@.map_values(|k: Vec<u8>| k@) =~= seq![p0.public_nonce@, p1.public_nonce@]);
            assert(blinds@.map_values(|k: Vec<u8>| k@) =~= seq![
                p0.public_blind_excess@,
                p1.public_blind_excess@,
            ]);
        }
        let pub_nonce_sum = match combine_public_keys(&nonces) {
            Some(k) => k,
            None => return Err(ErrorKind::Secp),
        };
        let pub_blind_sum = match combine_public_keys(&blinds) {
            Some(k) => k,
            None => return Err(ErrorKind::Secp),
        };
        if redeem_slate.fee > FEE_MASK {
            return Err(ErrorKind::InvalidFee);
        }
        let message = match kernel_message(redeem_slate.fee) {
            Some(m) => m,
            None => return Err(ErrorKind::InvalidFee),
        };
        Ok((pub_nonce_sum, pub_blind_sum, message))
    }

    /// The common range-proof nonce of the session's multisig.
    pub fn common_nonce(&self) -> (r: Result<Vec<u8>, ErrorKind>)
        requires
            self.multisig.wf(),
        ensures
            match crate::multisig::common_nonce_value(self.multisig.participants@) {
                Ok(v) => r.is_ok() && crate::scalar::is_scalar_bytes(r.unwrap()@)
                    && crate::scalar::be_value(r.unwrap()@) == v,
                Err(e) => r == Err::<Vec<u8>, ErrorKind>(e),
            },
    {
        self.multisig.common_nonce()
    }

    /// Trade starting time.
    pub fn get_time_start(&self) -> (r: u64)
        requires
            self.schedule_fits(),
        ensures
            r == self.t_start(),
    {
        self.started as u64
    }

    /// End of the offer message exchange.
    pub fn get_time_message_offers(&self) -> (r: u64)
        requires
            self.schedule_fits(),
        ensures
            r == self.t_offers(),
    {
        proof {
            self.lemma_deadlines_bounded();
        }
        self.get_time_start() + self.message_exchange_time_sec
    }

    /// When the locking must have started: 5% of the longest lock interval
    /// after the offers.
    pub fn get_time_start_lock(&self) -> (r: u64)
        requires
            self.schedule_fits(),
        ensures
            r == self.t_start_lock(),
    {
        proof {
            self.lemma_deadlines_bounded();
        }
        let a = self.get_timeinterval_mwc_lock();
        let b = self.get_timeinterval_btc_lock();
        let m = if a >= b {
            a
        } else {
            b
        };
        self.get_time_message_offers() + m / 20
    }

    /// When both locks must be confirmed.
    pub fn get_time_locking(&self) -> (r: u64)
        requires
            self.schedule_fits(),
        ensures
            r == self.t_locked(),
    {
        proof {
            self.lemma_deadlines_bounded();
        }
        let a = self.get_timeinterval_mwc_lock();
        let b = self.get_timeinterval_btc_lock();
        let m = if a >= b {
            a
        } else {
            b
        };
        self.get_time_message_offers() + m
    }

    /// End of the second message exchange.
    pub fn get_time_message_redeem(&self) -> (r: u64)
        requires
            self.schedule_fits(),
        ensures
            r == self.t_msg_redeem(),
    {
        proof {
            self.lemma_deadlines_bounded();
        }
        self.get_time_locking() + self.message_exchange_time_sec
    }

    /// End of the Buyer's window to redeem the primary coins.
    pub fn get_time_mwc_redeem(&self) -> (r: u64)
        requires
            self.schedule_fits(),
        ensures
            r == self.t_mwc_redeem(),
    {
        proof {
            self.lemma_deadlines_bounded();
        }
        self.get_time_message_redeem() + self.redeem_time_sec
    }

    /// When the primary lock expires.
    pub fn get_time_mwc_lock(&self) -> (r: u64)
        requires
            self.schedule_fits(),
        ensures
            r == self.t_mwc_lock_expire(),
    {
        proof {
            self.lemma_deadlines_bounded();
        }
        self.get_time_mwc_redeem() + self.get_timeinterval_mwc_lock()
    }

    /// From when the Seller may refund the primary coins.
    pub fn get_time_mwc_refund(&self) -> (r: u64)
        requires
            self.schedule_fits(),
        ensures
            r == self.t_mwc_refund(),
    {
        proof {
            self.lemma_deadlines_bounded();
        }
        self.get_time_mwc_lock() + self.redeem_time_sec
    }

    /// When the secondary lock expires.
    pub fn get_time_btc_lock(&self) -> (r: u64)
        requires
            self.schedule_fits(),
        ensures
            r == self.t_btc_lock_expire(),
    {
        proof {
            self.lemma_deadlines_bounded();
        }
        self.get_time_mwc_refund() + self.redeem_time_sec + self.get_timeinterval_mwc_lock()
            + self.get_timeinterval_btc_lock()
    }

    /// The Seller's last moment to redeem the secondary coins.
    pub fn get_time_btc_redeem_limit(&self) -> (r: u64)
        requires
            self.schedule_fits(),
        ensures
            r == self.t_btc_redeem_limit(),
    {
        proof {
            self.lemma_deadlines_bounded();
        }
        self.get_time_btc_lock() - self.get_timeinterval_btc_lock()
    }

    /// Primary lock interval, with 10% added for chain instability.
    pub fn get_timeinterval_mwc_lock(&self) -> (r: u64)
        requires
            self.schedule_fits(),
        ensures
            r == self.interval_primary(),
    {
        proof {
            assert(self.mwc_confirmations * 60 <= self.mwc_confirmations * 660) by (nonlinear_arith);
            assert(self.mwc_confirmations * 60 * 11 == self.mwc_confirmations * 660) by (nonlinear_arith);
        }
        self.mwc_confirmations * 60 * 11 / 10
    }

    /// Secondary lock interval, with 10% added for chain instability.
    pub fn get_timeinterval_btc_lock(&self) -> (r: u64)
        requires
            self.schedule_fits(),
        ensures
            r == self.interval_secondary(),
    {
        let period = self.secondary_currency.block_time_period_sec();
        proof {
            let c = self.secondary_confirmations as int;
            assert(c * period <= c * period * 11) by (nonlinear_arith)
                requires c >= 0, period >= 0;
        }
        self.secondary_confirmations * period * 11 / 10
    }

    /// All deadlines lie between 0 and the last one.
    proof fn lemma_deadlines_bounded(&self)
        requires
            self.schedule_fits(),
        ensures
            0 <= self.interval_primary(),
            0 <= self.interval_secondary(),
            self.interval_max() / 20 <= self.interval_max(),
            0 <= self.t_start() <= self.t_offers() <= self.t_start_lock() <= self.t_locked()
                <= self.t_msg_redeem() <= self.t_mwc_redeem() <= self.t_mwc_lock_expire()
                <= self.t_mwc_refund() <= self.t_btc_redeem_limit() <= self.t_btc_lock_expire()
                <= u64::MAX,
    {
        let c = self.mwc_confirmations as int;
        let d = self.secondary_confirmations as int;
        let p = block_time_period(self.secondary_currency);
        assert(0 <= c * 60 * 11) by (nonlinear_arith)
            requires c >= 0;
        assert(0 <= d * p * 11) by (nonlinear_arith)
            requires d >= 0, p >= 0;
    }

    /// The deadlines are strictly increasing whenever both time parameters are
    /// positive and the longest lock interval is at least 20 seconds.
    pub proof fn lemma_schedule_strictly_increasing(&self)
        requires
            self.message_exchange_time_sec > 0,
            self.redeem_time_sec > 0,
            self.interval_max() >= 20,
        ensures
            self.t_start() < self.t_offers(),
            self.t_offers() < self.t_start_lock(),
            self.t_start_lock() < self.t_locked(),
            self.t_locked() < self.t_msg_redeem(),
            self.t_msg_redeem() < self.t_mwc_redeem(),
            self.t_mwc_redeem() < self.t_mwc_refund(),
            self.t_mwc_refund() < self.t_btc_lock_expire(),
    {
        let c = self.mwc_confirmations as int;
        let d = self.secondary_confirmations as int;
        let p = block_time_period(self.secondary_currency);
        assert(0 <= c * 60 * 11) by (nonlinear_arith)
            requires c >= 0;
        assert(0 <= d * p * 11) by (nonlinear_arith)
            requires d >= 0, p >= 0;
    }

    /// The Seller's last moment to redeem the secondary coins comes after the
    /// moment from which it may refund the primary ones.
    pub proof fn lemma_redeem_limit_after_refund(&self)
        requires
            self.redeem_time_sec > 0,
        ensures
            self.t_btc_redeem_limit() > self.t_mwc_refund(),
    {
        let c = self.mwc_confirmations as int;
        assert(0 <= c * 60 * 11) by (nonlinear_arith)
            requires c >= 0;
    }
}

/// The sum of a list of amounts.
pub open spec fn seq_total(s: Seq<u64>) -> int
    decreases s.len(),
{
    if s.len() == 0 {
        0
    } else {
        seq_total(s.drop_last()) + s.last()
    }
}

proof fn lemma_seq_total_prefix(s: Seq<u64>, i: int)
    requires
        0 <= i <= s.len(),
    ensures
        0 <= seq_total(s.subrange(0, i)) <= seq_total(s),
    decreases s.len() - i,
{
    if i < s.len() {
        lemma_seq_total_prefix(s, i + 1);
        assert(s.subrange(0, i + 1).drop_last() =~= s.subrange(0, i));
        lemma_seq_total_nonneg(s.subrange(0, i));
    } else {
        assert(s.subrange(0, i) =~= s);
        lemma_seq_total_nonneg(s);
    }
}

proof fn lemma_seq_total_nonneg(s: Seq<u64>)
    ensures
        seq_total(s) >= 0,
    decreases s.len(),
{
    if s.len() > 0 {
        lemma_seq_total_nonneg(s.drop_last());
    }
}

/// A copy of a byte string.
pub fn copy_bytes(b: &Vec<u8>) -> (r: Vec<u8>)
    ensures
        r@ == b@,
{
    let mut r: Vec<u8> = Vec::new();
    let mut i: usize = 0;
    while i < b.len()
        invariant
            0 <= i <= b@.len(),
            r@ == b@.subrange(0, i as int),
        decreases b@.len() - i,
    {
        r.push(b[i]);
        i = i + 1;
        proof {
            assert(r@ =~= b@.subrange(0, i as int));
        }
    }
    proof {
        assert(r@ =~= b@);
    }
    r
}

} // verus!

//! Messages exchanged between the two parties of a swap.
use vstd::prelude::*;

verus! {

/// The primary-chain part of a message.
#[derive(Debug, Clone)]
pub enum Update {
    /// The seller's offer, with its partial commitment.
    Offer(Vec<u8>),
    /// The buyer's acceptance, with its partial commitment.
    AcceptOffer(Vec<u8>),
    /// The buyer's adaptor signature on the redeem kernel, and the public
    /// blinding key of its redeem slate.
    InitRedeem(Vec<u8>, Vec<u8>),
    /// The seller's answer to `InitRedeem`, with its partial signature.
    Redeem(Vec<u8>),
}

/// A message of one session.
#[derive(Debug, Clone)]
pub struct Message {
    pub id: u128,
    pub inner: Update,
    /// The secondary-chain part, opaque to the core.
    pub inner_secondary: Vec<u8>,
}

/// Messages are numbered per sender: the first round carries 1, the
/// second 2.
pub open spec fn update_ordinal(u: Update) -> int {
    match u {
        Update::Offer(_) => 1,
        Update::AcceptOffer(_) => 1,
        Update::InitRedeem(_, _) => 2,
        Update::Redeem(_) => 2,
    }
}

impl Message {
    pub fn new(id: u128, inner: Update, inner_secondary: Vec<u8>) -> (r: Message)
        ensures
            r == (Message { id, inner, inner_secondary }),
    {
        Message { id, inner, inner_secondary }
    }

    /// The message's ordinal within its sender's messages.
    pub fn ordinal(&self) -> (r: u8)
        ensures
            r == update_ordinal(self.inner),
    {
        match &self.inner {
            Update::Offer(_) => 1,
            Update::AcceptOffer(_) => 1,
            Update::InitRedeem(_, _) => 2,
            Update::Redeem(_) => 2,
        }
    }
}

} // verus!

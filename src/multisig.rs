//! The two-party multisig builder: partial commitments of both parties and
//! the common nonce they derive from them.
use vstd::prelude::*;
use grin_util::secp::pedersen::Commitment;

use crate::error::ErrorKind;
use crate::scalar::{be_value, curve_order, is_scalar_bytes, is_secret_scalar, scalar_add};

verus! {

/// Progress of the joint commitment.
#[derive(Debug, Clone, Copy, PartialEq, Eq, Structural)]
pub enum Phase {
    /// No partial commitment is known.
    Empty,
    /// At least one partial commitment is known.
    Commit,
    /// Both commitments are known and the joint output is final.
    Complete,
}

/// One party's share in the joint commitment.
#[derive(Debug, Clone)]
pub struct MultisigParticipant {
    /// 33-byte partial commitment `r·G`, once known.
    pub partial_commitment: Option<Vec<u8>>,
}

/// Builder of the joint 2-of-2 commitment.
#[derive(Debug, Clone)]
pub struct Builder {
    pub party_id: usize,
    pub other_party_id: usize,
    pub amount: u64,
    /// Indexed by participant id.
    pub participants: Vec<MultisigParticipant>,
    pub phase: Phase,
}

/// The digest of a serialized commitment.
pub uninterp spec fn commit_hash_of(commit: Seq<u8>) -> Seq<u8>;

/// Relies on grin_core's `HashWriter`: the blake2b-256 digest of the
/// commitment as `Writeable` writes it (its 33 bytes). Writing into a
/// `HashWriter` never fails.
#[verifier::external_body]
fn commitment_hash(commit: &Vec<u8>) -> (r: Vec<u8>)
    ensures
        r@ == commit_hash_of(commit@),
        r@.len() == 32,
{
    let mut hasher = grin_core::core::hash::HashWriter::default();
    let _ = grin_core::ser::Writeable::write(&Commitment::from_vec(commit.clone()), &mut hasher);
    let mut out = [0u8; 32];
    hasher.finalize(&mut out);
    out.to_vec()
}

/// A serialized Pedersen commitment: 33 bytes with the 0x08 or 0x09 prefix.
pub open spec fn is_commitment_bytes(c: Seq<u8>) -> bool {
    c.len() == 33 && (c[0] == 8 || c[0] == 9)
}

/// The nonce terms: the digest of each known partial commitment, in
/// ascending participant order, where that digest is a valid secret key.
pub open spec fn nonce_terms(ps: Seq<MultisigParticipant>) -> Seq<Seq<u8>>
    decreases ps.len(),
{
    if ps.len() == 0 {
        Seq::empty()
    } else {
        let rest = nonce_terms(ps.drop_last());
        match ps.last().partial_commitment {
            Some(c) => if is_secret_scalar(commit_hash_of(c@)) {
                rest.push(commit_hash_of(c@))
            } else {
                rest
            },
            None => rest,
        }
    }
}

/// What the common nonce is for these participants: `Σ hash(C_i)` modulo
/// the group order, an error when there are not two terms, or when their sum
/// is zero.
pub open spec fn common_nonce_value(ps: Seq<MultisigParticipant>) -> Result<int, ErrorKind> {
    let t = nonce_terms(ps);
    if t.len() != 2 {
        Err(ErrorKind::MultiSigIncomplete)
    } else if (be_value(t[0]) + be_value(t[1])) % curve_order() == 0 {
        Err(ErrorKind::Secp)
    } else {
        Ok((be_value(t[0]) + be_value(t[1])) % curve_order())
    }
}

impl Builder {
    /// Two participants, `party_id` and `other_party_id` being 0 and 1.
    pub open spec fn wf(&self) -> bool {
        &&& self.party_id < 2
        &&& self.other_party_id == 1 - self.party_id
        &&& self.participants@.len() == 2
    }

    pub open spec fn commitments(&self) -> Seq<Option<Seq<u8>>> {
        self.participants@.map_values(
            |p: MultisigParticipant|
                match p.partial_commitment {
                    Some(c) => Some(c@),
                    None => None,
                },
        )
    }

    pub open spec fn both_known(&self) -> bool {
        self.participants@[0].partial_commitment.is_some()
            && self.participants@[1].partial_commitment.is_some()
    }

    /// A builder with no partial commitment yet.
    pub fn new(party_id: usize, other_party_id: usize, amount: u64) -> (r: Builder)
        requires
            party_id < 2,
            other_party_id == 1 - party_id,
        ensures
            r.wf(),
            r.party_id == party_id,
            r.other_party_id == other_party_id,
            r.amount == amount,
            r.phase == Phase::Empty,
            r.participants@[0].partial_commitment.is_none(),
            r.participants@[1].partial_commitment.is_none(),
    {
        let mut participants: Vec<MultisigParticipant> = Vec::new();
        participants.push(MultisigParticipant { partial_commitment: None });
        participants.push(MultisigParticipant { partial_commitment: None });
        Builder { party_id, other_party_id, amount, participants, phase: Phase::Empty }
    }

    /// Records this party's own partial commitment `r_self·G`.
    pub fn create_participant(&mut self, commit: Vec<u8>)
        requires
            old(self).wf(),
        ensures
            final(self).wf(),
            final(self).party_id == old(self).party_id,
            final(self).amount == old(self).amount,
            final(self).phase == Phase::Commit,
            final(self).participants@ == old(self).participants@.update(
                old(self).party_id as int,
                MultisigParticipant { partial_commitment: Some(commit) },
            ),
    {
        let id = self.party_id;
        self.participants.set(id, MultisigParticipant { partial_commitment: Some(commit) });
        self.phase = Phase::Commit;
    }

    /// Records the peer's partial commitment. A malformed one, or one that
    /// differs from the commitment already recorded for the peer, is refused
    /// with `InvalidProof` and changes nothing; the same one again changes
    /// nothing either.
    pub fn import_partial_commitment(&mut self, commit: Vec<u8>) -> (r: Result<(), ErrorKind>)
        requires
            old(self).wf(),
        ensures
            final(self).wf(),
            r.is_ok() <==> is_commitment_bytes(commit@) && match old(
                self,
            ).participants@[old(self).other_party_id as int].partial_commitment {
                Some(c) => c@ == commit@,
                None => true,
            },
            r.is_err() ==> r == Err::<(), ErrorKind>(ErrorKind::InvalidProof) && *final(self)
                == *old(self),
            r.is_ok() ==> final(self).party_id == old(self).party_id && final(self).other_party_id
                == old(self).other_party_id && final(self).amount == old(self).amount
                && final(self).commitments() == old(self).commitments().update(
                old(self).other_party_id as int,
                Some(commit@),
            ) && final(self).phase == (if old(self).phase == Phase::Complete {
                Phase::Complete
            } else {
                Phase::Commit
            }),
    {
        if commit.len() != 33 || (commit[0] != 8 && commit[0] != 9) {
            return Err(ErrorKind::InvalidProof);
        }
        let other = self.other_party_id;
        match &self.participants[other].partial_commitment {
            Some(c) => {
                if !bytes_equal(c, &commit) {
                    return Err(ErrorKind::InvalidProof);
                }
            },
            None => {},
        }
        self.participants.set(other, MultisigParticipant { partial_commitment: Some(commit) });
        proof {
            assert(self.commitments() =~= old(self).commitments().update(
                other as int,
                Some(commit@),
            ));
        }
        if self.phase != Phase::Complete {
            self.phase = Phase::Commit;
        }
        Ok(())
    }

    /// Closes the builder once both partial commitments are known.
    pub fn finalize(&mut self) -> (r: Result<(), ErrorKind>)
        requires
            old(self).wf(),
        ensures
            r.is_ok() <==> old(self).both_known(),
            r.is_err() ==> r == Err::<(), ErrorKind>(ErrorKind::MultiSigIncomplete) && *final(self)
                == *old(self),
            r.is_ok() ==> *final(self) == (Builder { phase: Phase::Complete, ..*old(self) }),
    {
        if self.participants[0].partial_commitment.is_none()
            || self.participants[1].partial_commitment.is_none() {
            return Err(ErrorKind::MultiSigIncomplete);
        }
        self.phase = Phase::Complete;
        Ok(())
    }

    /// The common range-proof nonce `Σ_i hash(C_i)`, summed in ascending
    /// participant order.
    pub fn common_nonce(&self) -> (r: Result<Vec<u8>, ErrorKind>)
        requires
            self.wf(),
        ensures
            match common_nonce_value(self.participants@) {
                Ok(v) => r.is_ok() && is_scalar_bytes(r.unwrap()@) && be_value(r.unwrap()@) == v,
                Err(e) => r == Err::<Vec<u8>, ErrorKind>(e),
            },
    {
        let mut terms: Vec<Vec<u8>> = Vec::new();
        let mut i: usize = 0;
        while i < self.participants.len()
            invariant
                0 <= i <= self.participants@.len(),
                terms@.map_values(|t: Vec<u8>| t@) == nonce_terms(
                    self.participants@.subrange(0, i as int),
                ),
                forall|j: int| 0 <= j < terms@.len() ==> is_secret_scalar(#[trigger] terms@[j]@),
            decreases self.participants@.len() - i,
        {
            let ghost prev = terms@;
            proof {
                assert(self.participants@.subrange(0, i + 1).drop_last()
                    =~= self.participants@.subrange(0, i as int));
            }
            match &self.participants[i].partial_commitment {
                Some(c) => {
                    let h = commitment_hash(c);
                    match crate::scalar::secret_key_from_slice(&h) {
                        Some(k) => {
                            terms.push(k);
                        },
                        None => {},
                    }
                },
                None => {},
            }
            i = i + 1;
            proof {
                assert(terms@.map_values(|t: Vec<u8>| t@) =~= nonce_terms(
                    self.participants@.subrange(0, i as int),
                ));
            }
        }
        proof {
            assert(self.participants@.subrange(0, i as int) =~= self.participants@);
        }
        if terms.len() != 2 {
            return Err(ErrorKind::MultiSigIncomplete);
        }
        let b = terms.pop().unwrap();
        let a = terms.pop().unwrap();
        match scalar_add(a, b) {
            Some(k) => Ok(k),
            None => Err(ErrorKind::Secp),
        }
    }
}

/// Byte-wise equality of two byte strings.
pub fn bytes_equal(a: &Vec<u8>, b: &Vec<u8>) -> (r: bool)
    ensures
        r <==> a@ == b@,
{
    if a.len() != b.len() {
        return false;
    }
    let mut i: usize = 0;
    while i < a.len()
        invariant
            a@.len() == b@.len(),
            0 <= i <= a@.len(),
            a@.subrange(0, i as int) == b@.subrange(0, i as int),
        decreases a@.len() - i,
    {
        if a[i] != b[i] {
            proof {
                assert(a@[i as int] != b@[i as int]);
            }
            return false;
        }
        proof {
            assert(a@.subrange(0, i + 1) =~= a@.subrange(0, i as int).push(a@[i as int]));
            assert(b@.subrange(0, i + 1) =~= b@.subrange(0, i as int).push(b@[i as int]));
        }
        i = i + 1;
    }
    proof {
        assert(a@ =~= a@.subrange(0, i as int));
        assert(b@ =~= b@.subrange(0, i as int));
    }
    true
}

/// Both parties derive the same common nonce: it depends on the two partial
/// commitments alone, not on which party computes it.
pub proof fn lemma_common_nonce_symmetric(seller: Builder, buyer: Builder)
    requires
        seller.wf(),
        buyer.wf(),
        seller.commitments() == buyer.commitments(),
    ensures
        common_nonce_value(seller.participants@) == common_nonce_value(buyer.participants@),
{
    assert(seller.commitments()[0] == buyer.commitments()[0]);
    assert(seller.commitments()[1] == buyer.commitments()[1]);
    let s = seller.participants@;
    let b = buyer.participants@;
    assert(s.drop_last().drop_last() =~= Seq::<MultisigParticipant>::empty());
    assert(b.drop_last().drop_last() =~= Seq::<MultisigParticipant>::empty());
    assert(nonce_terms(s.drop_last()) == nonce_terms(b.drop_last()));
    assert(nonce_terms(s) == nonce_terms(b));
}

} // verus!

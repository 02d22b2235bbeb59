//! Primary-chain transaction templates (slates) and the canonical insertion
//! of inputs and outputs into them.
use vstd::prelude::*;
use grin_util::secp::pedersen::Commitment;

use crate::order::{
    digest_lt, digest_views, digests_sorted, lemma_split_unique, search_digest, splits_at,
};

verus! {

/// Features of an output, or of the output an input spends.
#[derive(Debug, Clone, Copy, PartialEq, Eq, Structural)]
pub enum OutputFeatures {
    Plain,
    Coinbase,
}

/// A transaction input: the output it spends.
#[derive(Debug, Clone)]
pub struct Input {
    pub features: OutputFeatures,
    /// 33-byte Pedersen commitment.
    pub commit: Vec<u8>,
}

/// A transaction output with its range proof.
#[derive(Debug, Clone)]
pub struct Output {
    pub features: OutputFeatures,
    /// 33-byte Pedersen commitment.
    pub commit: Vec<u8>,
    pub proof: Vec<u8>,
}

/// A transaction kernel: its public excess and the signature over it.
#[derive(Debug, Clone)]
pub struct TxKernel {
    pub excess: Vec<u8>,
    pub excess_sig: Vec<u8>,
}

/// What one participant contributed to a slate.
#[derive(Debug, Clone)]
pub struct ParticipantData {
    pub id: u64,
    pub public_blind_excess: Vec<u8>,
    pub public_nonce: Vec<u8>,
    pub part_sig: Option<Vec<u8>>,
}

/// A partially built primary-chain transaction.
#[derive(Debug, Clone)]
pub struct Slate {
    pub id: u128,
    pub amount: u64,
    pub fee: u64,
    pub lock_height: u64,
    pub inputs: Vec<Input>,
    pub outputs: Vec<Output>,
    pub kernels: Vec<TxKernel>,
    pub participant_data: Vec<ParticipantData>,
}

impl Slate {
    /// An empty slate.
    pub fn new(id: u128, amount: u64, fee: u64) -> (r: Slate)
        ensures
            r.id == id,
            r.amount == amount,
            r.fee == fee,
            r.lock_height == 0,
            r.inputs@.len() == 0,
            r.outputs@.len() == 0,
            r.kernels@.len() == 0,
            r.participant_data@.len() == 0,
    {
        Slate {
            id,
            amount,
            fee,
            lock_height: 0,
            inputs: Vec::new(),
            outputs: Vec::new(),
            kernels: Vec::new(),
            participant_data: Vec::new(),
        }
    }
}

/// The digest by which the primary chain orders an input.
pub uninterp spec fn input_hash_of(coinbase: bool, commit: Seq<u8>) -> Seq<u8>;

/// The digest by which the primary chain orders an output: that of its
/// identifier, features and commitment.
pub uninterp spec fn output_hash_of(coinbase: bool, commit: Seq<u8>) -> Seq<u8>;

/// Relies on grin_core's `Hashed::hash` of `transaction::Input`: the
/// blake2b-256 digest of the input's serialization, the key of its `Ord`.
#[verifier::external_body]
fn input_hash(input: &Input) -> (r: Vec<u8>)
    ensures
        r@ == input_hash_of(input.features == OutputFeatures::Coinbase, input.commit@),
        r@.len() == 32,
{
    let features = match input.features {
        OutputFeatures::Plain => grin_core::core::OutputFeatures::Plain,
        OutputFeatures::Coinbase => grin_core::core::OutputFeatures::Coinbase,
    };
    let chain_input = grin_core::core::Input::new(features, Commitment::from_vec(input.commit.clone()));
    grin_core::core::hash::Hashed::hash(&chain_input).to_vec()
}

/// Relies on grin_core's `Hashed::hash` of `transaction::OutputIdentifier`:
/// the blake2b-256 digest of features and commitment, the key by which
/// `transaction::Output` is ordered.
#[verifier::external_body]
fn output_hash(output: &Output) -> (r: Vec<u8>)
    ensures
        r@ == output_hash_of(output.features == OutputFeatures::Coinbase, output.commit@),
        r@.len() == 32,
{
    let features = match output.features {
        OutputFeatures::Plain => grin_core::core::OutputFeatures::Plain,
        OutputFeatures::Coinbase => grin_core::core::OutputFeatures::Coinbase,
    };
    let commit = Commitment::from_vec(output.commit.clone());
    let identifier = grin_core::core::OutputIdentifier::new(features, &commit);
    grin_core::core::hash::Hashed::hash(&identifier).to_vec()
}

/// The message a plain kernel with this fee signs.
pub uninterp spec fn kernel_message_of(fee: u64) -> Seq<u8>;

/// The largest fee a kernel carries: 40 bits.
pub const FEE_MASK: u64 = 1099511627775;

/// Relies on grin_core's `KernelFeatures::kernel_sig_msg` for
/// `KernelFeatures::Plain`: the 32-byte digest of features and fee. The fee
/// becomes a `FeeFields` through `FeeFields::try_from`, which refuses only 0
/// and fees above 40 bits; the first is `FeeFields::zero()`, the second is
/// left out by `requires`. `kernel_sig_msg` itself does not fail: the digest
/// always has the 32 bytes `Message::from_slice` takes.
#[verifier::external_body]
pub(crate) fn kernel_message(fee: u64) -> (r: Option<Vec<u8>>)
    requires
        fee <= FEE_MASK,
    ensures
        r.is_some(),
        r.unwrap()@ == kernel_message_of(fee),
{
    let fee_fields = <grin_core::core::FeeFields as std::convert::TryFrom<u64>>::try_from(fee)
        .unwrap_or(grin_core::core::FeeFields::zero());
    let features = grin_core::core::KernelFeatures::Plain { fee: fee_fields };
    features.kernel_sig_msg().ok().map(|msg| msg[..].to_vec())
}

pub open spec fn input_digest(i: Input) -> Seq<u8> {
    input_hash_of(i.features == OutputFeatures::Coinbase, i.commit@)
}

pub open spec fn output_digest(o: Output) -> Seq<u8> {
    output_hash_of(o.features == OutputFeatures::Coinbase, o.commit@)
}

pub open spec fn input_digests(s: Seq<Input>) -> Seq<Seq<u8>> {
    s.map_values(|i: Input| input_digest(i))
}

pub open spec fn output_digests(s: Seq<Output>) -> Seq<Seq<u8>> {
    s.map_values(|o: Output| output_digest(o))
}

/// Inputs in the chain's canonical order, without two of one digest.
pub open spec fn inputs_canonical(s: Seq<Input>) -> bool {
    digests_sorted(input_digests(s))
}

/// Outputs in the chain's canonical order, without two of one identifier.
pub open spec fn outputs_canonical(s: Seq<Output>) -> bool {
    digests_sorted(output_digests(s))
}

/// `x` added to canonical inputs `s` where it keeps them sorted, unless an
/// input of its digest is there.
pub open spec fn canonical_insert_input(s: Seq<Input>, x: Input) -> Seq<Input> {
    let keys = input_digests(s);
    if keys.contains(input_digest(x)) || !exists|p: int| splits_at(keys, input_digest(x), p) {
        s
    } else {
        s.insert(choose|p: int| splits_at(keys, input_digest(x), p), x)
    }
}

/// `x` added to canonical outputs `s` where it keeps them sorted, unless an
/// output of its identifier is there.
pub open spec fn canonical_insert_output(s: Seq<Output>, x: Output) -> Seq<Output> {
    let keys = output_digests(s);
    if keys.contains(output_digest(x)) || !exists|p: int| splits_at(keys, output_digest(x), p) {
        s
    } else {
        s.insert(choose|p: int| splits_at(keys, output_digest(x), p), x)
    }
}

/// Inserting a digest at its split position keeps a list sorted.
proof fn lemma_insert_keeps_sorted(keys: Seq<Seq<u8>>, k: Seq<u8>, p: int)
    requires
        digests_sorted(keys),
        splits_at(keys, k, p),
    ensures
        digests_sorted(keys.insert(p, k)),
        keys.insert(p, k).contains(k),
{
    let n = keys.insert(p, k);
    assert(n[p] == k);
    assert forall|i: int, j: int| 0 <= i < j < n.len() implies digest_lt(#[trigger] n[i], #[trigger] n[j]) by {
        if j < p {
            assert(n[i] == keys[i] && n[j] == keys[j]);
        } else if j == p {
            assert(n[i] == keys[i]);
        } else if i < p {
            assert(n[i] == keys[i] && n[j] == keys[j - 1]);
            crate::order::lemma_digest_lt_transitive(keys[i], k, keys[j - 1]);
        } else if i == p {
            assert(n[j] == keys[j - 1]);
        } else {
            assert(n[i] == keys[i - 1] && n[j] == keys[j - 1]);
        }
    }
}

/// Canonical insertion keeps inputs canonical, and a second insertion of
/// the same input leaves them as the first one did.
pub proof fn lemma_insert_input_idempotent(s: Seq<Input>, x: Input)
    requires
        inputs_canonical(s),
    ensures
        inputs_canonical(canonical_insert_input(s, x)),
        canonical_insert_input(canonical_insert_input(s, x), x) == canonical_insert_input(s, x),
{
    let keys = input_digests(s);
    let k = input_digest(x);
    if !keys.contains(k) && exists|p: int| splits_at(keys, k, p) {
        let p = choose|p: int| splits_at(keys, k, p);
        assert(input_digests(s.insert(p, x)) =~= keys.insert(p, k));
        lemma_insert_keeps_sorted(keys, k, p);
    }
}

/// Canonical insertion keeps outputs canonical, and a second insertion of
/// the same output leaves them as the first one did.
pub proof fn lemma_insert_output_idempotent(s: Seq<Output>, x: Output)
    requires
        outputs_canonical(s),
    ensures
        outputs_canonical(canonical_insert_output(s, x)),
        canonical_insert_output(canonical_insert_output(s, x), x) == canonical_insert_output(s, x),
{
    let keys = output_digests(s);
    let k = output_digest(x);
    if !keys.contains(k) && exists|p: int| splits_at(keys, k, p) {
        let p = choose|p: int| splits_at(keys, k, p);
        assert(output_digests(s.insert(p, x)) =~= keys.insert(p, k));
        lemma_insert_keeps_sorted(keys, k, p);
    }
}

/// The digests of a list of inputs, computed one by one.
fn input_digest_list(inputs: &Vec<Input>) -> (r: Vec<Vec<u8>>)
    ensures
        digest_views(r@) == input_digests(inputs@),
        forall|i: int| 0 <= i < r@.len() ==> (#[trigger] r@[i])@.len() == 32,
{
    let mut r: Vec<Vec<u8>> = Vec::new();
    let mut i: usize = 0;
    while i < inputs.len()
        invariant
            0 <= i <= inputs@.len(),
            r@.len() == i,
            forall|j: int| 0 <= j < i ==> (#[trigger] r@[j])@ == input_digest(inputs@[j]),
            forall|j: int| 0 <= j < r@.len() ==> (#[trigger] r@[j])@.len() == 32,
        decreases inputs@.len() - i,
    {
        let d = input_hash(&inputs[i]);
        r.push(d);
        i = i + 1;
    }
    proof {
        assert(digest_views(r@) =~= input_digests(inputs@));
    }
    r
}

/// The digests of a list of outputs, computed one by one.
fn output_digest_list(outputs: &Vec<Output>) -> (r: Vec<Vec<u8>>)
    ensures
        digest_views(r@) == output_digests(outputs@),
        forall|i: int| 0 <= i < r@.len() ==> (#[trigger] r@[i])@.len() == 32,
{
    let mut r: Vec<Vec<u8>> = Vec::new();
    let mut i: usize = 0;
    while i < outputs.len()
        invariant
            0 <= i <= outputs@.len(),
            r@.len() == i,
            forall|j: int| 0 <= j < i ==> (#[trigger] r@[j])@ == output_digest(outputs@[j]),
            forall|j: int| 0 <= j < r@.len() ==> (#[trigger] r@[j])@.len() == 32,
        decreases outputs@.len() - i,
    {
        let d = output_hash(&outputs[i]);
        r.push(d);
        i = i + 1;
    }
    proof {
        assert(digest_views(r@) =~= output_digests(outputs@));
    }
    r
}

/// Adds a plain input spending `commit` at its canonical position. When an
/// input of the same digest is already there the slate is left as it is.
pub fn tx_add_input(slate: &mut Slate, commit: Vec<u8>)
    ensures
        final(slate).id == old(slate).id,
        final(slate).amount == old(slate).amount,
        final(slate).fee == old(slate).fee,
        final(slate).lock_height == old(slate).lock_height,
        final(slate).outputs@ == old(slate).outputs@,
        final(slate).kernels@ == old(slate).kernels@,
        final(slate).participant_data@ == old(slate).participant_data@,
        inputs_canonical(old(slate).inputs@) ==> final(slate).inputs@ == canonical_insert_input(
            old(slate).inputs@,
            Input { features: OutputFeatures::Plain, commit },
        ),
        inputs_canonical(old(slate).inputs@) ==> inputs_canonical(final(slate).inputs@),
        inputs_canonical(old(slate).inputs@) && input_digests(old(slate).inputs@).contains(
            input_digest(Input { features: OutputFeatures::Plain, commit }),
        ) ==> final(slate).inputs@ == old(slate).inputs@,
        inputs_canonical(old(slate).inputs@) && !input_digests(old(slate).inputs@).contains(
            input_digest(Input { features: OutputFeatures::Plain, commit }),
        ) ==> final(slate).inputs@.len() == old(slate).inputs@.len() + 1 && exists|p: int|
            splits_at(input_digests(old(slate).inputs@), input_digest(Input { features: OutputFeatures::Plain, commit }), p)
                && final(slate).inputs@ == old(slate).inputs@.insert(p, Input { features: OutputFeatures::Plain, commit }),
{
    let ghost x = Input { features: OutputFeatures::Plain, commit };
    let input = Input { features: OutputFeatures::Plain, commit };
    let key = input_hash(&input);
    let keys = input_digest_list(&slate.inputs);
    let (found, pos) = search_digest(&keys, &key);
    proof {
        if inputs_canonical(old(slate).inputs@) {
            lemma_insert_input_idempotent(old(slate).inputs@, x);
            if !found {
                let p = choose|p: int| splits_at(digest_views(keys@), key@, p);
                lemma_split_unique(digest_views(keys@), key@, p, pos as int);
                assert(splits_at(input_digests(old(slate).inputs@), input_digest(x), pos as int));
            }
        }
    }
    if !found {
        slate.inputs.insert(pos, input);
    }
}

/// Adds a plain output with its range proof at its canonical position. When
/// an output of the same identifier is already there the slate is left as
/// it is.
pub fn tx_add_output(slate: &mut Slate, commit: Vec<u8>, proof: Vec<u8>)
    ensures
        final(slate).id == old(slate).id,
        final(slate).amount == old(slate).amount,
        final(slate).fee == old(slate).fee,
        final(slate).lock_height == old(slate).lock_height,
        final(slate).inputs@ == old(slate).inputs@,
        final(slate).kernels@ == old(slate).kernels@,
        final(slate).participant_data@ == old(slate).participant_data@,
        outputs_canonical(old(slate).outputs@) ==> final(slate).outputs@
            == canonical_insert_output(
            old(slate).outputs@,
            Output { features: OutputFeatures::Plain, commit, proof },
        ),
        outputs_canonical(old(slate).outputs@) ==> outputs_canonical(final(slate).outputs@),
        outputs_canonical(old(slate).outputs@) && output_digests(old(slate).outputs@).contains(
            output_digest(Output { features: OutputFeatures::Plain, commit, proof }),
        ) ==> final(slate).outputs@ == old(slate).outputs@,
        outputs_canonical(old(slate).outputs@) && !output_digests(old(slate).outputs@).contains(
            output_digest(Output { features: OutputFeatures::Plain, commit, proof }),
        ) ==> final(slate).outputs@.len() == old(slate).outputs@.len() + 1 && exists|p: int|
            splits_at(output_digests(old(slate).outputs@), output_digest(Output { features: OutputFeatures::Plain, commit, proof }), p)
                && final(slate).outputs@ == old(slate).outputs@.insert(p, Output { features: OutputFeatures::Plain, commit, proof }),
{
    let ghost x = Output { features: OutputFeatures::Plain, commit, proof };
    let output = Output { features: OutputFeatures::Plain, commit, proof };
    let key = output_hash(&output);
    let keys = output_digest_list(&slate.outputs);
    let (found, pos) = search_digest(&keys, &key);
    proof {
        if outputs_canonical(old(slate).outputs@) {
            lemma_insert_output_idempotent(old(slate).outputs@, x);
            if !found {
                let p = choose|p: int| splits_at(digest_views(keys@), key@, p);
                lemma_split_unique(digest_views(keys@), key@, p, pos as int);
                assert(splits_at(output_digests(old(slate).outputs@), output_digest(x), pos as int));
            }
        }
    }
    if !found {
        slate.outputs.insert(pos, output);
    }
}

} // verus!

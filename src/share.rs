//! Signed decomposition proofs, per-participant shares, and the transcript
//! that folds many shares into one.
use vstd::prelude::*;

use ark_serialize::CanonicalSerialize;
use ark_std::collections::BTreeMap;

use crate::errors::PVSSError;
use crate::pvss::{aggregate_cores, CoreModel, PVSSCore};

verus! {

broadcast use vstd::std_specs::btree::group_btree_axioms, vstd::laws_cmp::group_laws_cmp;

/// The value of a signed proof: the encoded commitment `gs` of the
/// decomposition proof, the rest of the proof, and the signature over it.
pub ghost struct ProofModel {
    pub gs: Seq<u8>,
    pub body: Seq<u8>,
    pub signature: Seq<u8>,
}

/// The value of a share: who issued it, its core, and its signed proof.
pub ghost struct ShareModel {
    pub participant_id: usize,
    pub core: CoreModel,
    pub proof: ProofModel,
}

/// The value of a transcript.
pub ghost struct AggregateModel {
    pub num_participants: nat,
    pub degree: nat,
    pub core: CoreModel,
    pub contributions: Map<usize, ProofModel>,
}

/// Proof that a participant's share vector was derived from one secret. Its
/// commitment `gs` is held as the encoding of a group element and is what
/// equivocation checks compare; `body` holds the rest of the proof.
#[derive(Debug, Clone, PartialEq, Eq)]
pub struct DecompProof {
    pub gs: Vec<u8>,
    pub body: Vec<u8>,
}

/// A decomposition proof together with a signature over its signing message.
#[derive(Debug, Clone, PartialEq, Eq)]
pub struct SignedProof {
    pub decomp_proof: DecompProof,
    pub signature_on_decomp: Vec<u8>,
}

impl View for SignedProof {
    type V = ProofModel;

    open spec fn view(&self) -> ProofModel {
        ProofModel {
            gs: self.decomp_proof.gs@,
            body: self.decomp_proof.body@,
            signature: self.signature_on_decomp@,
        }
    }
}

/// One participant's contribution: its id, its core, and its signed proof.
#[derive(Debug, Clone, PartialEq, Eq)]
pub struct PVSSShare {
    pub participant_id: usize,
    pub pvss_core: PVSSCore,
    pub signed_proof: SignedProof,
}

impl View for PVSSShare {
    type V = ShareModel;

    open spec fn view(&self) -> ShareModel {
        ShareModel {
            participant_id: self.participant_id,
            core: self.pvss_core@,
            proof: self.signed_proof@,
        }
    }
}

/// A transcript: the configuration it belongs to, the sum of the cores
/// folded into it, and the signed proof of each participant that took part.
#[derive(Debug, Clone, PartialEq, Eq)]
pub struct PVSSAggregatedShare {
    pub num_participants: usize,
    pub degree: usize,
    pub pvss_core: PVSSCore,
    pub contributions: BTreeMap<usize, SignedProof>,
}

impl View for PVSSAggregatedShare {
    type V = AggregateModel;

    open spec fn view(&self) -> AggregateModel {
        AggregateModel {
            num_participants: self.num_participants as nat,
            degree: self.degree as nat,
            core: self.pvss_core@,
            contributions: self.contributions@.map_values(|p: SignedProof| p@),
        }
    }
}

/// The contributions of two transcripts merged: every id below `n` that one
/// of them holds, with the proof of `a` where both hold it.
pub open spec fn merge_contributions(
    a: Map<usize, ProofModel>,
    b: Map<usize, ProofModel>,
    n: nat,
) -> Map<usize, ProofModel> {
    Map::new(
        |k: usize| k < n && (a.contains_key(k) || b.contains_key(k)),
        |k: usize|
            if a.contains_key(k) {
                a[k]
            } else {
                b[k]
            },
    )
}

/// Some id below `n` is held by both maps with different commitments.
pub open spec fn equivocates(a: Map<usize, ProofModel>, b: Map<usize, ProofModel>, n: nat) -> bool {
    exists|k: usize|
        k < n && a.contains_key(k) && b.contains_key(k) && (#[trigger] a[k]).gs != (
        #[trigger] b[k]).gs
}

/// `a` and `b` belong to one configuration and agree on the commitment of
/// every participant below `n` that both hold.
pub open spec fn mergeable(a: AggregateModel, b: AggregateModel) -> bool {
    &&& a.degree == b.degree
    &&& a.num_participants == b.num_participants
    &&& !equivocates(a.contributions, b.contributions, a.num_participants)
}

/// Transcript `agg` holds, for the participant of share `s`, a proof whose
/// commitment differs from the share's.
pub open spec fn share_conflicts(agg: AggregateModel, s: ShareModel) -> bool {
    &&& s.participant_id < agg.num_participants
    &&& agg.contributions.contains_key(s.participant_id)
    &&& agg.contributions[s.participant_id].gs != s.proof.gs
}

/// What merging transcript `a` with transcript `b` yields.
pub open spec fn merge_aggregates(a: AggregateModel, b: AggregateModel) -> Result<
    AggregateModel,
    PVSSError,
> {
    if a.degree != b.degree || a.num_participants != b.num_participants {
        Err(
            PVSSError::TranscriptDifferentConfig(
                a.degree as usize,
                b.degree as usize,
                a.num_participants as usize,
                b.num_participants as usize,
            ),
        )
    } else if equivocates(a.contributions, b.contributions, a.num_participants) {
        Err(PVSSError::TranscriptDifferentCommitments)
    } else {
        match aggregate_cores(a.core, b.core) {
            Ok(core) => Ok(
                AggregateModel {
                    num_participants: a.num_participants,
                    degree: a.degree,
                    core,
                    contributions: merge_contributions(
                        a.contributions,
                        b.contributions,
                        a.num_participants,
                    ),
                },
            ),
            Err(e) => Err(e),
        }
    }
}

/// The transcript made of one share alone, under the configuration of `agg`.
pub open spec fn share_as_aggregate(agg: AggregateModel, s: ShareModel) -> AggregateModel {
    AggregateModel {
        num_participants: agg.num_participants,
        degree: agg.degree,
        core: s.core,
        contributions: map![s.participant_id => s.proof],
    }
}

/// What folding share `s` into transcript `agg` yields.
pub open spec fn fold_share(agg: AggregateModel, s: ShareModel) -> Result<AggregateModel, PVSSError> {
    merge_aggregates(agg, share_as_aggregate(agg, s))
}

/// The empty transcript for `degree` and `n` participants.
pub open spec fn empty_aggregate(degree: nat, n: nat) -> AggregateModel {
    AggregateModel {
        num_participants: n,
        degree,
        core: crate::pvss::empty_core(n),
        contributions: Map::empty(),
    }
}

/// 256 to the power `i`.
pub open spec fn pow256(i: nat) -> nat
    decreases i,
{
    if i == 0 {
        1
    } else {
        256 * pow256((i - 1) as nat)
    }
}

/// A length written as eight little-endian bytes.
pub open spec fn length_prefix(n: nat) -> Seq<u8> {
    Seq::new(8, |i: int| ((n / pow256(i as nat)) % 256) as u8)
}

/// The canonical encoding of a byte vector: its length, then its bytes.
pub open spec fn encoded_bytes(v: Seq<u8>) -> Seq<u8> {
    length_prefix(v.len()) + v
}

/// The message that is signed for a decomposition proof: its fields encoded
/// one after the other.
pub open spec fn signing_message(gs: Seq<u8>, body: Seq<u8>) -> Seq<u8> {
    encoded_bytes(gs) + encoded_bytes(body)
}

/// Relies on ark_serialize's `CanonicalSerialize` for `Vec<u8>`, which
/// writes the length as a little-endian `u64` and then the bytes; a `Vec`
/// writer appends them and never fails.
#[verifier::external_body]
fn serialize_bytes(v: &Vec<u8>, out: &mut Vec<u8>) -> (written: bool)
    ensures
        written,
        final(out)@ == old(out)@ + encoded_bytes(v@),
{
    v.serialize(out).is_ok()
}

/// The canonical signing message of a decomposition proof.
pub fn message_from_pi_i(pi_i: DecompProof) -> (r: Result<Vec<u8>, PVSSError>)
    ensures
        r is Ok,
        r.unwrap()@ == signing_message(pi_i.gs@, pi_i.body@),
{
    let mut message: Vec<u8> = Vec::new();
    if !serialize_bytes(&pi_i.gs, &mut message) {
        return Err(PVSSError::SerializationError);
    }
    if !serialize_bytes(&pi_i.body, &mut message) {
        return Err(PVSSError::SerializationError);
    }
    assert(message@ =~= signing_message(pi_i.gs@, pi_i.body@));
    Ok(message)
}

fn copy_bytes(v: &Vec<u8>) -> (r: Vec<u8>)
    ensures
        r@ == v@,
{
    let r = v.clone();
    assert(r@ =~= v@);
    r
}

fn bytes_equal(a: &Vec<u8>, b: &Vec<u8>) -> (r: bool)
    ensures
        r == (a@ == b@),
{
    if a.len() != b.len() {
        return false;
    }
    let mut i: usize = 0;
    while i < a.len()
        invariant
            a.len() == b.len(),
            i <= a.len(),
            forall|j: int| 0 <= j < i ==> a@[j] == b@[j],
        decreases a.len() - i,
    {
        if a[i] != b[i] {
            return false;
        }
        i = i + 1;
    }
    assert(a@ =~= b@);
    true
}

impl SignedProof {
    /// An equal copy of this signed proof.
    pub fn duplicate(&self) -> (r: SignedProof)
        ensures
            r@ == self@,
    {
        SignedProof {
            decomp_proof: DecompProof {
                gs: copy_bytes(&self.decomp_proof.gs),
                body: copy_bytes(&self.decomp_proof.body),
            },
            signature_on_decomp: copy_bytes(&self.signature_on_decomp),
        }
    }

    /// Checks the decomposition proof with `verify_proof`, then the signature
    /// over the proof's signing message with `verify_signature`, and reports
    /// the first check that fails. The configuration and the signer's key are
    /// whatever the two checks hold.
    pub fn verify<P, S>(&self, verify_proof: P, verify_signature: S) -> (r: Result<(), PVSSError>)
        where
            P: Fn(&DecompProof) -> bool,
            S: Fn(&Vec<u8>, &Vec<u8>) -> bool,
        requires
            verify_proof.requires((&self.decomp_proof,)),
            forall|m: &Vec<u8>| #[trigger] verify_signature.requires((m, &self.signature_on_decomp)),
        ensures
            match r {
                Ok(()) => verify_proof.ensures((&self.decomp_proof,), true) && exists|m: &Vec<u8>|
                    m@ == signing_message(self@.gs, self@.body)
                        && #[trigger] verify_signature.ensures((m, &self.signature_on_decomp), true),
                Err(PVSSError::DecompProofInvalid) => verify_proof.ensures(
                    (&self.decomp_proof,),
                    false,
                ),
                Err(PVSSError::SignatureInvalid) => verify_proof.ensures((&self.decomp_proof,), true)
                    && exists|m: &Vec<u8>|
                    m@ == signing_message(self@.gs, self@.body)
                        && #[trigger] verify_signature.ensures((m, &self.signature_on_decomp), false),
                Err(_) => false,
            },
    {
        if !verify_proof(&self.decomp_proof) {
            return Err(PVSSError::DecompProofInvalid);
        }
        let message = match message_from_pi_i(self.duplicate().decomp_proof) {
            Ok(m) => m,
            Err(e) => {
                return Err(e);
            },
        };
        if !verify_signature(&message, &self.signature_on_decomp) {
            return Err(PVSSError::SignatureInvalid);
        }
        Ok(())
    }
}

impl PVSSAggregatedShare {
    /// The transcript with no contribution, for `degree` and
    /// `num_participants` participants.
    pub fn empty(degree: usize, num_participants: usize) -> (r: Self)
        ensures
            r@ == empty_aggregate(degree as nat, num_participants as nat),
    {
        let r = PVSSAggregatedShare {
            num_participants,
            degree,
            pvss_core: PVSSCore::empty(num_participants),
            contributions: BTreeMap::new(),
        };
        assert(r@.contributions =~= Map::empty());
        r
    }

    /// Merges this transcript with the parts of another one.
    fn merge_with(
        &self,
        degree: usize,
        num_participants: usize,
        core: &PVSSCore,
        contributions: &BTreeMap<usize, SignedProof>,
    ) -> (r: Result<Self, PVSSError>)
        ensures
            ({
                let other = AggregateModel {
                    num_participants: num_participants as nat,
                    degree: degree as nat,
                    core: core@,
                    contributions: contributions@.map_values(|p: SignedProof| p@),
                };
                &&& match r {
                    Ok(t) => merge_aggregates(self@, other) == Ok::<AggregateModel, PVSSError>(t@),
                    Err(e) => merge_aggregates(self@, other) == Err::<AggregateModel, PVSSError>(e),
                }
                &&& mergeable(self@, other) && self@.core.is_canonical() && core@.is_canonical()
                    && self@.core.same_slots(core@) ==> (r is Ok && r.unwrap()@.core.is_canonical())
                &&& mergeable(self@, other) && self@.core.is_identity() && core@.is_canonical()
                    && self@.core.same_slots(core@) ==> (r is Ok && r.unwrap()@.core == core@)
            }),
    {
        if self.degree != degree || self.num_participants != num_participants {
            return Err(
                PVSSError::TranscriptDifferentConfig(
                    self.degree,
                    degree,
                    self.num_participants,
                    num_participants,
                ),
            );
        }
        let ghost sa = self@.contributions;
        let ghost sb = contributions@.map_values(|p: SignedProof| p@);
        let n = self.num_participants;
        let mut merged: BTreeMap<usize, SignedProof> = BTreeMap::new();
        let mut i: usize = 0;
        while i < n
            invariant
                n == self.num_participants,
                n == num_participants,
                self.degree == degree,
                sa == self@.contributions,
                sb == contributions@.map_values(|p: SignedProof| p@),
                i <= n,
                forall|k: usize|
                    #[trigger] merged@.contains_key(k) <==> (k < i && (sa.contains_key(k)
                        || sb.contains_key(k))),
                forall|k: usize|
                    #[trigger] merged@.contains_key(k) ==> merged@[k]@ == (if sa.contains_key(k) {
                        sa[k]
                    } else {
                        sb[k]
                    }),
                forall|k: usize|
                    k < i && sa.contains_key(k) && sb.contains_key(k) ==> (#[trigger] sa[k]).gs == (
                    #[trigger] sb[k]).gs,
            decreases n - i,
        {
            let mine = self.contributions.get(&i);
            let theirs = contributions.get(&i);
            match (mine, theirs) {
                (Some(x), Some(y)) => {
                    if !bytes_equal(&x.decomp_proof.gs, &y.decomp_proof.gs) {
                        assert(sa[i].gs != sb[i].gs);
                        assert(equivocates(sa, sb, n as nat));
                        return Err(PVSSError::TranscriptDifferentCommitments);
                    }
                    merged.insert(i, x.duplicate());
                },
                (Some(x), None) => {
                    merged.insert(i, x.duplicate());
                },
                (None, Some(y)) => {
                    merged.insert(i, y.duplicate());
                },
                (None, None) => {},
            }
            i = i + 1;
        }
        assert(!equivocates(sa, sb, n as nat));
        let pvss_core = match self.pvss_core.aggregate(core) {
            Ok(c) => c,
            Err(e) => {
                return Err(e);
            },
        };
        let r = PVSSAggregatedShare {
            num_participants: n,
            degree: self.degree,
            pvss_core,
            contributions: merged,
        };
        assert(r@.contributions =~= merge_contributions(sa, sb, n as nat));
        Ok(r)
    }

    /// Merges two transcripts of one configuration: the cores are added, the
    /// contributions are united, and a participant whose two proofs disagree
    /// on the commitment makes the merge fail.
    pub fn aggregate(&self, other: &Self) -> (r: Result<Self, PVSSError>)
        ensures
            match r {
                Ok(t) => merge_aggregates(self@, other@) == Ok::<AggregateModel, PVSSError>(t@),
                Err(e) => merge_aggregates(self@, other@) == Err::<AggregateModel, PVSSError>(e),
            },
            mergeable(self@, other@) && self@.core.is_canonical() && other@.core.is_canonical()
                && self@.core.same_slots(other@.core) ==> (r is Ok && r.unwrap()@.core.is_canonical()),
    {
        self.merge_with(other.degree, other.num_participants, &other.pvss_core, &other.contributions)
    }

    /// Folds one share into this transcript.
    pub fn aggregate_pvss_share(&self, other: &PVSSShare) -> (r: Result<Self, PVSSError>)
        ensures
            match r {
                Ok(t) => fold_share(self@, other@) == Ok::<AggregateModel, PVSSError>(t@),
                Err(e) => fold_share(self@, other@) == Err::<AggregateModel, PVSSError>(e),
            },
            !share_conflicts(self@, other@) && self@.core.is_canonical() && other@.core.is_canonical()
                && self@.core.same_slots(other@.core) ==> (r is Ok && r.unwrap()@.core.is_canonical()),
            !share_conflicts(self@, other@) && self@.core.is_identity() && other@.core.is_canonical()
                && self@.core.same_slots(other@.core) ==> (r is Ok && r.unwrap()@.core == other@.core),
    {
        let mut contribs: BTreeMap<usize, SignedProof> = BTreeMap::new();
        contribs.insert(other.participant_id, other.signed_proof.duplicate());
        assert(contribs@.map_values(|p: SignedProof| p@) =~= map![
            other.participant_id => other.signed_proof@
        ]);
        assert(!share_conflicts(self@, other@) ==> !equivocates(
            self@.contributions,
            map![other.participant_id => other.signed_proof@],
            self.num_participants as nat,
        ));
        self.merge_with(self.degree, self.num_participants, &other.pvss_core, &contribs)
    }
}

} // verus!

use ark_bls12_381::{Fr, G1Affine, G1Projective, G2Affine, G2Projective};
use ark_ec::{AffineCurve, ProjectiveCurve};
use ark_ff::{PrimeField, Zero};
use ark_serialize::CanonicalSerialize;
use ark_std::collections::BTreeMap;
use ark_std::UniformRand;
use pvss_aggregate::errors::PVSSError;
use pvss_aggregate::pvss::PVSSCore;
use pvss_aggregate::share::{
    message_from_pi_i, DecompProof, PVSSAggregatedShare, PVSSShare, SignedProof,
};
use rand::rngs::ThreadRng;
use rand::thread_rng;

fn enc<T: CanonicalSerialize>(p: &T) -> Vec<u8> {
    let mut out = Vec::new();
    p.serialize(&mut out).unwrap();
    out
}

// A stand-in signature for tests: the message followed by the signer's key byte.
fn toy_sign(message: &Vec<u8>, key: u8) -> Vec<u8> {
    let mut s = message.clone();
    s.push(key);
    s
}

fn toy_verify(message: &Vec<u8>, signature: &Vec<u8>, key: u8) -> bool {
    *signature == toy_sign(message, key)
}

struct Dealing {
    core: PVSSCore,
    proof: SignedProof,
}

// A dealer's polynomial of degree `t`, evaluated at 1..=n, committed in G2 and
// encrypted in G1 under per-participant keys, with a signed proof.
fn deal(rng: &mut ThreadRng, t: usize, n: usize, key: u8) -> Dealing {
    let coeffs: Vec<Fr> = (0..=t).map(|_| Fr::rand(rng)).collect();
    let evals: Vec<Fr> = (1..=n)
        .map(|j| {
            let x = Fr::from(j as u64);
            coeffs.iter().rev().fold(Fr::zero(), |acc, c| acc * x + c)
        })
        .collect();
    let g2 = G2Affine::prime_subgroup_generator();
    let comms: Vec<Vec<u8>> = evals.iter().map(|e| enc(&g2.mul(e.into_repr()))).collect();
    let pks: Vec<G1Projective> = (0..n).map(|_| G1Projective::rand(rng)).collect();
    let encs: Vec<Vec<u8>> = (0..n)
        .map(|j| enc(&pks[j].into_affine().mul(evals[j].into_repr())))
        .collect();
    let gs = enc(&G1Affine::prime_subgroup_generator().mul(coeffs[0].into_repr()));
    let body = enc(&Fr::rand(rng));
    let decomp_proof = DecompProof { gs, body };
    let message = message_from_pi_i(decomp_proof.clone()).unwrap();
    let proof = SignedProof { decomp_proof, signature_on_decomp: toy_sign(&message, key) };
    Dealing { core: PVSSCore { encs, comms }, proof }
}

fn share_of(id: usize, d: &Dealing) -> PVSSShare {
    PVSSShare { participant_id: id, pvss_core: d.core.clone(), signed_proof: d.proof.clone() }
}

#[test]
fn test_generate_valid_signed_proof() {
    let rng = &mut thread_rng();
    let d = deal(rng, 3, 10, 42);
    let gs = d.proof.decomp_proof.gs.clone();
    let result = d.proof.verify(
        |p: &DecompProof| p.gs == gs,
        |m: &Vec<u8>, s: &Vec<u8>| toy_verify(m, s, 42),
    );
    assert_eq!(result, Ok(()));
}

#[test]
fn signed_proof_reports_invalid_proof_first() {
    let rng = &mut thread_rng();
    let d = deal(rng, 3, 10, 42);
    let result = d.proof.verify(|_p: &DecompProof| false, |_m: &Vec<u8>, _s: &Vec<u8>| false);
    assert_eq!(result, Err(PVSSError::DecompProofInvalid));
}

#[test]
fn signed_proof_reports_invalid_signature() {
    let rng = &mut thread_rng();
    let d = deal(rng, 3, 10, 42);
    let result = d.proof.verify(
        |_p: &DecompProof| true,
        |m: &Vec<u8>, s: &Vec<u8>| toy_verify(m, s, 7),
    );
    assert_eq!(result, Err(PVSSError::SignatureInvalid));
}

#[test]
fn signing_message_is_length_prefixed_fields() {
    let proof = DecompProof { gs: vec![1, 2], body: vec![3] };
    assert_eq!(
        message_from_pi_i(proof),
        Ok(vec![2, 0, 0, 0, 0, 0, 0, 0, 1, 2, 1, 0, 0, 0, 0, 0, 0, 0, 3])
    );
    let none = DecompProof { gs: vec![], body: vec![] };
    assert_eq!(message_from_pi_i(none), Ok(vec![0u8; 16]));
}

#[test]
fn test_create_empty_aggregated_pvss_share() {
    let t = 3;
    let n = 10;

    let empty_share = PVSSAggregatedShare::empty(t, n);

    let exp_result = PVSSAggregatedShare {
        num_participants: n,
        degree: t,
        pvss_core: PVSSCore {
            encs: vec![enc(&G1Projective::zero()); n],
            comms: vec![enc(&G2Projective::zero()); n],
        },
        contributions: BTreeMap::new(),
    };

    assert!(empty_share == exp_result);
}

#[test]
fn test_create_pvss_share() {
    let rng = &mut thread_rng();
    let t = 3;
    let n = 10;
    let id = 5_usize;

    let d = deal(rng, t, n, 1);
    let pvss_share = share_of(id, &d);

    assert_eq!(pvss_share.participant_id, id);
    assert_eq!(pvss_share.pvss_core.encs.len(), n);
    assert_eq!(pvss_share.pvss_core.comms.len(), n);
}

#[test]
fn test_aggregation_of_pvss_share() {
    let rng = &mut thread_rng();
    let t = 3;
    let n = 10;
    let id = 5_usize;

    let d = deal(rng, t, n, 1);
    let pvss_share = share_of(id, &d);

    let mut aggr_share = PVSSAggregatedShare::empty(t, n);
    aggr_share = aggr_share.aggregate_pvss_share(&pvss_share).unwrap();

    let mut contribs = BTreeMap::new();
    contribs.insert(id, d.proof.clone());

    let exp_result = PVSSAggregatedShare {
        num_participants: n,
        degree: t,
        pvss_core: d.core.clone(),
        contributions: contribs,
    };

    assert!(aggr_share == exp_result);
}

#[test]
fn test_aggregation_of_two_pvss_shares() {
    let rng = &mut thread_rng();
    let t = 3;
    let n = 10;
    let id_a = 2_usize;
    let id_b = 3_usize;

    let da = deal(rng, t, n, 1);
    let db = deal(rng, t, n, 2);

    let mut aggr_share = PVSSAggregatedShare::empty(t, n);
    aggr_share = aggr_share.aggregate_pvss_share(&share_of(id_a, &da)).unwrap();
    aggr_share = aggr_share.aggregate_pvss_share(&share_of(id_b, &db)).unwrap();

    let pvss_core = PVSSCore::empty(n).aggregate(&da.core).unwrap().aggregate(&db.core).unwrap();

    let mut contribs = BTreeMap::new();
    contribs.insert(id_a, da.proof.clone());
    contribs.insert(id_b, db.proof.clone());

    let exp_result = PVSSAggregatedShare { num_participants: n, degree: t, pvss_core, contributions: contribs };

    assert!(aggr_share == exp_result);
}

#[test]
fn end_to_end_two_dealers() {
    let rng = &mut thread_rng();
    let (t, n) = (3, 10);
    let da = deal(rng, t, n, 1);
    let db = deal(rng, t, n, 2);

    let first = PVSSAggregatedShare::empty(t, n).aggregate_pvss_share(&share_of(5, &da)).unwrap();
    let mut only_a = BTreeMap::new();
    only_a.insert(5, da.proof.clone());
    assert_eq!(first.contributions, only_a);
    assert_eq!(first.pvss_core, da.core);

    let second = first.aggregate_pvss_share(&share_of(2, &db)).unwrap();
    let mut both = BTreeMap::new();
    both.insert(2, db.proof.clone());
    both.insert(5, da.proof.clone());
    assert_eq!(second.contributions, both);
    assert_eq!(second.pvss_core, da.core.aggregate(&db.core).unwrap());
    assert_eq!(second.num_participants, n);
    assert_eq!(second.degree, t);
}

#[test]
fn fold_order_does_not_matter() {
    let rng = &mut thread_rng();
    let (t, n) = (3, 10);
    let da = deal(rng, t, n, 1);
    let db = deal(rng, t, n, 2);
    let dc = deal(rng, t, n, 3);
    let (a, b, c) = (share_of(1, &da), share_of(4, &db), share_of(9, &dc));

    let empty = PVSSAggregatedShare::empty(t, n);
    let abc = empty
        .aggregate_pvss_share(&a)
        .unwrap()
        .aggregate_pvss_share(&b)
        .unwrap()
        .aggregate_pvss_share(&c)
        .unwrap();
    let cab = empty
        .aggregate_pvss_share(&c)
        .unwrap()
        .aggregate_pvss_share(&a)
        .unwrap()
        .aggregate_pvss_share(&b)
        .unwrap();
    assert!(abc == cab);
    assert_eq!(abc.contributions.len(), 3);

    let left = empty.aggregate_pvss_share(&a).unwrap();
    let right = empty.aggregate_pvss_share(&b).unwrap().aggregate_pvss_share(&c).unwrap();
    assert_eq!(left.aggregate(&right), right.aggregate(&left));
    assert!(left.aggregate(&right).unwrap() == abc);
}

#[test]
fn folding_one_share_twice_keeps_one_entry_and_doubles_core() {
    let rng = &mut thread_rng();
    let (t, n) = (3, 10);
    let d = deal(rng, t, n, 1);
    let s = share_of(5, &d);

    let once = PVSSAggregatedShare::empty(t, n).aggregate_pvss_share(&s).unwrap();
    let twice = once.aggregate_pvss_share(&s).unwrap();

    let mut expected = BTreeMap::new();
    expected.insert(5, d.proof.clone());
    assert_eq!(twice.contributions, expected);
    assert_eq!(twice.pvss_core, d.core.aggregate(&d.core).unwrap());
    assert_ne!(twice.pvss_core, once.pvss_core);
}

#[test]
fn differing_commitments_for_one_id_are_equivocation() {
    let rng = &mut thread_rng();
    let (t, n) = (3, 10);
    let da = deal(rng, t, n, 1);
    let db = deal(rng, t, n, 1);
    let left = PVSSAggregatedShare::empty(t, n).aggregate_pvss_share(&share_of(3, &da)).unwrap();
    let right = PVSSAggregatedShare::empty(t, n).aggregate_pvss_share(&share_of(3, &db)).unwrap();
    assert_eq!(left.aggregate(&right), Err(PVSSError::TranscriptDifferentCommitments));
}

#[test]
fn equal_commitments_for_one_id_merge() {
    let rng = &mut thread_rng();
    let (t, n) = (3, 10);
    let d = deal(rng, t, n, 1);
    let mut other_proof = d.proof.clone();
    other_proof.decomp_proof.body = vec![9, 9, 9];
    other_proof.signature_on_decomp = vec![1];
    let left = PVSSAggregatedShare::empty(t, n).aggregate_pvss_share(&share_of(3, &d)).unwrap();
    let right_share = PVSSShare { participant_id: 3, pvss_core: d.core.clone(), signed_proof: other_proof };
    let right = PVSSAggregatedShare::empty(t, n).aggregate_pvss_share(&right_share).unwrap();
    let merged = left.aggregate(&right).unwrap();
    assert_eq!(merged.contributions.len(), 1);
    assert_eq!(merged.contributions.get(&3), Some(&d.proof));
}

#[test]
fn different_configurations_do_not_merge() {
    let left = PVSSAggregatedShare::empty(3, 10);
    let right = PVSSAggregatedShare::empty(3, 11);
    assert_eq!(left.aggregate(&right), Err(PVSSError::TranscriptDifferentConfig(3, 3, 10, 11)));
    let other_degree = PVSSAggregatedShare::empty(4, 10);
    assert_eq!(
        left.aggregate(&other_degree),
        Err(PVSSError::TranscriptDifferentConfig(3, 4, 10, 10))
    );
}

#[test]
fn ids_outside_the_configuration_are_dropped() {
    let rng = &mut thread_rng();
    let d = deal(rng, 3, 10, 1);
    let folded = PVSSAggregatedShare::empty(3, 10).aggregate_pvss_share(&share_of(10, &d)).unwrap();
    assert!(folded.contributions.is_empty());
    assert_eq!(folded.pvss_core, d.core);
}

#[test]
fn transcript_core_errors_propagate() {
    let rng = &mut thread_rng();
    let d = deal(rng, 3, 10, 1);
    let mut short = share_of(1, &d);
    short.pvss_core.encs.pop();
    short.pvss_core.comms.pop();
    assert_eq!(
        PVSSAggregatedShare::empty(3, 10).aggregate_pvss_share(&short),
        Err(PVSSError::MismatchedCommitmentsError(10, 9))
    );
}

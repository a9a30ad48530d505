//! Facts about folding shares into transcripts that follow from the
//! contracts of `aggregate` and `aggregate_pvss_share`.
use vstd::prelude::*;

use crate::errors::PVSSError;
use crate::pvss::{core_sum, empty_core};
use crate::share::{
    empty_aggregate, fold_share, merge_aggregates, merge_contributions, AggregateModel, ProofModel,
    ShareModel,
};

verus! {

/// Folds the shares into the transcript one after the other, stopping at the
/// first error.
pub open spec fn fold_all(agg: AggregateModel, shares: Seq<ShareModel>) -> Result<
    AggregateModel,
    PVSSError,
>
    decreases shares.len(),
{
    if shares.len() == 0 {
        Ok(agg)
    } else {
        match fold_share(agg, shares[0]) {
            Ok(next) => fold_all(next, shares.drop_first()),
            Err(e) => Err(e),
        }
    }
}

/// The proofs of three shares, each under its participant's id.
pub open spec fn proofs_of(a: ShareModel, b: ShareModel, c: ShareModel) -> Map<usize, ProofModel> {
    map![a.participant_id => a.proof, b.participant_id => b.proof, c.participant_id => c.proof]
}

proof fn lemma_fold_one(agg: AggregateModel, s: ShareModel)
    ensures
        fold_share(agg, s) matches Ok(next) ==> {
            &&& next.num_participants == agg.num_participants
            &&& next.degree == agg.degree
            &&& next.contributions == merge_contributions(
                agg.contributions,
                map![s.participant_id => s.proof],
                agg.num_participants,
            )
        },
{
}

/// Folding the shares of three distinct participants into the empty
/// transcript in the order a, b, c or in the order c, a, b gives, where
/// both succeed, transcripts of the same configuration that hold the same
/// contributions: the three signed proofs, each under its participant's id.
pub proof fn lemma_fold_order_irrelevant_for_contributions(
    degree: nat,
    n: nat,
    a: ShareModel,
    b: ShareModel,
    c: ShareModel,
)
    requires
        a.participant_id < n,
        b.participant_id < n,
        c.participant_id < n,
        a.participant_id != b.participant_id,
        a.participant_id != c.participant_id,
        b.participant_id != c.participant_id,
    ensures
        fold_all(empty_aggregate(degree, n), seq![a, b, c]) matches Ok(x)
            ==> x.contributions == proofs_of(a, b, c) && x.degree == degree && x.num_participants == n,
        fold_all(empty_aggregate(degree, n), seq![c, a, b]) matches Ok(y)
            ==> y.contributions == proofs_of(a, b, c) && y.degree == degree && y.num_participants == n,
{
    let e = empty_aggregate(degree, n);
    let target = proofs_of(a, b, c);
    reveal_with_fuel(fold_all, 4);
    assert(seq![a, b, c].drop_first() =~= seq![b, c]);
    assert(seq![b, c].drop_first() =~= seq![c]);
    assert(seq![c].drop_first() =~= Seq::<ShareModel>::empty());
    assert(seq![c, a, b].drop_first() =~= seq![a, b]);
    assert(seq![a, b].drop_first() =~= seq![b]);
    assert(seq![b].drop_first() =~= Seq::<ShareModel>::empty());
    lemma_fold_one(e, a);
    if let Ok(x1) = fold_share(e, a) {
        lemma_fold_one(x1, b);
        if let Ok(x2) = fold_share(x1, b) {
            lemma_fold_one(x2, c);
            if let Ok(x3) = fold_share(x2, c) {
                assert(x3.contributions =~= target);
            }
        }
    }
    lemma_fold_one(e, c);
    if let Ok(y1) = fold_share(e, c) {
        lemma_fold_one(y1, a);
        if let Ok(y2) = fold_share(y1, a) {
            lemma_fold_one(y2, b);
            if let Ok(y3) = fold_share(y2, b) {
                assert(y3.contributions =~= target);
            }
        }
    }
}

/// Folding one share twice into the empty transcript never fails on its
/// contributions or its configuration; where it succeeds, the transcript
/// holds that share's proof once, while its core is the share's core added
/// twice to the empty core.
pub proof fn lemma_fold_same_share_twice(degree: nat, n: nat, s: ShareModel)
    requires
        s.participant_id < n,
    ensures
        fold_share(empty_aggregate(degree, n), s) matches Ok(x) ==> {
            &&& fold_share(x, s) matches Err(err) ==> !(err is TranscriptDifferentCommitments)
                && !(err is TranscriptDifferentConfig)
            &&& fold_share(x, s) matches Ok(y) ==> {
                &&& y.contributions == map![s.participant_id => s.proof]
                &&& y.core == core_sum(core_sum(empty_core(n), s.core), s.core)
            }
        },
{
    let e = empty_aggregate(degree, n);
    lemma_fold_one(e, s);
    if let Ok(x) = fold_share(e, s) {
        assert(x.contributions =~= map![s.participant_id => s.proof]);
        lemma_fold_one(x, s);
        if let Ok(y) = fold_share(x, s) {
            assert(y.contributions =~= map![s.participant_id => s.proof]);
        }
    }
}

/// Two transcripts of one configuration that both hold a proof for
/// participant `k < n` fail to merge, with the equivocation error, exactly
/// when the commitments of those two proofs differ. Where they are equal
/// (and no other participant is in dispute) the contributions merge, and the
/// merged transcript keeps the left proof for `k`, whatever else in the two
/// proofs differs.
pub proof fn lemma_equivocation_detected(a: AggregateModel, b: AggregateModel, k: usize)
    requires
        a.degree == b.degree,
        a.num_participants == b.num_participants,
        k < a.num_participants,
        a.contributions.contains_key(k),
        b.contributions.contains_key(k),
    ensures
        a.contributions[k].gs != b.contributions[k].gs ==> merge_aggregates(a, b) == Err::<
            AggregateModel,
            PVSSError,
        >(PVSSError::TranscriptDifferentCommitments),
        (forall|j: usize|
            j < a.num_participants && a.contributions.contains_key(j) && b.contributions.contains_key(j)
                ==> (#[trigger] a.contributions[j]).gs == (#[trigger] b.contributions[j]).gs)
            ==> merge_aggregates(a, b) != Err::<AggregateModel, PVSSError>(
            PVSSError::TranscriptDifferentCommitments,
        ) && (merge_aggregates(a, b) matches Ok(m) ==> m.contributions[k] == a.contributions[k]),
{
}

/// Transcripts built for different degrees or participant counts never
/// merge; the error carries both configurations.
pub proof fn lemma_config_isolation(a: AggregateModel, b: AggregateModel)
    requires
        a.degree != b.degree || a.num_participants != b.num_participants,
    ensures
        merge_aggregates(a, b) == Err::<AggregateModel, PVSSError>(
            PVSSError::TranscriptDifferentConfig(
                a.degree as usize,
                b.degree as usize,
                a.num_participants as usize,
                b.num_participants as usize,
            ),
        ),
{
}

} // verus!

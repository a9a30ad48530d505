//! The homomorphic accumulator: one encryption and one commitment per
//! participant slot, combined slot by slot with the group operations.
use vstd::prelude::*;

use crate::errors::PVSSError;
use crate::group::{
    g1_add, g1_canonical, g1_identity, g1_identity_bytes, g1_neg, g1_negation, g1_sum, g2_add,
    g2_canonical, g2_identity, g2_identity_bytes, g2_neg, g2_negation, g2_sum,
};

verus! {

/// The value of a core: the encodings of its encryptions (G1) and of its
/// commitments (G2), slot by slot.
pub ghost struct CoreModel {
    pub encs: Seq<Seq<u8>>,
    pub comms: Seq<Seq<u8>>,
}

impl CoreModel {
    /// Every slot of both vectors holds the group identity.
    pub open spec fn is_identity(self) -> bool {
        &&& self.encs.len() == self.comms.len()
        &&& forall|i: int| 0 <= i < self.encs.len() ==> self.encs[i] == g1_identity_bytes()
        &&& forall|i: int| 0 <= i < self.comms.len() ==> self.comms[i] == g2_identity_bytes()
    }

    /// Both vectors have the same length and every slot holds the canonical
    /// encoding of a point of its group.
    pub open spec fn is_canonical(self) -> bool {
        &&& self.encs.len() == self.comms.len()
        &&& forall|i: int| 0 <= i < self.encs.len() ==> g1_canonical(#[trigger] self.encs[i])
        &&& forall|i: int| 0 <= i < self.comms.len() ==> g2_canonical(#[trigger] self.comms[i])
    }

    /// `self` and `other` have the same, non-zero, number of slots in each
    /// vector.
    pub open spec fn same_slots(self, other: CoreModel) -> bool {
        &&& self.encs.len() == other.encs.len()
        &&& self.comms.len() == other.comms.len()
        &&& self.comms.len() > 0
    }

    /// `other` is the slot-by-slot negation of `self`.
    pub open spec fn negated_by(self, other: CoreModel) -> bool {
        &&& other.encs.len() == self.encs.len()
        &&& other.comms.len() == self.comms.len()
        &&& forall|i: int| 0 <= i < self.encs.len() ==> g1_negation(self.encs[i]) == Some(other.encs[i])
        &&& forall|i: int| 0 <= i < self.comms.len() ==> g2_negation(self.comms[i]) == Some(other.comms[i])
    }
}

/// The core of `n` slots that all hold the identity.
pub open spec fn empty_core(n: nat) -> CoreModel {
    CoreModel {
        encs: Seq::new(n, |i: int| g1_identity_bytes()),
        comms: Seq::new(n, |i: int| g2_identity_bytes()),
    }
}

/// The first length check that two cores fail, in the order in which
/// aggregation makes them.
pub open spec fn shape_error(a: CoreModel, b: CoreModel) -> Option<PVSSError> {
    if a.comms.len() == 0 {
        Some(PVSSError::EmptyEncryptionsVectorError)
    } else if a.comms.len() != b.comms.len() {
        Some(PVSSError::MismatchedCommitmentsError(a.comms.len() as usize, b.comms.len() as usize))
    } else if a.encs.len() != b.encs.len() {
        Some(PVSSError::MismatchedEncryptionsError(a.encs.len() as usize, b.encs.len() as usize))
    } else if a.comms.len() != a.encs.len() {
        Some(
            PVSSError::MismatchedCommitmentsEncryptionsError(
                a.comms.len() as usize,
                a.encs.len() as usize,
            ),
        )
    } else {
        None
    }
}

/// Every slot of `a` can be added to the same slot of `b`.
pub open spec fn sums_defined(a: CoreModel, b: CoreModel) -> bool {
    &&& forall|i: int| 0 <= i < a.encs.len() ==> (#[trigger] g1_sum(a.encs[i], b.encs[i])) is Some
    &&& forall|i: int| 0 <= i < a.comms.len() ==> (#[trigger] g2_sum(a.comms[i], b.comms[i])) is Some
}

/// The slot-by-slot sum of two cores.
pub open spec fn core_sum(a: CoreModel, b: CoreModel) -> CoreModel {
    CoreModel {
        encs: Seq::new(a.encs.len(), |i: int| g1_sum(a.encs[i], b.encs[i]).unwrap()),
        comms: Seq::new(a.comms.len(), |i: int| g2_sum(a.comms[i], b.comms[i]).unwrap()),
    }
}

/// What aggregating core `a` with core `b` yields.
pub open spec fn aggregate_cores(a: CoreModel, b: CoreModel) -> Result<CoreModel, PVSSError> {
    match shape_error(a, b) {
        Some(e) => Err(e),
        None => if sums_defined(a, b) {
            Ok(core_sum(a, b))
        } else {
            Err(PVSSError::InvalidGroupElementError)
        },
    }
}

/// The encryptions and commitments that one dealing addresses to each
/// participant, or the running sum of several dealings.
#[derive(Debug, Clone, PartialEq, Eq)]
pub struct PVSSCore {
    pub encs: Vec<Vec<u8>>,
    pub comms: Vec<Vec<u8>>,
}

impl View for PVSSCore {
    type V = CoreModel;

    open spec fn view(&self) -> CoreModel {
        CoreModel {
            encs: self.encs@.map_values(|e: Vec<u8>| e@),
            comms: self.comms@.map_values(|c: Vec<u8>| c@),
        }
    }
}

/// Encodings of the identity of G1, `n` times.
fn g1_identities(n: usize) -> (r: Vec<Vec<u8>>)
    ensures
        r@.map_values(|e: Vec<u8>| e@) == Seq::new(n as nat, |i: int| g1_identity_bytes()),
{
    let mut out: Vec<Vec<u8>> = Vec::new();
    let mut i: usize = 0;
    while i < n
        invariant
            i <= n,
            out@.len() == i,
            forall|j: int| 0 <= j < i ==> (#[trigger] out@[j])@ == g1_identity_bytes(),
        decreases n - i,
    {
        out.push(g1_identity());
        i = i + 1;
    }
    assert(out@.map_values(|e: Vec<u8>| e@) =~= Seq::new(n as nat, |i: int| g1_identity_bytes()));
    out
}

/// Encodings of the identity of G2, `n` times.
fn g2_identities(n: usize) -> (r: Vec<Vec<u8>>)
    ensures
        r@.map_values(|c: Vec<u8>| c@) == Seq::new(n as nat, |i: int| g2_identity_bytes()),
{
    let mut out: Vec<Vec<u8>> = Vec::new();
    let mut i: usize = 0;
    while i < n
        invariant
            i <= n,
            out@.len() == i,
            forall|j: int| 0 <= j < i ==> (#[trigger] out@[j])@ == g2_identity_bytes(),
        decreases n - i,
    {
        out.push(g2_identity());
        i = i + 1;
    }
    assert(out@.map_values(|c: Vec<u8>| c@) =~= Seq::new(n as nat, |i: int| g2_identity_bytes()));
    out
}

impl PVSSCore {
    /// A core of `num_participants` slots that all hold the identity.
    pub fn empty(num_participants: usize) -> (r: PVSSCore)
        ensures
            r@ == empty_core(num_participants as nat),
            r@.is_identity(),
    {
        PVSSCore { encs: g1_identities(num_participants), comms: g2_identities(num_participants) }
    }

    /// Slot-by-slot sum of two cores, after their lengths are checked.
    pub fn aggregate(&self, other: &Self) -> (r: Result<Self, PVSSError>)
        ensures
            match r {
                Ok(c) => aggregate_cores(self@, other@) == Ok::<CoreModel, PVSSError>(c@),
                Err(e) => aggregate_cores(self@, other@) == Err::<CoreModel, PVSSError>(e),
            },
            r matches Ok(c) ==> aggregate_cores(other@, self@) == Ok::<CoreModel, PVSSError>(c@),
            self@.is_identity() && other@ == self@ && self.comms.len() > 0 ==> (r is Ok
                && r.unwrap()@ == self@),
            self@.negated_by(other@) && self.comms.len() > 0 && self.comms.len()
                == self.encs.len() ==> (r is Ok && r.unwrap()@.is_identity() && r.unwrap()@.encs.len()
                == self.encs.len()),
            self@.is_identity() && other@.is_canonical() && self@.same_slots(other@) ==> (r is Ok
                && r.unwrap()@ == other@),
            self@.is_canonical() && other@.is_canonical() && self@.same_slots(other@) ==> (r is Ok
                && r.unwrap()@.is_canonical()),
    {
        if self.comms.len() == 0 {
            return Err(PVSSError::EmptyEncryptionsVectorError);
        }
        if self.comms.len() != other.comms.len() {
            return Err(PVSSError::MismatchedCommitmentsError(self.comms.len(), other.comms.len()));
        }
        if self.encs.len() != other.encs.len() {
            return Err(PVSSError::MismatchedEncryptionsError(self.encs.len(), other.encs.len()));
        }
        if self.comms.len() != self.encs.len() {
            return Err(
                PVSSError::MismatchedCommitmentsEncryptionsError(self.comms.len(), self.encs.len()),
            );
        }
        let n = self.encs.len();
        let ghost a = self@;
        let ghost b = other@;
        assert(shape_error(a, b) is None);
        let mut encs: Vec<Vec<u8>> = Vec::new();
        let mut i: usize = 0;
        while i < n
            invariant
                n == self.encs.len(),
                n == other.encs.len(),
                a == self@,
                b == other@,
                shape_error(a, b) is None,
                i <= n,
                encs@.len() == i,
                forall|j: int| 0 <= j < i ==> g1_sum(a.encs[j], b.encs[j]) == Some((#[trigger] encs@[j])@),
                forall|j: int| 0 <= j < i ==> g1_sum(b.encs[j], a.encs[j]) == Some((#[trigger] encs@[j])@),
                forall|j: int|
                    0 <= j < i && a.encs[j] == g1_identity_bytes() && b.encs[j] == g1_identity_bytes()
                        ==> (#[trigger] encs@[j])@ == g1_identity_bytes(),
                forall|j: int|
                    0 <= j < i && g1_negation(a.encs[j]) == Some(b.encs[j])
                        ==> (#[trigger] encs@[j])@ == g1_identity_bytes(),
                forall|j: int|
                    0 <= j < i && a.encs[j] == g1_identity_bytes() && g1_canonical(b.encs[j])
                        ==> (#[trigger] encs@[j])@ == b.encs[j],
                forall|j: int|
                    0 <= j < i && g1_canonical(a.encs[j]) && g1_canonical(b.encs[j])
                        ==> g1_canonical((#[trigger] encs@[j])@),
            decreases n - i,
        {
            match g1_add(&self.encs[i], &other.encs[i]) {
                Some(e) => encs.push(e),
                None => {
                    assert(a.encs[i as int] == self.encs@[i as int]@);
                    assert(b.encs[i as int] == other.encs@[i as int]@);
                    assert(!sums_defined(a, b));
                    return Err(PVSSError::InvalidGroupElementError);
                },
            }
            i = i + 1;
        }
        let mut comms: Vec<Vec<u8>> = Vec::new();
        let mut k: usize = 0;
        while k < n
            invariant
                n == self.comms.len(),
                n == other.comms.len(),
                a == self@,
                b == other@,
                shape_error(a, b) is None,
                k <= n,
                encs@.len() == n,
                forall|j: int| 0 <= j < n ==> g1_sum(a.encs[j], b.encs[j]) == Some((#[trigger] encs@[j])@),
                forall|j: int| 0 <= j < n ==> g1_sum(b.encs[j], a.encs[j]) == Some((#[trigger] encs@[j])@),
                forall|j: int|
                    0 <= j < n && a.encs[j] == g1_identity_bytes() && b.encs[j] == g1_identity_bytes()
                        ==> (#[trigger] encs@[j])@ == g1_identity_bytes(),
                forall|j: int|
                    0 <= j < n && g1_negation(a.encs[j]) == Some(b.encs[j])
                        ==> (#[trigger] encs@[j])@ == g1_identity_bytes(),
                forall|j: int|
                    0 <= j < n && a.encs[j] == g1_identity_bytes() && g1_canonical(b.encs[j])
                        ==> (#[trigger] encs@[j])@ == b.encs[j],
                forall|j: int|
                    0 <= j < n && g1_canonical(a.encs[j]) && g1_canonical(b.encs[j])
                        ==> g1_canonical((#[trigger] encs@[j])@),
                comms@.len() == k,
                forall|j: int| 0 <= j < k ==> g2_sum(a.comms[j], b.comms[j]) == Some((#[trigger] comms@[j])@),
                forall|j: int| 0 <= j < k ==> g2_sum(b.comms[j], a.comms[j]) == Some((#[trigger] comms@[j])@),
                forall|j: int|
                    0 <= j < k && a.comms[j] == g2_identity_bytes() && b.comms[j] == g2_identity_bytes()
                        ==> (#[trigger] comms@[j])@ == g2_identity_bytes(),
                forall|j: int|
                    0 <= j < k && g2_negation(a.comms[j]) == Some(b.comms[j])
                        ==> (#[trigger] comms@[j])@ == g2_identity_bytes(),
                forall|j: int|
                    0 <= j < k && a.comms[j] == g2_identity_bytes() && g2_canonical(b.comms[j])
                        ==> (#[trigger] comms@[j])@ == b.comms[j],
                forall|j: int|
                    0 <= j < k && g2_canonical(a.comms[j]) && g2_canonical(b.comms[j])
                        ==> g2_canonical((#[trigger] comms@[j])@),
            decreases n - k,
        {
            match g2_add(&self.comms[k], &other.comms[k]) {
                Some(c) => comms.push(c),
                None => {
                    assert(a.comms[k as int] == self.comms@[k as int]@);
                    assert(b.comms[k as int] == other.comms@[k as int]@);
                    assert(!sums_defined(a, b));
                    return Err(PVSSError::InvalidGroupElementError);
                },
            }
            k = k + 1;
        }
        let result = PVSSCore { encs, comms };
        proof {
            assert forall|j: int| 0 <= j < a.encs.len() implies
                (#[trigger] g1_sum(a.encs[j], b.encs[j])) is Some by {
                assert(encs@[j]@ == result@.encs[j]);
            }
            assert forall|j: int| 0 <= j < a.comms.len() implies
                (#[trigger] g2_sum(a.comms[j], b.comms[j])) is Some by {
                assert(comms@[j]@ == result@.comms[j]);
            }
            assert(result@.encs =~= core_sum(a, b).encs);
            assert(result@.comms =~= core_sum(a, b).comms);
            assert forall|j: int| 0 <= j < b.encs.len() implies
                (#[trigger] g1_sum(b.encs[j], a.encs[j])) is Some by {
                assert(encs@[j]@ == result@.encs[j]);
            }
            assert forall|j: int| 0 <= j < b.comms.len() implies
                (#[trigger] g2_sum(b.comms[j], a.comms[j])) is Some by {
                assert(comms@[j]@ == result@.comms[j]);
            }
            assert(result@.encs =~= core_sum(b, a).encs);
            assert(result@.comms =~= core_sum(b, a).comms);
            if a.is_identity() && b == a {
                assert(result@.encs =~= a.encs);
                assert(result@.comms =~= a.comms);
            }
            if a.is_identity() && b.is_canonical() {
                assert(result@.encs =~= b.encs);
                assert(result@.comms =~= b.comms);
            }
        }
        Ok(result)
    }

    /// Slot-by-slot negation of a core.
    pub fn negate(&self) -> (r: Result<Self, PVSSError>)
        ensures
            match r {
                Ok(c) => self@.negated_by(c@),
                Err(e) => e == PVSSError::InvalidGroupElementError && ((exists|i: int|
                    0 <= i < self.encs.len() && (#[trigger] g1_negation(self@.encs[i])) is None)
                    || (exists|i: int|
                    0 <= i < self.comms.len() && (#[trigger] g2_negation(self@.comms[i])) is None)),
            },
    {
        let ghost a = self@;
        let mut encs: Vec<Vec<u8>> = Vec::new();
        let mut i: usize = 0;
        while i < self.encs.len()
            invariant
                a == self@,
                i <= self.encs.len(),
                encs@.len() == i,
                forall|j: int| 0 <= j < i ==> g1_negation(a.encs[j]) == Some((#[trigger] encs@[j])@),
            decreases self.encs.len() - i,
        {
            match g1_neg(&self.encs[i]) {
                Some(e) => encs.push(e),
                None => {
                    assert(a.encs[i as int] == self.encs@[i as int]@);
                    return Err(PVSSError::InvalidGroupElementError);
                },
            }
            i = i + 1;
        }
        let mut comms: Vec<Vec<u8>> = Vec::new();
        let mut k: usize = 0;
        while k < self.comms.len()
            invariant
                a == self@,
                k <= self.comms.len(),
                comms@.len() == k,
                forall|j: int| 0 <= j < k ==> g2_negation(a.comms[j]) == Some((#[trigger] comms@[j])@),
            decreases self.comms.len() - k,
        {
            match g2_neg(&self.comms[k]) {
                Some(c) => comms.push(c),
                None => {
                    assert(a.comms[k as int] == self.comms@[k as int]@);
                    return Err(PVSSError::InvalidGroupElementError);
                },
            }
            k = k + 1;
        }
        Ok(PVSSCore { encs, comms })
    }
}

/// The secrets behind one dealing: the free term of the dealer's polynomial
/// (an encoded scalar) and the dealer's partial secret (an encoded G1 point).
#[derive(Debug, Clone, PartialEq, Eq)]
pub struct PVSSShareSecrets {
    pub p_0: Vec<u8>,
    pub my_secret: Vec<u8>,
}

} // verus!

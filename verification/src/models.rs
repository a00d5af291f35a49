//! The classifier bank: an ordered table of weak bitmask classifiers, trained
//! offline, whose outputs are concatenated into a fingerprint.

use vstd::prelude::*;

use crate::bits::{lemma_popcount_u8, popcount};

verus! {

/// Width of a fingerprint in bits, and so the most classifiers a bank holds.
pub const CODE_BITS: usize = 16;

/// What a weak classifier is made of.
pub struct ClassifierModel {
    /// Per byte position, the bits that raise the score when set in the body.
    pub positive_mask: Seq<u8>,
    /// Per byte position, the bits that lower the score when set in the body.
    pub negative_mask: Seq<u8>,
    /// The classifier outputs 1 exactly when the score reaches this value.
    pub threshold: int,
}

/// The masks have one length and share no bit at any position.
pub open spec fn masks_fit(positive_mask: Seq<u8>, negative_mask: Seq<u8>) -> bool {
    &&& positive_mask.len() == negative_mask.len()
    &&& forall|i: int|
        0 <= i < positive_mask.len() ==> #[trigger] positive_mask[i] & negative_mask[i] == 0
}

impl ClassifierModel {
    /// The masks cover the same positions and never share a bit.
    pub open spec fn wf(self) -> bool {
        masks_fit(self.positive_mask, self.negative_mask)
    }

    /// Number of leading body bytes that are scored: the body's length or the
    /// masks' length, whichever is smallest.
    pub open spec fn span(self, body: Seq<u8>) -> nat {
        let masks = if self.positive_mask.len() <= self.negative_mask.len() {
            self.positive_mask.len()
        } else {
            self.negative_mask.len()
        };
        if body.len() <= masks {
            body.len()
        } else {
            masks
        }
    }

    /// What the byte at position `i` adds to the score.
    pub open spec fn byte_score(self, body: Seq<u8>, i: int) -> int {
        popcount((body[i] & self.positive_mask[i]) as nat) - popcount(
            (body[i] & self.negative_mask[i]) as nat,
        )
    }

    /// Score over the first `n` byte positions.
    pub open spec fn score_upto(self, body: Seq<u8>, n: nat) -> int
        decreases n,
    {
        if n == 0 {
            0
        } else {
            self.score_upto(body, (n - 1) as nat) + self.byte_score(body, n - 1)
        }
    }

    /// Aggregate score of a body.
    pub open spec fn score(self, body: Seq<u8>) -> int {
        self.score_upto(body, self.span(body))
    }

    /// The classifier's output bit.
    pub open spec fn output(self, body: Seq<u8>) -> bool {
        self.score(body) >= self.threshold
    }
}

/// The code after the first `n` classifiers of `bank` have voted: each vote
/// shifts the code left by one and lands in the lowest bit.
pub open spec fn code_upto(body: Seq<u8>, bank: Seq<ClassifierModel>, n: nat) -> u16
    decreases n,
{
    if n == 0 {
        0u16
    } else {
        let vote: u16 = if bank[n - 1].output(body) {
            1
        } else {
            0
        };
        (code_upto(body, bank, (n - 1) as nat) << 1u16) | vote
    }
}

/// The fingerprint of a probe body under a bank.
pub open spec fn fingerprint(body: Seq<u8>, bank: Seq<ClassifierModel>) -> u16 {
    code_upto(body, bank, bank.len())
}

/// Bit `k` of a code, counted from the least significant.
pub open spec fn code_bit(code: u16, k: nat) -> bool {
    (code >> (k as u16)) & 1u16 == 1u16
}

/// The score over `n` positions lies within eight per position.
pub proof fn lemma_score_bound(m: ClassifierModel, body: Seq<u8>, n: nat)
    ensures
        -8 * n <= m.score_upto(body, n) <= 8 * n,
    decreases n,
{
    if n > 0 {
        lemma_score_bound(m, body, (n - 1) as nat);
        lemma_popcount_u8(body[n - 1] & m.positive_mask[n - 1]);
        lemma_popcount_u8(body[n - 1] & m.negative_mask[n - 1]);
    }
}

/// With an empty body nothing is scored: the output is 1 exactly when the
/// threshold is zero or negative.
pub proof fn lemma_empty_body(m: ClassifierModel)
    ensures
        m.score(Seq::<u8>::empty()) == 0,
        m.output(Seq::<u8>::empty()) == (m.threshold <= 0),
{
}

/// Only the scored prefix of the body matters: bodies that agree on it get
/// the same score.
pub proof fn lemma_score_prefix(m: ClassifierModel, a: Seq<u8>, b: Seq<u8>, n: nat)
    requires
        n <= a.len(),
        n <= b.len(),
        forall|i: int| 0 <= i < n ==> a[i] == b[i],
    ensures
        m.score_upto(a, n) == m.score_upto(b, n),
    decreases n,
{
    if n > 0 {
        lemma_score_prefix(m, a, b, (n - 1) as nat);
    }
}

/// The fingerprint is a function of the body and the bank alone.
pub proof fn lemma_fingerprint_pure(
    body: Seq<u8>,
    bank: Seq<ClassifierModel>,
    other_body: Seq<u8>,
    other_bank: Seq<ClassifierModel>,
)
    requires
        body =~= other_body,
        bank =~= other_bank,
    ensures
        fingerprint(body, bank) == fingerprint(other_body, other_bank),
{
}

/// Classifier `j` of a bank of `n <= 16` classifiers decides bit `n - 1 - j`
/// of the code, so classifier 0 lands in the most significant of the `n` bits,
/// and the bits above stay clear.
pub proof fn lemma_code_msb_first(body: Seq<u8>, bank: Seq<ClassifierModel>, n: nat)
    requires
        n <= bank.len(),
        n <= CODE_BITS,
    ensures
        forall|j: int|
            0 <= j < n ==> code_bit(code_upto(body, bank, n), (n - 1 - j) as nat)
                == #[trigger] bank[j].output(body),
        forall|k: nat| n <= k < CODE_BITS ==> !#[trigger] code_bit(code_upto(body, bank, n), k),
    decreases n,
{
    if n == 0 {
        assert forall|k: nat| k < CODE_BITS implies !#[trigger] code_bit(0u16, k) by {
            let s = k as u16;
            assert((0u16 >> s) & 1u16 == 0u16) by (bit_vector);
        }
    } else {
        let prev = code_upto(body, bank, (n - 1) as nat);
        let vote: u16 = if bank[n - 1].output(body) {
            1
        } else {
            0
        };
        let code = code_upto(body, bank, n);
        assert(code == (prev << 1u16) | vote);
        lemma_code_msb_first(body, bank, (n - 1) as nat);
        assert(code_bit(code, 0) == bank[n - 1].output(body)) by {
            assert((((prev << 1u16) | vote) >> 0u16) & 1u16 == vote) by (bit_vector)
                requires
                    vote <= 1u16,
            ;
        }
        assert forall|k: nat| 1 <= k < CODE_BITS implies code_bit(code, k) == code_bit(
            prev,
            (k - 1) as nat,
        ) by {
            let s = k as u16;
            let t = (k - 1) as u16;
            assert((((prev << 1u16) | vote) >> s) & 1u16 == (prev >> t) & 1u16) by (bit_vector)
                requires
                    vote <= 1u16,
                    1u16 <= s < 16u16,
                    t == s - 1u16,
            ;
        }
        assert forall|j: int| 0 <= j < n implies code_bit(code, (n - 1 - j) as nat)
            == #[trigger] bank[j].output(body) by {
            if j < n - 1 {
                let k = (n - 1 - j) as nat;
                assert(code_bit(code, k) == code_bit(prev, (k - 1) as nat));
                assert((k - 1) as nat == ((n - 1) as nat - 1 - j) as nat);
            }
        }
        assert forall|k: nat| n <= k < CODE_BITS implies !#[trigger] code_bit(code, k) by {
            assert(code_bit(code, k) == code_bit(prev, (k - 1) as nat));
        }
    }
}

/// One weak classifier: two byte masks and a threshold.
pub struct WeakClassifier {
    positive_mask: Vec<u8>,
    negative_mask: Vec<u8>,
    threshold: i32,
}

impl View for WeakClassifier {
    type V = ClassifierModel;

    closed spec fn view(&self) -> ClassifierModel {
        ClassifierModel {
            positive_mask: self.positive_mask@,
            negative_mask: self.negative_mask@,
            threshold: self.threshold as int,
        }
    }
}

impl WeakClassifier {
    #[verifier::type_invariant]
    spec fn inv(self) -> bool {
        masks_fit(self.positive_mask@, self.negative_mask@)
    }

    /// Builds a classifier. The masks must have the same length and be
    /// disjoint at every position; otherwise there is no classifier.
    pub fn new(positive_mask: Vec<u8>, negative_mask: Vec<u8>, threshold: i32) -> (made: Option<
        Self,
    >)
        ensures
            made is Some <==> masks_fit(positive_mask@, negative_mask@),
            made matches Some(m) ==> m@ == (ClassifierModel {
                positive_mask: positive_mask@,
                negative_mask: negative_mask@,
                threshold: threshold as int,
            }),
    {
        if positive_mask.len() != negative_mask.len() {
            return None;
        }
        let mut i: usize = 0;
        while i < positive_mask.len()
            invariant
                i <= positive_mask.len(),
                positive_mask.len() == negative_mask.len(),
                forall|k: int| 0 <= k < i ==> #[trigger] positive_mask@[k] & negative_mask@[k] == 0,
            decreases positive_mask.len() - i,
        {
            if positive_mask[i] & negative_mask[i] != 0 {
                return None;
            }
            i += 1;
        }
        Some(WeakClassifier { positive_mask, negative_mask, threshold })
    }

    /// The bits that raise the score, per byte position.
    pub fn positive_mask(&self) -> (mask: &[u8])
        ensures
            mask@ == self@.positive_mask,
    {
        self.positive_mask.as_slice()
    }

    /// The bits that lower the score, per byte position.
    pub fn negative_mask(&self) -> (mask: &[u8])
        ensures
            mask@ == self@.negative_mask,
    {
        self.negative_mask.as_slice()
    }

    /// The score at which the classifier outputs 1.
    pub fn threshold(&self) -> (threshold: i32)
        ensures
            threshold == self@.threshold,
    {
        self.threshold
    }

    /// Scores a body: over the positions that body and masks share, the set
    /// bits under the positive mask minus those under the negative mask.
    pub fn score(&self, body: &[u8]) -> (score: i128)
        ensures
            self@.wf(),
            score == self@.score(body@),
    {
        proof {
            use_type_invariant(self);
        }
        let masks = if self.positive_mask.len() <= self.negative_mask.len() {
            self.positive_mask.len()
        } else {
            self.negative_mask.len()
        };
        let span = if body.len() <= masks {
            body.len()
        } else {
            masks
        };
        let mut score: i128 = 0;
        let mut i: usize = 0;
        while i < span
            invariant
                i <= span,
                span == self@.span(body@),
                score == self@.score_upto(body@, i as nat),
            decreases span - i,
        {
            let positive_bits = body[i] & self.positive_mask[i];
            let negative_bits = body[i] & self.negative_mask[i];
            proof {
                lemma_score_bound(self@, body@, i as nat);
                lemma_popcount_u8(positive_bits);
                lemma_popcount_u8(negative_bits);
            }
            score = score + positive_bits.count_ones() as i128;
            score = score - negative_bits.count_ones() as i128;
            i += 1;
        }
        score
    }

    /// The output bit for a body: whether its score reaches the threshold.
    pub fn output(&self, body: &[u8]) -> (bit: bool)
        ensures
            bit == self@.output(body@),
    {
        self.score(body) >= self.threshold as i128
    }
}

/// An ordered bank of at most [`CODE_BITS`] weak classifiers.
pub struct ClassifierBank {
    classifiers: Vec<WeakClassifier>,
}

impl View for ClassifierBank {
    type V = Seq<ClassifierModel>;

    closed spec fn view(&self) -> Seq<ClassifierModel> {
        self.classifiers@.map_values(|c: WeakClassifier| c@)
    }
}

impl ClassifierBank {
    #[verifier::type_invariant]
    spec fn inv(self) -> bool {
        self.classifiers@.len() <= CODE_BITS
    }

    /// Builds a bank from classifiers in voting order. A bank holds at most
    /// [`CODE_BITS`] classifiers, so that every vote keeps its bit in the
    /// code; with more there is no bank.
    pub fn new(classifiers: Vec<WeakClassifier>) -> (made: Option<Self>)
        ensures
            made is Some <==> classifiers@.len() <= CODE_BITS,
            made matches Some(bank) ==> bank@ == classifiers@.map_values(|c: WeakClassifier| c@),
    {
        if classifiers.len() > CODE_BITS {
            return None;
        }
        Some(ClassifierBank { classifiers })
    }

    /// Number of classifiers.
    pub fn len(&self) -> (n: usize)
        ensures
            n == self@.len(),
            n <= CODE_BITS,
    {
        proof {
            use_type_invariant(self);
        }
        self.classifiers.len()
    }

    /// The classifier that votes at position `index`.
    pub fn classifier(&self, index: usize) -> (c: &WeakClassifier)
        requires
            index < self@.len(),
        ensures
            c@ == self@[index as int],
    {
        &self.classifiers[index]
    }
}

} // verus!

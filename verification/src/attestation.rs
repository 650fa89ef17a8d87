//! Attestations: subject binding and threshold checks on their score.
//!
//! The mean of the scores is a floating-point computation and is made by the
//! caller; the functions here take it as an argument.
use crate::errors::{ErrorView, SecurityError, SecurityResult};
use crate::ratio::Ratio;
use crate::text::push_text;
use crate::types::{Attestation, WalletId};
use vstd::prelude::*;

verus! {

/// A score together with the threshold that it was held against.
#[derive(Debug, Clone, Copy)]
pub struct AttestationScore {
    pub score: Ratio,
    pub threshold: Ratio,
}

impl AttestationScore {
    /// Whether the score reaches the threshold (`score >= threshold`).
    pub fn passed(&self) -> (b: bool)
        ensures
            b == self.threshold.spec_le(self.score),
    {
        self.threshold.le(&self.score)
    }
}

/// Count, mean, lowest and highest of the (clamped) scores of a set.
#[derive(Debug, Clone, Copy)]
pub struct AttestationSummary {
    pub count: usize,
    pub mean_score: Ratio,
    pub min_score: Ratio,
    pub max_score: Ratio,
}

/// The error for an attestation about `seen` where `expected` was required.
pub open spec fn subject_mismatch(expected: Seq<char>, seen: Seq<char>) -> ErrorView {
    ErrorView::PolicyViolation(
        "attestation subject mismatch: expected "@ + expected + ", saw "@ + seen,
    )
}

/// The error for the first attestation whose subject is not `wallet`, if any.
pub open spec fn subject_verdict(items: Seq<Attestation>, wallet: Seq<char>) -> Option<ErrorView>
    decreases items.len(),
{
    if items.len() == 0 {
        None
    } else if items[0].subject_wallet.0@ != wallet {
        Some(subject_mismatch(wallet, items[0].subject_wallet.0@))
    } else {
        subject_verdict(items.drop_first(), wallet)
    }
}

/// `f64::min`: a NaN argument yields the other one.
pub open spec fn ratio_min(a: Ratio, b: Ratio) -> Ratio {
    if a.spec_is_nan() {
        b
    } else if b.spec_is_nan() {
        a
    } else if b.spec_lt(a) {
        b
    } else {
        a
    }
}

/// The lowest clamped score, starting from `acc`.
pub open spec fn min_clamped(acc: Ratio, items: Seq<Attestation>) -> Ratio
    decreases items.len(),
{
    if items.len() == 0 {
        acc
    } else {
        min_clamped(ratio_min(acc, items[0].score.spec_clamp_unit()), items.drop_first())
    }
}

/// The highest clamped score, starting from `acc`.
pub open spec fn max_clamped(acc: Ratio, items: Seq<Attestation>) -> Ratio
    decreases items.len(),
{
    if items.len() == 0 {
        acc
    } else {
        max_clamped(acc.spec_max(items[0].score.spec_clamp_unit()), items.drop_first())
    }
}

fn min_ratio(a: Ratio, b: Ratio) -> (r: Ratio)
    ensures
        r == ratio_min(a, b),
{
    if a.is_nan() {
        b
    } else if b.is_nan() {
        a
    } else if b.lt(&a) {
        b
    } else {
        a
    }
}

/// A list of attestations, reduced to a deterministic trust summary.
///
/// Attestations may come from validator clusters, compliance systems,
/// hardware attestation services or domain-specific policy engines; the set
/// assumes no one model and only reduces the list to values that can be
/// checked before state mutation.
#[derive(Debug, Clone)]
pub struct AttestationSet {
    items: Vec<Attestation>,
}

impl AttestationSet {
    /// The attestations of the set.
    pub closed spec fn attestations(&self) -> Seq<Attestation> {
        self.items@
    }

    /// The set of `items`.
    pub fn new(items: Vec<Attestation>) -> (s: Self)
        ensures
            s.attestations() == items@,
    {
        AttestationSet { items }
    }

    /// The attestations, in order.
    pub fn items(&self) -> (items: &[Attestation])
        ensures
            items@ == self.attestations(),
    {
        self.items.as_slice()
    }

    /// The number of attestations.
    pub fn count(&self) -> (n: usize)
        ensures
            n == self.attestations().len(),
    {
        self.items.len()
    }

    /// Checks that every attestation is about `wallet_id`; the error names
    /// the first one that is not.
    pub fn validate_subject(&self, wallet_id: &WalletId) -> (r: SecurityResult<()>)
        ensures
            error_of_unit(r) == subject_verdict(self.attestations(), wallet_id.0@),
    {
        let n = self.items.len();
        let mut i: usize = 0;
        assert(self.items@.skip(0) =~= self.items@);
        while i < n
            invariant
                n == self.items@.len(),
                i <= n,
                subject_verdict(self.items@, wallet_id.0@) == subject_verdict(
                    self.items@.skip(i as int),
                    wallet_id.0@,
                ),
            decreases n - i,
        {
            let att = &self.items[i];
            assert(self.items@.skip(i as int)[0] == *att);
            if !(att.subject_wallet.0 == wallet_id.0) {
                let mut m = String::from_str("attestation subject mismatch: expected ");
                push_text(&mut m, wallet_id.0.as_str());
                push_text(&mut m, ", saw ");
                push_text(&mut m, att.subject_wallet.0.as_str());
                return Err(SecurityError::PolicyViolation(m));
            }
            assert(self.items@.skip(i as int).drop_first() =~= self.items@.skip(i + 1));
            i = i + 1;
        }
        assert(self.items@.skip(n as int).len() == 0);
        Ok(())
    }

    /// The summary of the set, given the mean of its clamped scores (clamped
    /// itself): zero everywhere for an empty set; otherwise the count, the
    /// mean as given, and the lowest and highest clamped scores.
    pub fn summary(&self, mean_score: Ratio) -> (s: AttestationSummary)
        ensures
            self.attestations().len() == 0 ==> s.count == 0 && s.mean_score == Ratio::zero_spec()
                && s.min_score == Ratio::zero_spec() && s.max_score == Ratio::zero_spec(),
            self.attestations().len() > 0 ==> s.count == self.attestations().len() && s.mean_score
                == mean_score && s.min_score == min_clamped(Ratio::one_spec(), self.attestations())
                && s.max_score == max_clamped(Ratio::zero_spec(), self.attestations()),
    {
        let n = self.items.len();
        if n == 0 {
            return AttestationSummary {
                count: 0,
                mean_score: Ratio::zero(),
                min_score: Ratio::zero(),
                max_score: Ratio::zero(),
            };
        }
        let mut min_score = Ratio::one();
        let mut max_score = Ratio::zero();
        let mut i: usize = 0;
        assert(self.items@.skip(0) =~= self.items@);
        while i < n
            invariant
                n == self.items@.len(),
                i <= n,
                min_clamped(Ratio::one_spec(), self.items@) == min_clamped(
                    min_score,
                    self.items@.skip(i as int),
                ),
                max_clamped(Ratio::zero_spec(), self.items@) == max_clamped(
                    max_score,
                    self.items@.skip(i as int),
                ),
            decreases n - i,
        {
            let score = self.items[i].score.clamp_unit();
            assert(self.items@.skip(i as int)[0] == self.items@[i as int]);
            assert(self.items@.skip(i as int).drop_first() =~= self.items@.skip(i + 1));
            min_score = min_ratio(min_score, score);
            max_score = max_score.max(&score);
            i = i + 1;
        }
        AttestationSummary { count: n, mean_score, min_score, max_score }
    }

    /// The score that reaches `threshold` (`score >= threshold`), or the
    /// error that reports a lower one; `score` is the total score of the set
    /// (the clamped mean of its clamped scores, zero for an empty set).
    pub fn require_min_score(&self, threshold: Ratio, score: Ratio) -> (r: SecurityResult<
        AttestationScore,
    >)
        ensures
            score.spec_lt(threshold) ==> (r matches Err(e) && e@
                == ErrorView::AttestationBelowThreshold { got: score, required: threshold }),
            !score.spec_lt(threshold) ==> (r matches Ok(s) && s.score == score && s.threshold
                == threshold),
    {
        if score.lt(&threshold) {
            return Err(SecurityError::AttestationBelowThreshold { got: score, required: threshold });
        }
        Ok(AttestationScore { score, threshold })
    }
}

impl Default for AttestationSet {
    fn default() -> (s: Self)
        ensures
            s.attestations() == Seq::<Attestation>::empty(),
    {
        AttestationSet { items: Vec::new() }
    }
}

/// The lowest and highest clamped scores of a summary lie in `[0, 1]`,
/// whatever the scores (a NaN score is passed over).
pub proof fn law_summary_bounds_in_unit(items: Seq<Attestation>)
    ensures
        min_clamped(Ratio::one_spec(), items).spec_in_unit(),
        max_clamped(Ratio::zero_spec(), items).spec_in_unit(),
{
    lemma_min_clamped_in_unit(Ratio::one_spec(), items);
    lemma_max_clamped_in_unit(Ratio::zero_spec(), items);
}

proof fn lemma_min_clamped_in_unit(acc: Ratio, items: Seq<Attestation>)
    requires
        acc.spec_in_unit(),
    ensures
        min_clamped(acc, items).spec_in_unit(),
    decreases items.len(),
{
    if items.len() > 0 {
        let x = items[0].score.spec_clamp_unit();
        crate::ratio::law_clamp_unit_in_unit(items[0].score);
        lemma_min_clamped_in_unit(ratio_min(acc, x), items.drop_first());
    }
}

proof fn lemma_max_clamped_in_unit(acc: Ratio, items: Seq<Attestation>)
    requires
        acc.spec_in_unit(),
    ensures
        max_clamped(acc, items).spec_in_unit(),
    decreases items.len(),
{
    if items.len() > 0 {
        let x = items[0].score.spec_clamp_unit();
        crate::ratio::law_clamp_unit_in_unit(items[0].score);
        lemma_max_clamped_in_unit(acc.spec_max(x), items.drop_first());
    }
}

/// Subject binding: a list of attestations passes exactly when every one of
/// them, the first included, is about `wallet`; otherwise the error names
/// the first attestation about another wallet.
pub proof fn law_subject_binding(items: Seq<Attestation>, wallet: Seq<char>)
    ensures
        subject_verdict(items, wallet) is None <==> forall|i: int|
            0 <= i < items.len() ==> (#[trigger] items[i]).subject_wallet.0@ == wallet,
        subject_verdict(items, wallet) is Some ==> exists|k: int|
            0 <= k < items.len() && items[k].subject_wallet.0@ != wallet && (forall|i: int|
                0 <= i < k ==> (#[trigger] items[i]).subject_wallet.0@ == wallet)
                && subject_verdict(items, wallet) == Some(
                subject_mismatch(wallet, items[k].subject_wallet.0@),
            ),
    decreases items.len(),
{
    if items.len() > 0 {
        let rest = items.drop_first();
        law_subject_binding(rest, wallet);
        assert forall|i: int| 0 <= i < rest.len() implies #[trigger] rest[i] == items[i + 1] by {}
        if items[0].subject_wallet.0@ != wallet {
            assert(forall|i: int| 0 <= i < 0 ==> (#[trigger] items[i]).subject_wallet.0@ == wallet);
        } else if subject_verdict(rest, wallet) is Some {
            let k = choose|k: int|
                0 <= k < rest.len() && rest[k].subject_wallet.0@ != wallet && (forall|i: int|
                    0 <= i < k ==> (#[trigger] rest[i]).subject_wallet.0@ == wallet)
                    && subject_verdict(rest, wallet) == Some(
                    subject_mismatch(wallet, rest[k].subject_wallet.0@),
                );
            assert(items[k + 1] == rest[k]);
            assert forall|i: int| 0 <= i < k + 1 implies (#[trigger] items[i]).subject_wallet.0@
                == wallet by {
                if i > 0 {
                    assert(items[i] == rest[i - 1]);
                }
            }
        } else {
            assert forall|i: int| 0 <= i < items.len() implies (#[trigger] items[i]).subject_wallet.0@
                == wallet by {
                if i > 0 {
                    assert(items[i] == rest[i - 1]);
                }
            }
        }
    }
}

/// The clamped score of the `i`-th attestation.
pub open spec fn clamped_score(items: Seq<Attestation>, i: int) -> Ratio {
    items[i].score.spec_clamp_unit()
}

/// The lowest clamped score of a summary is the least of the clamped
/// scores that are numbers, and the highest is the greatest: each is one
/// of them or the starting value (1 for the lowest, 0 for the highest), it
/// is below (above) every one of them, and the lowest is at most the
/// highest as soon as one score is a number.
pub proof fn law_summary_bounds_are_extremes(items: Seq<Attestation>)
    ensures
        ({
            let lo = min_clamped(Ratio::one_spec(), items);
            let hi = max_clamped(Ratio::zero_spec(), items);
            &&& lo == Ratio::one_spec() || exists|i: int| 0 <= i < items.len() && lo == clamped_score(items, i)
            &&& hi == Ratio::zero_spec() || exists|i: int| 0 <= i < items.len() && hi == clamped_score(items, i)
            &&& forall|i: int| 0 <= i < items.len() && !(#[trigger] clamped_score(items, i)).spec_is_nan()
                ==> lo.spec_le(clamped_score(items, i)) && clamped_score(items, i).spec_le(hi)
            &&& (exists|i: int| 0 <= i < items.len() && !items[i].score.spec_is_nan()) ==> lo.spec_le(hi)
        }),
{
    lemma_min_clamped_is_least(Ratio::one_spec(), items);
    lemma_max_clamped_is_greatest(Ratio::zero_spec(), items);
    let lo = min_clamped(Ratio::one_spec(), items);
    let hi = max_clamped(Ratio::zero_spec(), items);
    if exists|i: int| 0 <= i < items.len() && !items[i].score.spec_is_nan() {
        let i = choose|i: int| 0 <= i < items.len() && !items[i].score.spec_is_nan();
        crate::ratio::law_clamp_unit_in_unit(items[i].score);
        assert(!clamped_score(items, i).spec_is_nan());
    }
}

proof fn lemma_min_clamped_is_least(acc: Ratio, items: Seq<Attestation>)
    requires
        !acc.spec_is_nan(),
    ensures
        ({
            let lo = min_clamped(acc, items);
            &&& !lo.spec_is_nan()
            &&& lo.spec_le(acc)
            &&& lo == acc || exists|i: int| 0 <= i < items.len() && lo == clamped_score(items, i)
            &&& forall|i: int| 0 <= i < items.len() && !(#[trigger] clamped_score(items, i)).spec_is_nan()
                ==> lo.spec_le(clamped_score(items, i))
        }),
    decreases items.len(),
{
    if items.len() > 0 {
        let rest = items.drop_first();
        let next = ratio_min(acc, clamped_score(items, 0));
        lemma_min_clamped_is_least(next, rest);
        let lo = min_clamped(acc, items);
        assert(lo == min_clamped(next, rest));
        assert forall|i: int| 0 <= i < rest.len() implies #[trigger] clamped_score(rest, i)
            == clamped_score(items, i + 1) by {
            assert(rest[i] == items[i + 1]);
        }
        if lo != next {
            let j = choose|j: int| 0 <= j < rest.len() && lo == clamped_score(rest, j);
            assert(lo == clamped_score(items, j + 1));
        }
        assert forall|i: int| 0 <= i < items.len() && !(#[trigger] clamped_score(items, i)).spec_is_nan()
            implies lo.spec_le(clamped_score(items, i)) by {
            if i > 0 {
                assert(clamped_score(rest, i - 1) == clamped_score(items, i));
            }
        }
    }
}

proof fn lemma_max_clamped_is_greatest(acc: Ratio, items: Seq<Attestation>)
    requires
        !acc.spec_is_nan(),
    ensures
        ({
            let hi = max_clamped(acc, items);
            &&& !hi.spec_is_nan()
            &&& acc.spec_le(hi)
            &&& hi == acc || exists|i: int| 0 <= i < items.len() && hi == clamped_score(items, i)
            &&& forall|i: int| 0 <= i < items.len() && !(#[trigger] clamped_score(items, i)).spec_is_nan()
                ==> clamped_score(items, i).spec_le(hi)
        }),
    decreases items.len(),
{
    if items.len() > 0 {
        let rest = items.drop_first();
        let next = acc.spec_max(clamped_score(items, 0));
        lemma_max_clamped_is_greatest(next, rest);
        let hi = max_clamped(acc, items);
        assert(hi == max_clamped(next, rest));
        assert forall|i: int| 0 <= i < rest.len() implies #[trigger] clamped_score(rest, i)
            == clamped_score(items, i + 1) by {
            assert(rest[i] == items[i + 1]);
        }
        if hi != next {
            let j = choose|j: int| 0 <= j < rest.len() && hi == clamped_score(rest, j);
            assert(hi == clamped_score(items, j + 1));
        }
        assert forall|i: int| 0 <= i < items.len() && !(#[trigger] clamped_score(items, i)).spec_is_nan()
            implies clamped_score(items, i).spec_le(hi) by {
            if i > 0 {
                assert(clamped_score(rest, i - 1) == clamped_score(items, i));
            }
        }
    }
}

/// The error of a unit result, by its view, or `None` for success.
pub open spec fn error_of_unit(r: SecurityResult<()>) -> Option<ErrorView> {
    match r {
        Ok(()) => None,
        Err(e) => Some(e@),
    }
}

} // verus!

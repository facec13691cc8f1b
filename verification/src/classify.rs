//! The deployment classifier: partition the store's raw deployment list
//! into the boot slots (staged, rollback, other) relative to the booted
//! deployment, and compute the boot-order intent.

use vstd::prelude::*;
use vstd::multiset::Multiset;
use vstd::seq_lib::lemma_multiset_commutative;
use vstd::string::StringExecFns;

use crate::deployment::same_deployment;
use crate::deployment::Deployment;
use crate::deployment::deployment_equal;
use crate::textutil::str_eq;

verus! {

/// The classified deployments; the booted one is the caller's and is not
/// part of this result.
pub struct Deployments {
    /// The deployment staged to boot next, if any.
    pub staged: Option<Deployment>,
    /// The most-preferred non-booted, non-staged deployment in the booted
    /// state root, if any.
    pub rollback: Option<Deployment>,
    /// Every other deployment, related ones first, in their original
    /// order.
    pub other: Vec<Deployment>,
}

/// The value behind an optional borrow.
pub open spec fn opt_deref(b: Option<&Deployment>) -> Option<Deployment> {
    match b {
        Some(x) => Some(*x),
        None => None,
    }
}

/// The subsequence of `s` whose state root is `sr`, in order.
pub open spec fn related_seq(s: Seq<Deployment>, sr: Seq<char>) -> Seq<Deployment>
    decreases s.len(),
{
    if s.len() == 0 {
        s
    } else {
        related_seq(s.drop_last(), sr) + if s.last().stateroot@ == sr {
            seq![s.last()]
        } else {
            Seq::empty()
        }
    }
}

/// The subsequence of `s` whose state root is not `sr`, in order.
pub open spec fn unrelated_seq(s: Seq<Deployment>, sr: Seq<char>) -> Seq<Deployment>
    decreases s.len(),
{
    if s.len() == 0 {
        s
    } else {
        unrelated_seq(s.drop_last(), sr) + if s.last().stateroot@ != sr {
            seq![s.last()]
        } else {
            Seq::empty()
        }
    }
}

/// The subsequence of `s` that is not the deployment `b`, in order.
pub open spec fn remove_matching(s: Seq<Deployment>, b: Deployment) -> Seq<Deployment>
    decreases s.len(),
{
    if s.len() == 0 {
        s
    } else {
        remove_matching(s.drop_last(), b) + if !same_deployment(s.last(), b) {
            seq![s.last()]
        } else {
            Seq::empty()
        }
    }
}

/// The subsequence of `s` that is the deployment `b`, in order.
pub open spec fn keep_matching(s: Seq<Deployment>, b: Deployment) -> Seq<Deployment>
    decreases s.len(),
{
    if s.len() == 0 {
        s
    } else {
        keep_matching(s.drop_last(), b) + if same_deployment(s.last(), b) {
            seq![s.last()]
        } else {
            Seq::empty()
        }
    }
}

/// The first index at or after `from` holding a staged deployment, or the
/// length of `s` when there is none.
pub open spec fn first_staged_from(s: Seq<Deployment>, from: int) -> int
    decreases s.len() - from,
{
    if from < s.len() {
        if s[from].is_staged {
            from
        } else {
            first_staged_from(s, from + 1)
        }
    } else {
        from
    }
}

/// The deployments related to the booted one: those of its state root, or
/// all of them when nothing is booted via the supported mechanism.
pub open spec fn related_of(all: Seq<Deployment>, booted: Option<Deployment>) -> Seq<Deployment> {
    match booted {
        None => all,
        Some(b) => related_seq(all, b.stateroot@),
    }
}

/// The deployments of other state roots, in order.
pub open spec fn unrelated_of(all: Seq<Deployment>, booted: Option<Deployment>) -> Seq<
    Deployment,
> {
    match booted {
        None => Seq::empty(),
        Some(b) => unrelated_seq(all, b.stateroot@),
    }
}

/// The staged slot: the first related deployment with the staged flag.
pub open spec fn staged_of(all: Seq<Deployment>, booted: Option<Deployment>) -> Option<
    Deployment,
> {
    let rel = related_of(all, booted);
    let i = first_staged_from(rel, 0);
    if i < rel.len() {
        Some(rel[i])
    } else {
        None
    }
}

/// The related deployments with the staged one taken out.
pub open spec fn destaged_of(all: Seq<Deployment>, booted: Option<Deployment>) -> Seq<
    Deployment,
> {
    let rel = related_of(all, booted);
    let i = first_staged_from(rel, 0);
    if i < rel.len() {
        rel.remove(i)
    } else {
        rel
    }
}

/// The related deployments that remain after the staged one and every
/// occurrence of the booted one are taken out.
pub open spec fn surviving_of(all: Seq<Deployment>, booted: Option<Deployment>) -> Seq<
    Deployment,
> {
    match booted {
        None => destaged_of(all, booted),
        Some(b) => remove_matching(destaged_of(all, booted), b),
    }
}

/// The related deployments that are the booted one itself; they are
/// reported through the booted slot, not through this result.
pub open spec fn booted_dups_of(all: Seq<Deployment>, booted: Option<Deployment>) -> Seq<
    Deployment,
> {
    match booted {
        None => Seq::empty(),
        Some(b) => keep_matching(destaged_of(all, booted), b),
    }
}

/// The rollback slot: the most-preferred surviving related deployment.
pub open spec fn rollback_of(all: Seq<Deployment>, booted: Option<Deployment>) -> Option<
    Deployment,
> {
    let s = surviving_of(all, booted);
    if s.len() > 0 {
        Some(s[0])
    } else {
        None
    }
}

/// The other deployments: the remaining related ones, then those of other
/// state roots.
pub open spec fn others_of(all: Seq<Deployment>, booted: Option<Deployment>) -> Seq<Deployment> {
    let s = surviving_of(all, booted);
    (if s.len() > 0 {
        s.drop_first()
    } else {
        s
    }) + unrelated_of(all, booted)
}

/// Whether the rollback deployment is queued to boot before the booted
/// one: exactly when both exist and the rollback's index is lower.
pub open spec fn rollback_queued_of(
    booted: Option<Deployment>,
    rollback: Option<Deployment>,
) -> bool {
    match (booted, rollback) {
        (Some(b), Some(r)) => r.index < b.index,
        _ => false,
    }
}

/// Whether the rollback deployment is queued to boot before the booted
/// one: exactly when both exist and the rollback's index is lower.
pub fn rollback_queued(booted: Option<&Deployment>, rollback: Option<&Deployment>) -> (r: bool)
    ensures
        r == rollback_queued_of(opt_deref(booted), opt_deref(rollback)),
{
    match (booted, rollback) {
        (Some(b), Some(r)) => r.index < b.index,
        _ => false,
    }
}

/// The first staged deployment's position in `v`, if any is staged.
fn find_staged_index(v: &Vec<Deployment>) -> (r: Option<usize>)
    ensures
        match r {
            Some(i) => i < v@.len() && i == first_staged_from(v@, 0),
            None => first_staged_from(v@, 0) == v@.len(),
        },
{
    let n = v.len();
    let mut i: usize = 0;
    while i < n
        invariant
            n == v@.len(),
            i <= n,
            first_staged_from(v@, 0) == first_staged_from(v@, i as int),
        decreases n - i,
    {
        if v[i].is_staged {
            return Some(i);
        }
        assert(first_staged_from(v@, i as int) == first_staged_from(v@, i + 1));
        i += 1;
    }
    None
}

/// Partition the store's deployment list into the staged, rollback and
/// other slots, relative to the booted deployment.
///
/// Within the booted state root, the first staged-flagged deployment
/// becomes the staged slot, every occurrence of the booted deployment is
/// dropped (the caller already holds it), the most-preferred remainder
/// becomes the rollback slot, and everything else — remaining related
/// deployments first, then those of other state roots — keeps its order in
/// the other slot. With no booted deployment every deployment counts as
/// related.
pub fn classify_deployments(all: Vec<Deployment>, booted: Option<&Deployment>) -> (r: Deployments)
    ensures
        r.staged == staged_of(all@, opt_deref(booted)),
        r.rollback == rollback_of(all@, opt_deref(booted)),
        r.other@ == others_of(all@, opt_deref(booted)),
{
    let ghost orig = all@;
    let ghost b = opt_deref(booted);
    let mut rest = all;
    let mut related: Vec<Deployment> = Vec::new();
    let mut unrelated: Vec<Deployment> = Vec::new();
    while rest.len() > 0
        invariant
            b == opt_deref(booted),
            rest@.len() <= orig.len(),
            rest@ == orig.subrange(orig.len() - rest@.len(), orig.len() as int),
            related@ == related_of(orig.take(orig.len() - rest@.len()), b),
            unrelated@ == unrelated_of(orig.take(orig.len() - rest@.len()), b),
        decreases rest@.len(),
    {
        let ghost k = orig.len() - rest@.len();
        let d = rest.remove(0);
        proof {
            assert(d == orig[k]);
            assert(rest@ =~= orig.subrange(k + 1, orig.len() as int));
            assert(orig.take(k + 1).drop_last() =~= orig.take(k));
            assert(orig.take(k + 1).last() == orig[k]);
        }
        match booted {
            Some(bb) => {
                if str_eq(d.stateroot.as_str(), bb.stateroot.as_str()) {
                    related.push(d);
                } else {
                    unrelated.push(d);
                }
                proof {
                    assert(related@ =~= related_of(orig.take(k + 1), b));
                    assert(unrelated@ =~= unrelated_of(orig.take(k + 1), b));
                }
            },
            None => {
                related.push(d);
                proof {
                    assert(related@ =~= orig.take(k + 1));
                }
            },
        }
    }
    proof {
        assert(orig.take(orig.len() as int) =~= orig);
    }
    let staged = match find_staged_index(&related) {
        Some(i) => Some(related.remove(i)),
        None => None,
    };
    assert(staged == staged_of(orig, b));
    assert(related@ == destaged_of(orig, b));
    let mut survivors: Vec<Deployment> = Vec::new();
    match booted {
        Some(bb) => {
            let ghost derel = related@;
            while related.len() > 0
                invariant
                    b == Some(*bb),
                    related@.len() <= derel.len(),
                    related@ == derel.subrange(
                        derel.len() - related@.len(),
                        derel.len() as int,
                    ),
                    survivors@ == remove_matching(derel.take(derel.len() - related@.len()), *bb),
                decreases related@.len(),
            {
                let ghost k = derel.len() - related@.len();
                let d = related.remove(0);
                proof {
                    assert(d == derel[k]);
                    assert(related@ =~= derel.subrange(k + 1, derel.len() as int));
                    assert(derel.take(k + 1).drop_last() =~= derel.take(k));
                    assert(derel.take(k + 1).last() == derel[k]);
                }
                if !deployment_equal(&d, bb) {
                    survivors.push(d);
                }
                proof {
                    assert(survivors@ =~= remove_matching(derel.take(k + 1), *bb));
                }
            }
            proof {
                assert(derel.take(derel.len() as int) =~= derel);
            }
        },
        None => {
            survivors.append(&mut related);
        },
    }
    assert(survivors@ == surviving_of(orig, b));
    let rollback = if survivors.len() > 0 {
        let first = survivors.remove(0);
        proof {
            assert(survivors@ =~= surviving_of(orig, b).drop_first());
        }
        Some(first)
    } else {
        None
    };
    let mut other = survivors;
    other.append(&mut unrelated);
    assert(other@ == others_of(orig, b));
    Deployments { staged, rollback, other }
}

proof fn lemma_related_partition_multiset(s: Seq<Deployment>, sr: Seq<char>)
    ensures
        s.to_multiset() == related_seq(s, sr).to_multiset().add(
            unrelated_seq(s, sr).to_multiset(),
        ),
    decreases s.len(),
{
    broadcast use vstd::seq_lib::group_to_multiset_ensures;
    broadcast use vstd::multiset::group_multiset_axioms;

    if s.len() == 0 {
        assert(s.to_multiset() =~= related_seq(s, sr).to_multiset().add(
            unrelated_seq(s, sr).to_multiset(),
        ));
    } else {
        let t = s.drop_last();
        lemma_related_partition_multiset(t, sr);
        lemma_multiset_commutative(related_seq(t, sr), if s.last().stateroot@ == sr {
            seq![s.last()]
        } else {
            Seq::empty()
        });
        lemma_multiset_commutative(unrelated_seq(t, sr), if s.last().stateroot@ != sr {
            seq![s.last()]
        } else {
            Seq::empty()
        });
        assert(t.push(s.last()) =~= s);
        assert(seq![s.last()] =~= Seq::empty().push(s.last()));
        assert(s.to_multiset() =~= related_seq(s, sr).to_multiset().add(
            unrelated_seq(s, sr).to_multiset(),
        ));
    }
}

proof fn lemma_matching_partition_multiset(s: Seq<Deployment>, b: Deployment)
    ensures
        s.to_multiset() == remove_matching(s, b).to_multiset().add(
            keep_matching(s, b).to_multiset(),
        ),
    decreases s.len(),
{
    broadcast use vstd::seq_lib::group_to_multiset_ensures;
    broadcast use vstd::multiset::group_multiset_axioms;

    if s.len() == 0 {
        assert(s.to_multiset() =~= remove_matching(s, b).to_multiset().add(
            keep_matching(s, b).to_multiset(),
        ));
    } else {
        let t = s.drop_last();
        lemma_matching_partition_multiset(t, b);
        lemma_multiset_commutative(remove_matching(t, b), if !same_deployment(s.last(), b) {
            seq![s.last()]
        } else {
            Seq::empty()
        });
        lemma_multiset_commutative(keep_matching(t, b), if same_deployment(s.last(), b) {
            seq![s.last()]
        } else {
            Seq::empty()
        });
        assert(t.push(s.last()) =~= s);
        assert(seq![s.last()] =~= Seq::empty().push(s.last()));
        assert(s.to_multiset() =~= remove_matching(s, b).to_multiset().add(
            keep_matching(s, b).to_multiset(),
        ));
    }
}

/// The deployments an optional slot holds: one or none.
pub open spec fn opt_seq(o: Option<Deployment>) -> Seq<Deployment> {
    match o {
        Some(d) => seq![d],
        None => Seq::empty(),
    }
}

/// Classification is complete: every input deployment lands in exactly one
/// place — the staged slot, the booted slot (every occurrence of the
/// booted deployment, which the caller reports separately), the rollback
/// slot, or the other slot. Nothing is duplicated, nothing is lost.
pub proof fn lemma_classification_complete(all: Seq<Deployment>, booted: Option<Deployment>)
    ensures
        all.to_multiset() == opt_seq(staged_of(all, booted)).to_multiset().add(
            booted_dups_of(all, booted).to_multiset(),
        ).add(opt_seq(rollback_of(all, booted)).to_multiset()).add(
            others_of(all, booted).to_multiset(),
        ),
{
    broadcast use vstd::seq_lib::group_to_multiset_ensures;
    broadcast use vstd::multiset::group_multiset_axioms;

    let rel = related_of(all, booted);
    let unrel = unrelated_of(all, booted);
    // The state-root partition.
    match booted {
        None => {
            assert(all.to_multiset() =~= rel.to_multiset().add(unrel.to_multiset()));
        },
        Some(b) => {
            lemma_related_partition_multiset(all, b.stateroot@);
        },
    }
    // Taking the staged deployment out.
    let i = first_staged_from(rel, 0);
    lemma_first_staged_char(rel, 0);
    let destaged = destaged_of(all, booted);
    if i < rel.len() {
        assert(destaged == rel.remove(i));
        assert(rel.contains(rel[i]));
        assert(rel.remove(i).to_multiset() =~= rel.to_multiset().remove(rel[i]));
        assert(rel.to_multiset().contains(rel[i]));
        assert(rel.to_multiset() =~= destaged.to_multiset().insert(rel[i]));
        assert(opt_seq(staged_of(all, booted)) =~= Seq::empty().push(rel[i]));
    } else {
        assert(destaged == rel);
        assert(opt_seq(staged_of(all, booted)).to_multiset() =~= Multiset::empty());
    }
    // Taking the booted deployment's occurrences out.
    let surv = surviving_of(all, booted);
    match booted {
        None => {
            assert(booted_dups_of(all, booted).to_multiset() =~= Multiset::empty());
        },
        Some(b) => {
            lemma_matching_partition_multiset(destaged, b);
        },
    }
    // Taking the rollback out, and joining the rest with the unrelated.
    if surv.len() > 0 {
        assert(surv =~= seq![surv[0]] + surv.drop_first());
        lemma_multiset_commutative(seq![surv[0]], surv.drop_first());
        assert(seq![surv[0]] =~= Seq::empty().push(surv[0]));
        lemma_multiset_commutative(surv.drop_first(), unrel);
    } else {
        lemma_multiset_commutative(surv, unrel);
        assert(opt_seq(rollback_of(all, booted)).to_multiset() =~= Multiset::empty());
    }
    assert(all.to_multiset() =~= opt_seq(staged_of(all, booted)).to_multiset().add(
        booted_dups_of(all, booted).to_multiset(),
    ).add(opt_seq(rollback_of(all, booted)).to_multiset()).add(
        others_of(all, booted).to_multiset(),
    ));
}

proof fn lemma_first_staged_char(s: Seq<Deployment>, from: int)
    requires
        0 <= from <= s.len(),
    ensures
        from <= first_staged_from(s, from) <= s.len(),
        first_staged_from(s, from) < s.len() ==> s[first_staged_from(s, from)].is_staged,
        forall|j: int| from <= j < first_staged_from(s, from) ==> !s[j].is_staged,
    decreases s.len() - from,
{
    if from < s.len() && !s[from].is_staged {
        lemma_first_staged_char(s, from + 1);
    }
}

/// However many input deployments carry the staged flag, at most one
/// deployment is reported as staged and at most one as rollback (the slots
/// are optional values), and the staged slot holds exactly the first
/// staged-flagged related deployment: all before it are unflagged, and
/// when none is flagged the slot is empty.
pub proof fn lemma_at_most_one_staged(all: Seq<Deployment>, booted: Option<Deployment>)
    ensures
        match staged_of(all, booted) {
            Some(d) => {
                let rel = related_of(all, booted);
                let i = first_staged_from(rel, 0);
                &&& i < rel.len()
                &&& d == rel[i]
                &&& d.is_staged
                &&& forall|j: int| 0 <= j < i ==> !rel[j].is_staged
            },
            None => forall|j: int|
                0 <= j < related_of(all, booted).len() ==> !related_of(all, booted)[j].is_staged,
        },
{
    lemma_first_staged_char(related_of(all, booted), 0);
}

} // verus!

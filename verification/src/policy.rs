//! The transition policy: a table from routes to variants. A rule for an
//! ordered pair of routes outranks a rule for a destination, earlier rules
//! outrank later ones, and a pair that no rule names gets the fallback.

use vstd::prelude::*;
use crate::route::RouteId;
use crate::variant::TransitionVariant;

verus! {

/// The variant for going from one given route to another.
#[derive(Clone, Copy, Debug, PartialEq, Eq, Structural)]
pub struct PairRule {
    pub from: RouteId,
    pub to: RouteId,
    pub variant: TransitionVariant,
}

/// The variant for arriving at a given route, wherever from.
#[derive(Clone, Copy, Debug, PartialEq, Eq, Structural)]
pub struct TargetRule {
    pub to: RouteId,
    pub variant: TransitionVariant,
}

/// The variant of the first rule for the pair, if there is one.
pub open spec fn first_pair(pairs: Seq<PairRule>, from: RouteId, to: RouteId) -> Option<
    TransitionVariant,
>
    decreases pairs.len(),
{
    if pairs.len() == 0 {
        None
    } else if pairs[0].from == from && pairs[0].to == to {
        Some(pairs[0].variant)
    } else {
        first_pair(pairs.skip(1), from, to)
    }
}

/// The variant of the first rule for the destination, if there is one.
pub open spec fn first_target(targets: Seq<TargetRule>, to: RouteId) -> Option<TransitionVariant>
    decreases targets.len(),
{
    if targets.len() == 0 {
        None
    } else if targets[0].to == to {
        Some(targets[0].variant)
    } else {
        first_target(targets.skip(1), to)
    }
}

/// The variant that a table gives a pair of routes.
pub open spec fn resolve_in(
    pairs: Seq<PairRule>,
    targets: Seq<TargetRule>,
    fallback: TransitionVariant,
    from: RouteId,
    to: RouteId,
) -> TransitionVariant {
    match first_pair(pairs, from, to) {
        Some(variant) => variant,
        None => match first_target(targets, to) {
            Some(variant) => variant,
            None => fallback,
        },
    }
}

/// A table from routes to variants.
pub struct TransitionPolicy {
    pub pairs: Vec<PairRule>,
    pub targets: Vec<TargetRule>,
    pub fallback: TransitionVariant,
}

impl TransitionPolicy {
    /// The variant that the policy gives a pair of routes.
    pub open spec fn resolution(&self, from: RouteId, to: RouteId) -> TransitionVariant {
        resolve_in(self.pairs@, self.targets@, self.fallback, from, to)
    }

    /// A policy without rules: every transition fades.
    pub fn new() -> (policy: TransitionPolicy)
        ensures
            policy.pairs@ == Seq::<PairRule>::empty(),
            policy.targets@ == Seq::<TargetRule>::empty(),
            policy.fallback == TransitionVariant::Fade,
    {
        TransitionPolicy {
            pairs: Vec::new(),
            targets: Vec::new(),
            fallback: TransitionVariant::Fade,
        }
    }

    /// Changes the variant for the pairs that no rule names.
    pub fn set_fallback(&mut self, fallback: TransitionVariant)
        ensures
            final(self).fallback == fallback,
            final(self).pairs@ == old(self).pairs@,
            final(self).targets@ == old(self).targets@,
    {
        self.fallback = fallback;
    }

    /// Adds a rule for going from `from` to `to`, behind the rules there are.
    pub fn add_pair(&mut self, from: RouteId, to: RouteId, variant: TransitionVariant)
        ensures
            final(self).pairs@ == old(self).pairs@.push(PairRule { from, to, variant }),
            final(self).targets@ == old(self).targets@,
            final(self).fallback == old(self).fallback,
    {
        self.pairs.push(PairRule { from, to, variant });
    }

    /// Adds a rule for going from `from` to `to` and one for the way back,
    /// which gets the reverse of the variant.
    pub fn add_pair_both_ways(&mut self, from: RouteId, to: RouteId, variant: TransitionVariant)
        ensures
            final(self).pairs@ == old(self).pairs@.push(PairRule { from, to, variant }).push(
                PairRule { from: to, to: from, variant: variant.reverse() },
            ),
            final(self).targets@ == old(self).targets@,
            final(self).fallback == old(self).fallback,
    {
        self.pairs.push(PairRule { from, to, variant });
        self.pairs.push(PairRule { from: to, to: from, variant: variant.reversed() });
    }

    /// Adds a rule for arriving at `to`, behind the rules there are.
    pub fn add_target(&mut self, to: RouteId, variant: TransitionVariant)
        ensures
            final(self).targets@ == old(self).targets@.push(TargetRule { to, variant }),
            final(self).pairs@ == old(self).pairs@,
            final(self).fallback == old(self).fallback,
    {
        self.targets.push(TargetRule { to, variant });
    }

    /// The variant for going from `from` to `to`. Every pair has one.
    pub fn resolve(&self, from: RouteId, to: RouteId) -> (variant: TransitionVariant)
        ensures
            variant == self.resolution(from, to),
    {
        let mut i: usize = 0;
        assert(self.pairs@.skip(0) =~= self.pairs@);
        while i < self.pairs.len()
            invariant
                i <= self.pairs.len(),
                first_pair(self.pairs@, from, to) == first_pair(
                    self.pairs@.skip(i as int),
                    from,
                    to,
                ),
            decreases self.pairs.len() - i,
        {
            let rule: PairRule = self.pairs[i];
            proof {
                let rest = self.pairs@.skip(i as int);
                assert(rest[0] == self.pairs@[i as int]);
                assert(rest.skip(1) =~= self.pairs@.skip(i + 1));
            }
            if rule.from == from && rule.to == to {
                return rule.variant;
            }
            i += 1;
        }
        let mut j: usize = 0;
        assert(self.targets@.skip(0) =~= self.targets@);
        while j < self.targets.len()
            invariant
                j <= self.targets.len(),
                first_pair(self.pairs@, from, to) is None,
                first_target(self.targets@, to) == first_target(self.targets@.skip(j as int), to),
            decreases self.targets.len() - j,
        {
            let rule: TargetRule = self.targets[j];
            proof {
                let rest = self.targets@.skip(j as int);
                assert(rest[0] == self.targets@[j as int]);
                assert(rest.skip(1) =~= self.targets@.skip(j + 1));
            }
            if rule.to == to {
                return rule.variant;
            }
            j += 1;
        }
        self.fallback
    }
}

/// Whether a rule is for going from `from` to `to`.
pub open spec fn is_for_pair(rule: PairRule, from: RouteId, to: RouteId) -> bool {
    rule.from == from && rule.to == to
}

/// The first rule for a pair decides: where the table gives a variant, some
/// rule for the pair carries it and no rule before that one is for the pair;
/// where it gives none, no rule is for the pair.
pub proof fn lemma_first_pair(pairs: Seq<PairRule>, from: RouteId, to: RouteId)
    ensures
        match first_pair(pairs, from, to) {
            Some(variant) => exists|i: int|
                {
                    &&& 0 <= i < pairs.len()
                    &&& is_for_pair(#[trigger] pairs[i], from, to)
                    &&& pairs[i].variant == variant
                    &&& forall|k: int| 0 <= k < i ==> !is_for_pair(#[trigger] pairs[k], from, to)
                },
            None => forall|i: int|
                0 <= i < pairs.len() ==> !is_for_pair(#[trigger] pairs[i], from, to),
        },
    decreases pairs.len(),
{
    if pairs.len() > 0 {
        if is_for_pair(pairs[0], from, to) {
            assert(is_for_pair(pairs[0], from, to) && pairs[0].variant == pairs[0].variant);
        } else {
            let rest = pairs.skip(1);
            lemma_first_pair(rest, from, to);
            assert(forall|i: int| 0 <= i < rest.len() ==> rest[i] == pairs[i + 1]);
            match first_pair(rest, from, to) {
                Some(variant) => {
                    let i = choose|i: int|
                        {
                            &&& 0 <= i < rest.len()
                            &&& is_for_pair(#[trigger] rest[i], from, to)
                            &&& rest[i].variant == variant
                            &&& forall|k: int|
                                0 <= k < i ==> !is_for_pair(#[trigger] rest[k], from, to)
                        };
                    assert forall|k: int| 0 <= k < i + 1 implies !is_for_pair(
                        #[trigger] pairs[k],
                        from,
                        to,
                    ) by {
                        if k > 0 {
                            assert(pairs[k] == rest[k - 1]);
                        }
                    }
                    assert(is_for_pair(pairs[i + 1], from, to));
                },
                None => {
                    assert forall|i: int| 0 <= i < pairs.len() implies !is_for_pair(
                        #[trigger] pairs[i],
                        from,
                        to,
                    ) by {
                        if i > 0 {
                            assert(pairs[i] == rest[i - 1]);
                        }
                    }
                },
            }
        }
    }
}

/// The first rule for a destination decides, as for pairs.
pub proof fn lemma_first_target(targets: Seq<TargetRule>, to: RouteId)
    ensures
        match first_target(targets, to) {
            Some(variant) => exists|i: int|
                {
                    &&& 0 <= i < targets.len()
                    &&& (#[trigger] targets[i]).to == to
                    &&& targets[i].variant == variant
                    &&& forall|k: int| 0 <= k < i ==> (#[trigger] targets[k]).to != to
                },
            None => forall|i: int| 0 <= i < targets.len() ==> (#[trigger] targets[i]).to != to,
        },
    decreases targets.len(),
{
    if targets.len() > 0 {
        if targets[0].to == to {
            assert(targets[0].to == to && targets[0].variant == targets[0].variant);
        } else {
            let rest = targets.skip(1);
            lemma_first_target(rest, to);
            assert(forall|i: int| 0 <= i < rest.len() ==> rest[i] == targets[i + 1]);
            match first_target(rest, to) {
                Some(variant) => {
                    let i = choose|i: int|
                        {
                            &&& 0 <= i < rest.len()
                            &&& (#[trigger] rest[i]).to == to
                            &&& rest[i].variant == variant
                            &&& forall|k: int| 0 <= k < i ==> (#[trigger] rest[k]).to != to
                        };
                    assert forall|k: int| 0 <= k < i + 1 implies (#[trigger] targets[k]).to
                        != to by {
                        if k > 0 {
                            assert(targets[k] == rest[k - 1]);
                        }
                    }
                    assert(targets[i + 1].to == to);
                },
                None => {
                    assert forall|i: int| 0 <= i < targets.len() implies (#[trigger] targets[i]).to
                        != to by {
                        if i > 0 {
                            assert(targets[i] == rest[i - 1]);
                        }
                    }
                },
            }
        }
    }
}

/// Every pair of routes has a variant, also a route paired with itself: the
/// one of a rule for the pair, else the one of a rule for the destination,
/// else the fallback. A pair that no rule names gets the fallback.
pub proof fn lemma_resolve_total(
    pairs: Seq<PairRule>,
    targets: Seq<TargetRule>,
    fallback: TransitionVariant,
    from: RouteId,
    to: RouteId,
)
    ensures
        ({
            let variant = resolve_in(pairs, targets, fallback, from, to);
            ||| exists|i: int|
                0 <= i < pairs.len() && is_for_pair(#[trigger] pairs[i], from, to)
                    && pairs[i].variant == variant
            ||| exists|j: int|
                0 <= j < targets.len() && (#[trigger] targets[j]).to == to && targets[j].variant
                    == variant
            ||| variant == fallback
        }),
        (forall|i: int| 0 <= i < pairs.len() ==> !is_for_pair(#[trigger] pairs[i], from, to))
            && (forall|j: int| 0 <= j < targets.len() ==> (#[trigger] targets[j]).to != to)
            ==> resolve_in(pairs, targets, fallback, from, to) == fallback,
        (exists|i: int| 0 <= i < pairs.len() && is_for_pair(#[trigger] pairs[i], from, to))
            ==> first_pair(pairs, from, to) is Some,
{
    lemma_first_pair(pairs, from, to);
    lemma_first_target(targets, to);
}

/// A rule added behind the others decides only the pairs that none of them
/// names.
pub proof fn lemma_first_pair_push(pairs: Seq<PairRule>, rule: PairRule, from: RouteId, to: RouteId)
    ensures
        first_pair(pairs.push(rule), from, to) == (match first_pair(pairs, from, to) {
            Some(variant) => Some(variant),
            None => if is_for_pair(rule, from, to) {
                Some(rule.variant)
            } else {
                None
            },
        }),
    decreases pairs.len(),
{
    let longer = pairs.push(rule);
    if pairs.len() == 0 {
        assert(longer.skip(1).len() == 0);
        assert(longer[0] == rule);
        assert(first_pair(longer.skip(1), from, to) is None);
    } else {
        assert(longer[0] == pairs[0]);
        assert(longer.skip(1) =~= pairs.skip(1).push(rule));
        lemma_first_pair_push(pairs.skip(1), rule, from, to);
    }
}

/// A rule added behind the others decides only the destinations that none of
/// them names.
pub proof fn lemma_first_target_push(targets: Seq<TargetRule>, rule: TargetRule, to: RouteId)
    ensures
        first_target(targets.push(rule), to) == (match first_target(targets, to) {
            Some(variant) => Some(variant),
            None => if rule.to == to {
                Some(rule.variant)
            } else {
                None
            },
        }),
    decreases targets.len(),
{
    let longer = targets.push(rule);
    if targets.len() == 0 {
        assert(longer.skip(1).len() == 0);
        assert(longer[0] == rule);
        assert(first_target(longer.skip(1), to) is None);
    } else {
        assert(longer[0] == targets[0]);
        assert(longer.skip(1) =~= targets.skip(1).push(rule));
        lemma_first_target_push(targets.skip(1), rule, to);
    }
}

/// A pair registered both ways, where no earlier rule names it in either
/// direction, gets the variant on the way there and its reverse on the way
/// back.
pub proof fn lemma_both_ways(
    pairs: Seq<PairRule>,
    targets: Seq<TargetRule>,
    fallback: TransitionVariant,
    from: RouteId,
    to: RouteId,
    variant: TransitionVariant,
)
    requires
        from != to,
        first_pair(pairs, from, to) is None,
        first_pair(pairs, to, from) is None,
    ensures
        ({
            let there = PairRule { from, to, variant };
            let back = PairRule { from: to, to: from, variant: variant.reverse() };
            let table = pairs.push(there).push(back);
            &&& resolve_in(table, targets, fallback, from, to) == variant
            &&& resolve_in(table, targets, fallback, to, from) == variant.reverse()
        }),
{
    let there = PairRule { from, to, variant };
    let back = PairRule { from: to, to: from, variant: variant.reverse() };
    lemma_first_pair_push(pairs, there, from, to);
    lemma_first_pair_push(pairs, there, to, from);
    lemma_first_pair_push(pairs.push(there), back, from, to);
    lemma_first_pair_push(pairs.push(there), back, to, from);
}

} // verus!

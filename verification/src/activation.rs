//! Activation rules: when a visual state of a location or region applies.

use crate::scene::TimeOfDay;
use vstd::prelude::*;

verus! {

/// A rule that makes a visual state active.
#[derive(Debug, Clone, PartialEq, Eq)]
pub enum ActivationRule {
    /// Always active.
    Always,
    /// Active during the given period of the day.
    TimeOfDay { period: TimeOfDay },
    /// A condition in words, judged by a language model.
    Custom { description: String, llm_prompt: Option<String> },
}

/// Whether a rule needs a language model to judge it.
pub open spec fn is_soft(r: ActivationRule) -> bool {
    r is Custom
}

impl ActivationRule {
    /// Whether this rule needs a language model to judge it.
    pub fn is_soft_rule(&self) -> (b: bool)
        ensures
            b == is_soft(*self),
    {
        matches!(self, ActivationRule::Custom { .. })
    }

    /// Whether this rule can be checked without a language model.
    pub fn is_hard_rule(&self) -> (b: bool)
        ensures
            b == !is_soft(*self),
    {
        !self.is_soft_rule()
    }
}

/// How several activation rules combine.
#[derive(Debug, Clone, Copy, PartialEq, Eq, Structural, Hash)]
pub enum ActivationLogic {
    /// Every rule must hold.
    All,
    /// One rule is enough.
    Any,
}

/// The rules that are soft (`soft`) or hard (`!soft`), in order.
pub open spec fn rules_of_kind(rules: Seq<ActivationRule>, soft: bool) -> Seq<ActivationRule>
    decreases rules.len(),
{
    if rules.len() == 0 {
        Seq::empty()
    } else {
        let rest = rules_of_kind(rules.drop_last(), soft);
        if is_soft(rules.last()) == soft {
            rest.push(rules.last())
        } else {
            rest
        }
    }
}

/// Whether some rule is soft.
pub open spec fn has_soft(rules: Seq<ActivationRule>) -> bool {
    exists|i: int| 0 <= i < rules.len() && is_soft(#[trigger] rules[i])
}

/// Whether some rule is soft.
pub fn any_soft_rule(rules: &Vec<ActivationRule>) -> (b: bool)
    ensures
        b == has_soft(rules@),
{
    let mut i: usize = 0;
    while i < rules.len()
        invariant
            i <= rules@.len(),
            forall|j: int| 0 <= j < i ==> !is_soft(#[trigger] rules@[j]),
        decreases rules@.len() - i,
    {
        if rules[i].is_soft_rule() {
            return true;
        }
        i = i + 1;
    }
    false
}

/// The rules of one kind (soft or hard), in order.
pub fn select_rules(rules: &Vec<ActivationRule>, soft: bool) -> (r: Vec<&ActivationRule>)
    ensures
        r@.map_values(|x: &ActivationRule| *x) == rules_of_kind(rules@, soft),
{
    let mut r: Vec<&ActivationRule> = Vec::new();
    let mut i: usize = 0;
    while i < rules.len()
        invariant
            i <= rules@.len(),
            r@.map_values(|x: &ActivationRule| *x) == rules_of_kind(rules@.take(i as int), soft),
        decreases rules@.len() - i,
    {
        let rule = &rules[i];
        let ghost before = r@;
        assert(rules@.take(i + 1).drop_last() =~= rules@.take(i as int));
        if rule.is_soft_rule() == soft {
            r.push(rule);
            assert(r@.map_values(|x: &ActivationRule| *x) =~= before.map_values(
                |x: &ActivationRule| *x,
            ).push(*rule));
        }
        i = i + 1;
    }
    assert(rules@.take(i as int) =~= rules@);
    r
}

/// The hard and the soft rules split the rules between them: there are as
/// many of them together as there are rules.
pub proof fn law_hard_and_soft_rules_partition(rules: Seq<ActivationRule>)
    ensures
        rules_of_kind(rules, true).len() + rules_of_kind(rules, false).len() == rules.len(),
        (rules_of_kind(rules, true).len() > 0) == has_soft(rules),
    decreases rules.len(),
{
    if rules.len() > 0 {
        law_hard_and_soft_rules_partition(rules.drop_last());
        if has_soft(rules.drop_last()) {
            let i = choose|i: int| 0 <= i < rules.drop_last().len() && is_soft(#[trigger] rules.drop_last()[i]);
            assert(rules[i] == rules.drop_last()[i]);
        }
        if has_soft(rules) && !is_soft(rules.last()) {
            let i = choose|i: int| 0 <= i < rules.len() && is_soft(#[trigger] rules[i]);
            assert(rules.drop_last()[i] == rules[i]);
        }
        if is_soft(rules.last()) {
            assert(is_soft(rules[rules.len() - 1]));
        }
    }
}

} // verus!

//! Regular rules: the statements' results, composed under the rule's
//! condition.

use vstd::prelude::*;
use crate::config::{RegularRuleCondition, RegularRuleStatement};
use crate::request::Request;
use crate::statements::{evaluate_statement, statement_result};

verus! {

/// Some result is true.
pub open spec fn any_true(results: Seq<bool>) -> bool {
    exists|i: int| 0 <= i < results.len() && results[i]
}

/// Every result is true.
pub open spec fn all_true(results: Seq<bool>) -> bool {
    forall|i: int| 0 <= i < results.len() ==> results[i]
}

/// Every result is false.
pub open spec fn all_false(results: Seq<bool>) -> bool {
    forall|i: int| 0 <= i < results.len() ==> !results[i]
}

/// Whether a rule matches, given its statements' results. `NoneOf` is the
/// negation of "every statement is false".
pub open spec fn aggregate(condition: RegularRuleCondition, results: Seq<bool>) -> bool {
    match condition {
        RegularRuleCondition::One => any_true(results),
        RegularRuleCondition::All => all_true(results),
        RegularRuleCondition::NoneOf => !all_false(results),
    }
}

/// The results of the statements on a request, in order.
pub open spec fn results_of(statements: Seq<RegularRuleStatement>, request: Request) -> Seq<bool> {
    Seq::new(statements.len(), |i: int| statement_result(statements[i], request))
}

/// Whether a regular rule matches a request.
pub open spec fn rule_matches(
    condition: RegularRuleCondition,
    statements: Seq<RegularRuleStatement>,
    request: Request,
) -> bool {
    aggregate(condition, results_of(statements, request))
}

/// Composes statement results under a condition.
pub fn aggregate_results(condition: &RegularRuleCondition, results: &Vec<bool>) -> (r: bool)
    ensures
        r == aggregate(*condition, results@),
{
    let mut some: bool = false;
    let mut every: bool = true;
    let mut i: usize = 0;
    while i < results.len()
        invariant
            i <= results.len(),
            some == any_true(results@.subrange(0, i as int)),
            every == all_true(results@.subrange(0, i as int)),
        decreases results.len() - i,
    {
        let ghost before = results@.subrange(0, i as int);
        let ghost after = results@.subrange(0, i + 1);
        proof {
            assert(after[i as int] == results[i as int]);
            assert(forall|j: int| 0 <= j < i ==> before[j] == after[j]);
            if any_true(before) {
                let j = choose|j: int| 0 <= j < before.len() && before[j];
                assert(after[j]);
            }
            if any_true(after) && !results[i as int] {
                let j = choose|j: int| 0 <= j < after.len() && after[j];
                assert(before[j]);
            }
        }
        if results[i] {
            some = true;
        } else {
            every = false;
        }
        i += 1;
    }
    proof {
        assert(results@.subrange(0, results.len() as int) =~= results@);
        any_true_is_not_all_false(results@);
    }
    match condition {
        RegularRuleCondition::One => some,
        RegularRuleCondition::All => every,
        RegularRuleCondition::NoneOf => some,
    }
}

/// Evaluates the statements of a regular rule on a request, in order, and
/// composes their results under the rule's condition.
pub fn check_regular_rule_match(
    req: &Request,
    condition: RegularRuleCondition,
    statements: &Vec<RegularRuleStatement>,
) -> (r: bool)
    ensures
        r == rule_matches(condition, statements@, *req),
{
    let mut statement_results: Vec<bool> = Vec::new();
    let mut i: usize = 0;
    while i < statements.len()
        invariant
            i <= statements.len(),
            statement_results.len() == i,
            forall|j: int| 0 <= j < i ==> statement_results[j] == statement_result(statements[j], *req),
        decreases statements.len() - i,
    {
        statement_results.push(evaluate_statement(&statements[i], req));
        i += 1;
    }
    assert(statement_results@ =~= results_of(statements@, *req));
    aggregate_results(&condition, &statement_results)
}

/// Not every result being false is the same as some result being true.
pub proof fn any_true_is_not_all_false(results: Seq<bool>)
    ensures
        any_true(results) == !all_false(results),
{
    if !all_false(results) {
        let i = choose|i: int| 0 <= i < results.len() && !!results[i];
        assert(results[i]);
    }
}

/// What the three conditions mean: `One` holds where some statement does,
/// `All` where every statement does, and `NoneOf` where some statement does.
pub proof fn condition_quantifiers(results: Seq<bool>)
    ensures
        aggregate(RegularRuleCondition::One, results) == any_true(results),
        aggregate(RegularRuleCondition::All, results) == all_true(results),
        aggregate(RegularRuleCondition::NoneOf, results) == any_true(results),
        aggregate(RegularRuleCondition::NoneOf, results) == aggregate(
            RegularRuleCondition::One,
            results,
        ),
{
    any_true_is_not_all_false(results);
}

/// Over no statements, `One` and `NoneOf` do not hold, and `All` does.
pub proof fn conditions_over_nothing()
    ensures
        !aggregate(RegularRuleCondition::One, Seq::<bool>::empty()),
        aggregate(RegularRuleCondition::All, Seq::<bool>::empty()),
        !aggregate(RegularRuleCondition::NoneOf, Seq::<bool>::empty()),
{
}

} // verus!

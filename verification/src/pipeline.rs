//! The request pipeline: the rules of a document walked in order, until one
//! of them decides or the default applies.

use vstd::prelude::*;
use crate::config::{AegisConfig, AegisRule, RateBasedRuleKey, RuleAction};
use crate::regular::{check_regular_rule_match, rule_matches};
use crate::request::Request;

verus! {

/// How the pipeline ends for a request.
#[derive(Clone, Copy, Debug, PartialEq, Eq, Structural)]
pub enum Decision {
    /// The request goes to the upstream.
    Forward,
    /// The request is answered with the block response.
    Reject,
}

/// Where the pipeline stands after a stretch of rules.
#[derive(Clone, Copy, Debug, PartialEq, Eq, Structural)]
pub enum Progress {
    /// The rate-based rule at `index` has to be checked against the counter
    /// store. `counted` rules with the action `Count` matched on the way.
    Pending { index: usize, limit: i64, window: i64, key: RateBasedRuleKey, counted: usize },
    /// The request is decided. `counted` rules with the action `Count`
    /// matched on the way.
    Finished { decision: Decision, counted: usize },
}

/// What a walk over rules comes to: the index at which it ended, its
/// decision, or none where it stopped at a rate-based rule, and the `Count`
/// rules that matched on the way.
pub struct Walked {
    pub index: int,
    pub decision: Option<Decision>,
    pub counted: int,
}

/// What the default action decides: anything but `Allow` rejects.
pub open spec fn default_decision(action: RuleAction) -> Decision {
    match action {
        RuleAction::Allow => Decision::Forward,
        _ => Decision::Reject,
    }
}

/// The progress over the rules `rest`, the first of which stands at index
/// `offset` of its document, with `counted` matches of `Count` rules so far.
/// A matching regular rule decides with `Allow` or `Block` and is counted
/// with `Count`; a rule that does not match is passed; a rate-based rule
/// stops the walk; after the last rule the default decides.
pub open spec fn walk(
    rest: Seq<AegisRule>,
    default_action: RuleAction,
    request: Request,
    offset: int,
    counted: int,
) -> Walked
    decreases rest.len(),
{
    if rest.len() == 0 {
        Walked { index: offset, decision: Some(default_decision(default_action)), counted }
    } else {
        match rest[0] {
            AegisRule::Regular { action, condition, statements } => {
                if rule_matches(condition, statements@, request) {
                    match action {
                        RuleAction::Allow => Walked {
                            index: offset,
                            decision: Some(Decision::Forward),
                            counted,
                        },
                        RuleAction::Block => Walked {
                            index: offset,
                            decision: Some(Decision::Reject),
                            counted,
                        },
                        RuleAction::Count => walk(
                            rest.drop_first(),
                            default_action,
                            request,
                            offset + 1,
                            counted + 1,
                        ),
                    }
                } else {
                    walk(rest.drop_first(), default_action, request, offset + 1, counted)
                }
            },
            AegisRule::RateBased { .. } => Walked { index: offset, decision: None, counted },
        }
    }
}

/// Whether a progress is the one that a walk came to: a decision, or the
/// rate-based rule at which it stopped.
pub open spec fn reports(progress: Progress, rules: Seq<AegisRule>, walked: Walked) -> bool {
    match walked.decision {
        Some(d) => progress == (Progress::Finished {
            decision: d,
            counted: walked.counted as usize,
        }),
        None => 0 <= walked.index < rules.len() && match rules[walked.index] {
            AegisRule::RateBased { limit, evaluation_window_seconds, key } => progress == (
            Progress::Pending {
                index: walked.index as usize,
                limit,
                window: evaluation_window_seconds,
                key,
                counted: walked.counted as usize,
            }),
            _ => false,
        },
    }
}

/// The rules of the document from index `start` on; none where `start` is
/// past the last rule.
pub open spec fn rules_from(rules: Seq<AegisRule>, start: int) -> Seq<AegisRule> {
    if 0 <= start <= rules.len() {
        rules.subrange(start, rules.len() as int)
    } else {
        Seq::empty()
    }
}

fn walk_on(config: &AegisConfig, request: &Request, start: usize, already: usize) -> (r: Progress)
    requires
        start <= config.rules.len(),
        already <= start,
    ensures
        reports(
            r,
            config.rules@,
            walk(
                rules_from(config.rules@, start as int),
                config.default_action,
                *request,
                start as int,
                already as int,
            ),
        ),
{
    let ghost rules = config.rules@;
    let ghost goal = walk(
        rules.subrange(start as int, rules.len() as int),
        config.default_action,
        *request,
        start as int,
        already as int,
    );
    let mut counted: usize = already;
    let mut i: usize = start;
    while i < config.rules.len()
        invariant
            start <= i <= config.rules.len(),
            rules == config.rules@,
            counted <= i,
            goal == walk(
                rules.subrange(start as int, rules.len() as int),
                config.default_action,
                *request,
                start as int,
                already as int,
            ),
            goal == walk(
                rules.subrange(i as int, rules.len() as int),
                config.default_action,
                *request,
                i as int,
                counted as int,
            ),
        decreases config.rules.len() - i,
    {
        proof {
            let rest = rules.subrange(i as int, rules.len() as int);
            assert(rest[0] == rules[i as int]);
            assert(rest.drop_first() =~= rules.subrange(i + 1, rules.len() as int));
        }
        match &config.rules[i] {
            AegisRule::Regular { action, condition, statements } => {
                if check_regular_rule_match(request, *condition, statements) {
                    match action {
                        RuleAction::Allow => {
                            return Progress::Finished { decision: Decision::Forward, counted };
                        },
                        RuleAction::Block => {
                            return Progress::Finished { decision: Decision::Reject, counted };
                        },
                        RuleAction::Count => {
                            counted += 1;
                        },
                    }
                }
            },
            AegisRule::RateBased { limit, evaluation_window_seconds, key } => {
                return Progress::Pending {
                    index: i,
                    limit: *limit,
                    window: *evaluation_window_seconds,
                    key: *key,
                    counted,
                };
            },
        }
        i += 1;
    }
    proof {
        assert(rules.subrange(i as int, rules.len() as int).len() == 0);
    }
    match config.default_action {
        RuleAction::Allow => Progress::Finished { decision: Decision::Forward, counted },
        _ => Progress::Finished { decision: Decision::Reject, counted },
    }
}

/// Walks the rules of the document from index `start` on, up to a decision
/// or to the next rate-based rule. Past the last rule the default decides.
pub fn evaluate_from(config: &AegisConfig, request: &Request, start: usize) -> (r: Progress)
    ensures
        reports(
            r,
            config.rules@,
            walk(
                rules_from(config.rules@, start as int),
                config.default_action,
                *request,
                start as int,
                0,
            ),
        ),
{
    if start <= config.rules.len() {
        walk_on(config, request, start, 0)
    } else {
        match config.default_action {
            RuleAction::Allow => Progress::Finished { decision: Decision::Forward, counted: 0 },
            _ => Progress::Finished { decision: Decision::Reject, counted: 0 },
        }
    }
}

/// Walks the rules of the document from the first one on.
pub fn evaluate(config: &AegisConfig, request: &Request) -> (r: Progress)
    ensures
        reports(
            r,
            config.rules@,
            walk(config.rules@, config.default_action, *request, 0, 0),
        ),
{
    assert(rules_from(config.rules@, 0) =~= config.rules@);
    evaluate_from(config, request, 0)
}

/// Where the pipeline stands once the rate-based rule at `index` has been
/// checked. The rule's `Allow` or `Block` decides; its `Count` is counted,
/// and like no contribution at all it lets the walk go on behind the rule.
pub open spec fn after_rate(
    rules: Seq<AegisRule>,
    default_action: RuleAction,
    request: Request,
    index: int,
    outcome: Option<RuleAction>,
) -> Walked {
    match outcome {
        Some(RuleAction::Allow) => Walked {
            index,
            decision: Some(Decision::Forward),
            counted: 0,
        },
        Some(RuleAction::Block) => Walked { index, decision: Some(Decision::Reject), counted: 0 },
        Some(RuleAction::Count) => walk(
            rules_from(rules, index + 1),
            default_action,
            request,
            index + 1,
            1,
        ),
        None => walk(rules_from(rules, index + 1), default_action, request, index + 1, 0),
    }
}

/// Takes the pipeline up again behind the rate-based rule at `index`, with
/// what the check of that rule came to.
pub fn resume_after_rate(
    config: &AegisConfig,
    request: &Request,
    index: usize,
    outcome: Option<RuleAction>,
) -> (r: Progress)
    ensures
        reports(
            r,
            config.rules@,
            after_rate(config.rules@, config.default_action, *request, index as int, outcome),
        ),
{
    match outcome {
        Some(RuleAction::Allow) => Progress::Finished { decision: Decision::Forward, counted: 0 },
        Some(RuleAction::Block) => Progress::Finished { decision: Decision::Reject, counted: 0 },
        Some(RuleAction::Count) => {
            if index < config.rules.len() {
                walk_on(config, request, index + 1, 1)
            } else {
                match config.default_action {
                    RuleAction::Allow => Progress::Finished {
                        decision: Decision::Forward,
                        counted: 1,
                    },
                    _ => Progress::Finished { decision: Decision::Reject, counted: 1 },
                }
            }
        },
        None => {
            if index < config.rules.len() {
                walk_on(config, request, index + 1, 0)
            } else {
                match config.default_action {
                    RuleAction::Allow => Progress::Finished {
                        decision: Decision::Forward,
                        counted: 0,
                    },
                    _ => Progress::Finished { decision: Decision::Reject, counted: 0 },
                }
            }
        },
    }
}

/// The evaluation of one request: the document and the request it is about,
/// both held for as long as the evaluation lasts, and where the pipeline
/// stands.
#[derive(Clone, Debug)]
pub struct Evaluation {
    pub config: AegisConfig,
    pub request: Request,
    pub progress: Progress,
}

impl Evaluation {
    /// Starts the evaluation of a request against a document: the rules are
    /// walked from the first one on.
    pub fn start(config: AegisConfig, request: Request) -> (e: Evaluation)
        ensures
            e.config == config,
            e.request == request,
            reports(
                e.progress,
                config.rules@,
                walk(config.rules@, config.default_action, request, 0, 0),
            ),
    {
        let progress = evaluate(&config, &request);
        Evaluation { config, request, progress }
    }

    /// Takes the evaluation up again with what the check of the pending
    /// rate-based rule came to. The document and the request stay the ones
    /// that the evaluation started with. An evaluation that is finished
    /// stays as it is.
    pub fn resume(&mut self, outcome: Option<RuleAction>)
        ensures
            final(self).config == old(self).config,
            final(self).request == old(self).request,
            match old(self).progress {
                Progress::Pending { index, .. } => reports(
                    final(self).progress,
                    old(self).config.rules@,
                    after_rate(
                        old(self).config.rules@,
                        old(self).config.default_action,
                        old(self).request,
                        index as int,
                        outcome,
                    ),
                ),
                Progress::Finished { .. } => final(self).progress == old(self).progress,
            },
    {
        match self.progress {
            Progress::Pending { index, .. } => {
                let next = resume_after_rate(&self.config, &self.request, index, outcome);
                self.progress = next;
            },
            Progress::Finished { .. } => {},
        }
    }
}

/// The decision that the pipeline comes to over the rules `rest`, the first
/// of which stands at index `offset` of its document, where `outcome_at(i)`
/// is what the check of the rate-based rule at index `i` comes to.
pub open spec fn decide(
    rest: Seq<AegisRule>,
    default_action: RuleAction,
    request: Request,
    outcome_at: spec_fn(int) -> Option<RuleAction>,
    offset: int,
) -> Decision
    decreases rest.len(),
{
    if rest.len() == 0 {
        default_decision(default_action)
    } else {
        let chosen = match rest[0] {
            AegisRule::Regular { action, condition, statements } => {
                if rule_matches(condition, statements@, request) {
                    Some(action)
                } else {
                    None
                }
            },
            AegisRule::RateBased { .. } => outcome_at(offset),
        };
        match chosen {
            Some(RuleAction::Allow) => Decision::Forward,
            Some(RuleAction::Block) => Decision::Reject,
            _ => decide(rest.drop_first(), default_action, request, outcome_at, offset + 1),
        }
    }
}

/// The regular rules among `rest`, in order.
pub open spec fn regular_only(rest: Seq<AegisRule>) -> Seq<AegisRule>
    decreases rest.len(),
{
    if rest.len() == 0 {
        Seq::empty()
    } else {
        match rest[0] {
            AegisRule::Regular { .. } => seq![rest[0]] + regular_only(rest.drop_first()),
            AegisRule::RateBased { .. } => regular_only(rest.drop_first()),
        }
    }
}

/// No rule of `rest` is rate-based.
pub open spec fn all_regular(rest: Seq<AegisRule>) -> bool {
    forall|i: int| 0 <= i < rest.len() ==> rest[i] is Regular
}

/// A walk that ends in a decision ends in the pipeline's decision; one that
/// stops stands at a rate-based rule, with the pipeline's decision still to
/// be taken from that rule on.
pub proof fn walk_agrees_with_decide(
    rest: Seq<AegisRule>,
    default_action: RuleAction,
    request: Request,
    outcome_at: spec_fn(int) -> Option<RuleAction>,
    offset: int,
    counted: int,
)
    ensures
        ({
            let w = walk(rest, default_action, request, offset, counted);
            match w.decision {
                Some(d) => decide(rest, default_action, request, outcome_at, offset) == d,
                None => offset <= w.index < offset + rest.len() && rest[w.index
                    - offset] is RateBased && decide(
                    rest,
                    default_action,
                    request,
                    outcome_at,
                    offset,
                ) == decide(
                    rest.subrange(w.index - offset, rest.len() as int),
                    default_action,
                    request,
                    outcome_at,
                    w.index,
                ),
            }
        }),
    decreases rest.len(),
{
    if rest.len() > 0 {
        match rest[0] {
            AegisRule::Regular { action, condition, statements } => {
                let passed = !rule_matches(condition, statements@, request) || action
                    == RuleAction::Count;
                if passed {
                    let next = if rule_matches(condition, statements@, request) {
                        counted + 1
                    } else {
                        counted
                    };
                    walk_agrees_with_decide(
                        rest.drop_first(),
                        default_action,
                        request,
                        outcome_at,
                        offset + 1,
                        next,
                    );
                    let w = walk(rest, default_action, request, offset, counted);
                    if w.decision is None {
                        assert(rest.drop_first().subrange(
                            w.index - (offset + 1),
                            rest.drop_first().len() as int,
                        ) =~= rest.subrange(w.index - offset, rest.len() as int));
                    }
                }
            },
            AegisRule::RateBased { .. } => {
                assert(rest.subrange(0, rest.len() as int) =~= rest);
            },
        }
    }
}

/// Over regular rules alone the decision depends neither on the counter
/// store nor on where the rules stand in their document.
pub proof fn regular_rules_ignore_store(
    rest: Seq<AegisRule>,
    default_action: RuleAction,
    request: Request,
    first: spec_fn(int) -> Option<RuleAction>,
    first_offset: int,
    second: spec_fn(int) -> Option<RuleAction>,
    second_offset: int,
)
    requires
        all_regular(rest),
    ensures
        decide(rest, default_action, request, first, first_offset) == decide(
            rest,
            default_action,
            request,
            second,
            second_offset,
        ),
    decreases rest.len(),
{
    if rest.len() > 0 {
        assert(rest[0] is Regular);
        regular_rules_ignore_store(
            rest.drop_first(),
            default_action,
            request,
            first,
            first_offset + 1,
            second,
            second_offset + 1,
        );
    }
}

/// The regular rules among any rules are regular.
pub proof fn regular_only_is_regular(rest: Seq<AegisRule>)
    ensures
        all_regular(regular_only(rest)),
    decreases rest.len(),
{
    if rest.len() > 0 {
        regular_only_is_regular(rest.drop_first());
    }
}

/// While no check of a rate-based rule contributes anything, as when the
/// counter store is down, the pipeline decides as it would over the regular
/// rules alone: every rate-based rule is passed over, and the later rules and
/// the default decide.
pub proof fn store_outage_fails_open(
    rest: Seq<AegisRule>,
    default_action: RuleAction,
    request: Request,
    outcome_at: spec_fn(int) -> Option<RuleAction>,
    offset: int,
)
    requires
        forall|i: int| (#[trigger] outcome_at(i)) is None,
    ensures
        decide(rest, default_action, request, outcome_at, offset) == decide(
            regular_only(rest),
            default_action,
            request,
            outcome_at,
            offset,
        ),
    decreases rest.len(),
{
    if rest.len() > 0 {
        store_outage_fails_open(rest.drop_first(), default_action, request, outcome_at, offset + 1);
        let tail = regular_only(rest.drop_first());
        regular_only_is_regular(rest.drop_first());
        match rest[0] {
            AegisRule::Regular { .. } => {
                let kept = seq![rest[0]] + tail;
                assert(kept[0] == rest[0]);
                assert(kept.drop_first() =~= tail);
            },
            AegisRule::RateBased { .. } => {
                assert(outcome_at(offset) is None);
                regular_rules_ignore_store(
                    tail,
                    default_action,
                    request,
                    outcome_at,
                    offset + 1,
                    outcome_at,
                    offset,
                );
            },
        }
    }
}

/// Over no rules the default decides: `Allow` forwards, and `Block` rejects.
pub proof fn default_decides_without_rules(
    default_action: RuleAction,
    request: Request,
    outcome_at: spec_fn(int) -> Option<RuleAction>,
)
    ensures
        decide(Seq::empty(), default_action, request, outcome_at, 0) == default_decision(
            default_action,
        ),
        default_decision(RuleAction::Allow) == Decision::Forward,
        default_decision(RuleAction::Block) == Decision::Reject,
{
}

/// The increments of the request counters that a stretch of the pipeline
/// asks for.
#[derive(Clone, Copy, Debug, PartialEq, Eq, Structural)]
pub struct Tally {
    /// Requests that were forwarded.
    pub allowed: u64,
    /// Requests that were rejected, and matches of `Count` rules.
    pub blocked: u64,
    /// Checks of rate-based rules that came to an action.
    pub rate_limited: u64,
}

/// What a progress adds to the counters: one blocked request for each match
/// of a `Count` rule, and one allowed or blocked request for the decision. A
/// count stops at the largest number that it can hold.
pub open spec fn progress_tally(progress: Progress) -> Tally {
    match progress {
        Progress::Pending { counted, .. } => Tally {
            allowed: 0,
            blocked: counted as u64,
            rate_limited: 0,
        },
        Progress::Finished { decision: Decision::Forward, counted } => Tally {
            allowed: 1,
            blocked: counted as u64,
            rate_limited: 0,
        },
        Progress::Finished { decision: Decision::Reject, counted } => Tally {
            allowed: 0,
            blocked: if counted < u64::MAX {
                (counted + 1) as u64
            } else {
                u64::MAX
            },
            rate_limited: 0,
        },
    }
}

/// Tells what a progress adds to the counters.
pub fn tally_progress(progress: &Progress) -> (r: Tally)
    ensures
        r == progress_tally(*progress),
{
    match progress {
        Progress::Pending { counted, .. } => Tally {
            allowed: 0,
            blocked: *counted as u64,
            rate_limited: 0,
        },
        Progress::Finished { decision: Decision::Forward, counted } => Tally {
            allowed: 1,
            blocked: *counted as u64,
            rate_limited: 0,
        },
        Progress::Finished { decision: Decision::Reject, counted } => {
            let hits = *counted as u64;
            Tally {
                allowed: 0,
                blocked: if hits < u64::MAX {
                    hits + 1
                } else {
                    u64::MAX
                },
                rate_limited: 0,
            }
        },
    }
}

/// Tells what the check of a rate-based rule adds to the counters: one
/// rate-limited request where the check came to an action.
pub fn tally_rate_outcome(outcome: &Option<RuleAction>) -> (r: Tally)
    ensures
        r.allowed == 0,
        r.blocked == 0,
        r.rate_limited == (if outcome is Some {
            1u64
        } else {
            0u64
        }),
{
    Tally {
        allowed: 0,
        blocked: 0,
        rate_limited: match outcome {
            Some(_) => 1,
            None => 0,
        },
    }
}

} // verus!

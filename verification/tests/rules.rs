use aegis::config::{
    AegisConfig, AegisRule, RateBasedRuleKey, RegularRuleCondition, RegularRuleStatement,
    RegularRuleStatementInspect, RegularRuleStatementMatchType as MatchType, RuleAction,
};
use aegis::pipeline::{
    evaluate, evaluate_from, resume_after_rate, tally_progress, tally_rate_outcome, Decision,
    Evaluation, Progress, Tally,
};
use aegis::regular::{aggregate_results, check_regular_rule_match};
use aegis::request::{Header, Request};

fn get(path: &str, query: Option<&str>, headers: Vec<(&str, &str)>) -> Request {
    Request {
        method: "GET".to_string(),
        path: path.to_string(),
        query: query.map(|q| q.to_string()),
        headers: headers
            .into_iter()
            .map(|(n, v)| Header { name: n.to_string(), value: Some(v.to_string()) })
            .collect(),
        cookies: Some(vec![]),
        peer_ip: Some("1.2.3.4".to_string()),
    }
}

fn path_is(path: &str, negate: bool) -> RegularRuleStatement {
    RegularRuleStatement {
        inspect: RegularRuleStatementInspect::UriPath,
        negate_statement: negate,
        match_type: MatchType::Exact,
        match_string: path.to_string(),
    }
}

fn rule(action: RuleAction, condition: RegularRuleCondition, statements: Vec<RegularRuleStatement>) -> AegisRule {
    AegisRule::Regular { action, condition, statements }
}

fn rate(limit: i64, window: i64) -> AegisRule {
    AegisRule::RateBased { limit, evaluation_window_seconds: window, key: RateBasedRuleKey::SourceIp }
}

fn document(default_action: RuleAction, rules: Vec<AegisRule>) -> AegisConfig {
    let mut config = AegisConfig::new("http://u".to_string());
    config.default_action = default_action;
    config.rules = rules;
    config
}

fn forward(counted: usize) -> Progress {
    Progress::Finished { decision: Decision::Forward, counted }
}

fn reject(counted: usize) -> Progress {
    Progress::Finished { decision: Decision::Reject, counted }
}

#[test]
fn conditions_over_results() {
    let one = RegularRuleCondition::One;
    let all = RegularRuleCondition::All;
    let none = RegularRuleCondition::NoneOf;
    assert!(aggregate_results(&one, &vec![false, true, false]));
    assert!(!aggregate_results(&one, &vec![false, false]));
    assert!(aggregate_results(&all, &vec![true, true]));
    assert!(!aggregate_results(&all, &vec![true, false]));
    assert!(aggregate_results(&none, &vec![false, true]));
    assert!(!aggregate_results(&none, &vec![false, false]));
    assert!(aggregate_results(&none, &vec![true, true]));
}

#[test]
fn conditions_over_no_results() {
    assert!(!aggregate_results(&RegularRuleCondition::One, &vec![]));
    assert!(aggregate_results(&RegularRuleCondition::All, &vec![]));
    assert!(!aggregate_results(&RegularRuleCondition::NoneOf, &vec![]));
}

#[test]
fn none_of_behaves_as_one() {
    let cases: Vec<Vec<bool>> = vec![
        vec![],
        vec![true],
        vec![false],
        vec![true, false],
        vec![false, false, false],
        vec![false, false, true],
    ];
    for results in &cases {
        assert_eq!(
            aggregate_results(&RegularRuleCondition::NoneOf, results),
            aggregate_results(&RegularRuleCondition::One, results)
        );
        assert_eq!(
            aggregate_results(&RegularRuleCondition::One, results),
            results.iter().any(|r| *r)
        );
        assert_eq!(
            aggregate_results(&RegularRuleCondition::All, results),
            results.iter().all(|r| *r)
        );
    }
}

#[test]
fn regular_rule_composes_its_statements() {
    let req = get("/admin", Some("q=1"), vec![]);
    let statements = vec![path_is("/admin", false), path_is("/public", false)];
    assert!(check_regular_rule_match(&req, RegularRuleCondition::One, &statements));
    assert!(!check_regular_rule_match(&req, RegularRuleCondition::All, &statements));
    assert!(check_regular_rule_match(&req, RegularRuleCondition::NoneOf, &statements));
    let negated = vec![path_is("/admin", false), path_is("/public", true)];
    assert!(check_regular_rule_match(&req, RegularRuleCondition::All, &negated));
}

#[test]
fn no_rules_and_default_allow_forwards() {
    let config = document(RuleAction::Allow, vec![]);
    assert_eq!(evaluate(&config, &get("/x", None, vec![])), forward(0));
}

#[test]
fn no_rules_and_default_block_rejects() {
    let config = document(RuleAction::Block, vec![]);
    assert_eq!(evaluate(&config, &get("/x", None, vec![])), reject(0));
}

#[test]
fn default_count_rejects() {
    let config = document(RuleAction::Count, vec![]);
    assert_eq!(evaluate(&config, &get("/x", None, vec![])), reject(0));
}

#[test]
fn exact_path_rule_blocks() {
    let config = document(
        RuleAction::Allow,
        vec![rule(RuleAction::Block, RegularRuleCondition::All, vec![path_is("/admin", false)])],
    );
    assert_eq!(evaluate(&config, &get("/admin", None, vec![])), reject(0));
    assert_eq!(evaluate(&config, &get("/public", None, vec![])), forward(0));
}

#[test]
fn negated_path_rule_blocks_the_rest() {
    let config = document(
        RuleAction::Allow,
        vec![rule(RuleAction::Block, RegularRuleCondition::All, vec![path_is("/admin", true)])],
    );
    assert_eq!(evaluate(&config, &get("/public", None, vec![])), reject(0));
    assert_eq!(evaluate(&config, &get("/admin", None, vec![])), forward(0));
}

#[test]
fn one_of_header_or_parameter_blocks() {
    let statements = vec![
        RegularRuleStatement {
            inspect: RegularRuleStatementInspect::Header { key: "X-Bad".to_string() },
            negate_statement: false,
            match_type: MatchType::Contains,
            match_string: "evil".to_string(),
        },
        RegularRuleStatement {
            inspect: RegularRuleStatementInspect::QueryParameter { key: "q".to_string() },
            negate_statement: false,
            match_type: MatchType::StartsWith,
            match_string: "drop".to_string(),
        },
    ];
    let config = document(
        RuleAction::Allow,
        vec![rule(RuleAction::Block, RegularRuleCondition::One, statements)],
    );
    assert_eq!(evaluate(&config, &get("/", Some("q=dropTable"), vec![])), reject(0));
    assert_eq!(evaluate(&config, &get("/", Some("q=ok"), vec![])), forward(0));
    assert_eq!(
        evaluate(&config, &get("/", Some("q=ok"), vec![("x-bad", "pure evil")])),
        reject(0)
    );
}

#[test]
fn rules_decide_in_their_order() {
    let allow_admin =
        rule(RuleAction::Allow, RegularRuleCondition::All, vec![path_is("/admin", false)]);
    let block_admin =
        rule(RuleAction::Block, RegularRuleCondition::All, vec![path_is("/admin", false)]);
    let req = get("/admin", None, vec![]);
    let first = document(RuleAction::Block, vec![allow_admin.clone(), block_admin.clone()]);
    assert_eq!(evaluate(&first, &req), forward(0));
    let second = document(RuleAction::Allow, vec![block_admin, allow_admin]);
    assert_eq!(evaluate(&second, &req), reject(0));
}

#[test]
fn count_rules_are_counted_and_passed() {
    let count = rule(RuleAction::Count, RegularRuleCondition::All, vec![path_is("/x", false)]);
    let miss = rule(RuleAction::Count, RegularRuleCondition::All, vec![path_is("/y", false)]);
    let block = rule(RuleAction::Block, RegularRuleCondition::All, vec![path_is("/x", false)]);
    let req = get("/x", None, vec![]);
    let config = document(RuleAction::Allow, vec![count.clone(), miss.clone(), count.clone()]);
    assert_eq!(evaluate(&config, &req), forward(2));
    let blocked = document(RuleAction::Allow, vec![count.clone(), block, count]);
    assert_eq!(evaluate(&blocked, &req), reject(1));
}

#[test]
fn walk_stops_at_a_rate_based_rule() {
    let count = rule(RuleAction::Count, RegularRuleCondition::All, vec![path_is("/x", false)]);
    let config = document(RuleAction::Allow, vec![count, rate(2, 60)]);
    assert_eq!(
        evaluate(&config, &get("/x", None, vec![])),
        Progress::Pending {
            index: 1,
            limit: 2,
            window: 60,
            key: RateBasedRuleKey::SourceIp,
            counted: 1
        }
    );
}

#[test]
fn rate_outcome_decides_or_falls_through() {
    let block_x = rule(RuleAction::Block, RegularRuleCondition::All, vec![path_is("/x", false)]);
    let config = document(RuleAction::Allow, vec![rate(2, 60), block_x]);
    let x = get("/x", None, vec![]);
    let y = get("/y", None, vec![]);
    assert_eq!(resume_after_rate(&config, &x, 0, Some(RuleAction::Allow)), forward(0));
    assert_eq!(resume_after_rate(&config, &x, 0, Some(RuleAction::Block)), reject(0));
    assert_eq!(resume_after_rate(&config, &x, 0, None), reject(0));
    assert_eq!(resume_after_rate(&config, &y, 0, None), forward(0));
    assert_eq!(resume_after_rate(&config, &y, 0, Some(RuleAction::Count)), forward(1));
}

#[test]
fn store_outage_leaves_the_regular_rules_in_force() {
    let block_x = rule(RuleAction::Block, RegularRuleCondition::All, vec![path_is("/x", false)]);
    let with_rate =
        document(RuleAction::Allow, vec![rate(1, 1), block_x.clone(), rate(5, 5)]);
    let without = document(RuleAction::Allow, vec![block_x]);
    for path in ["/x", "/y"] {
        let req = get(path, None, vec![]);
        let mut progress = evaluate(&with_rate, &req);
        let mut rounds = 0;
        while let Progress::Pending { index, .. } = progress {
            progress = resume_after_rate(&with_rate, &req, index, None);
            rounds += 1;
            assert!(rounds <= 2);
        }
        assert_eq!(progress, evaluate(&without, &req));
    }
}

#[test]
fn walk_from_behind_the_last_rule_takes_the_default() {
    let block_x = rule(RuleAction::Block, RegularRuleCondition::All, vec![path_is("/x", false)]);
    let config = document(RuleAction::Allow, vec![block_x]);
    let x = get("/x", None, vec![]);
    assert_eq!(evaluate_from(&config, &x, 0), reject(0));
    assert_eq!(evaluate_from(&config, &x, 1), forward(0));
    assert_eq!(evaluate_from(&config, &x, 7), forward(0));
    assert_eq!(resume_after_rate(&config, &x, 9, None), forward(0));
}

#[test]
fn same_document_and_request_give_the_same_decision() {
    let block_x = rule(RuleAction::Block, RegularRuleCondition::All, vec![path_is("/x", false)]);
    let config = document(RuleAction::Allow, vec![block_x]);
    let req = get("/x", Some("a=1"), vec![("host", "u")]);
    assert_eq!(evaluate(&config, &req), evaluate(&config.clone(), &req.clone()));
}

#[test]
fn counters_follow_the_progress() {
    assert_eq!(tally_progress(&forward(0)), Tally { allowed: 1, blocked: 0, rate_limited: 0 });
    assert_eq!(tally_progress(&forward(3)), Tally { allowed: 1, blocked: 3, rate_limited: 0 });
    assert_eq!(tally_progress(&reject(0)), Tally { allowed: 0, blocked: 1, rate_limited: 0 });
    assert_eq!(tally_progress(&reject(2)), Tally { allowed: 0, blocked: 3, rate_limited: 0 });
    let pending = Progress::Pending {
        index: 4,
        limit: 1,
        window: 1,
        key: RateBasedRuleKey::SourceIp,
        counted: 2,
    };
    assert_eq!(tally_progress(&pending), Tally { allowed: 0, blocked: 2, rate_limited: 0 });
}

#[test]
fn counters_follow_the_rate_outcome() {
    let one = Tally { allowed: 0, blocked: 0, rate_limited: 1 };
    let nothing = Tally { allowed: 0, blocked: 0, rate_limited: 0 };
    assert_eq!(tally_rate_outcome(&Some(RuleAction::Allow)), one);
    assert_eq!(tally_rate_outcome(&Some(RuleAction::Block)), one);
    assert_eq!(tally_rate_outcome(&None), nothing);
}

#[test]
fn evaluation_keeps_its_document_while_the_live_one_changes() {
    let block_x = rule(RuleAction::Block, RegularRuleCondition::All, vec![path_is("/x", false)]);
    let mut live = document(RuleAction::Allow, vec![rate(2, 60), block_x]);
    let mut evaluation = Evaluation::start(live.clone(), get("/x", None, vec![]));
    assert!(matches!(evaluation.progress, Progress::Pending { index: 0, .. }));

    live.rules = vec![];
    live.default_action = RuleAction::Allow;

    evaluation.resume(None);
    assert_eq!(evaluation.progress, reject(0));
    assert_eq!(evaluation.config.rules.len(), 2);
    assert_eq!(evaluation.request.path, "/x");
    assert_eq!(evaluate(&live, &get("/x", None, vec![])), forward(0));

    evaluation.resume(Some(RuleAction::Allow));
    assert_eq!(evaluation.progress, reject(0));
}

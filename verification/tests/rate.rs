use std::collections::HashMap;

use aegis::config::{RateBasedRuleKey, RuleAction};
use aegis::rate::{
    begin_rate_check, continue_rate_check, RateCheck, RateStep, StoreCommand, StoreReply,
};

fn answer(store: &mut HashMap<String, i64>, command: &StoreCommand) -> StoreReply {
    match command {
        StoreCommand::SetNx { key, value } => {
            if store.contains_key(key) {
                StoreReply::Flag(false)
            } else {
                store.insert(key.clone(), *value);
                StoreReply::Flag(true)
            }
        }
        StoreCommand::Expire { key, .. } => StoreReply::Flag(store.contains_key(key)),
        StoreCommand::Decr { key, delta } => {
            let entry = store.entry(key.clone()).or_insert(0);
            *entry -= *delta;
            StoreReply::Number(*entry)
        }
    }
}

fn serve(store: &mut HashMap<String, i64>, ip: &str, limit: i64, window: i64) -> Option<RuleAction> {
    let mut step =
        begin_rate_check(&Some(ip.to_string()), true, limit, window, RateBasedRuleKey::SourceIp);
    loop {
        match step {
            RateStep::Done(action) => return action,
            RateStep::Ask { command, then } => {
                let reply = answer(store, &command);
                step = continue_rate_check(then, reply);
            }
        }
    }
}

#[test]
fn check_begins_with_the_counter_s_creation() {
    let step = begin_rate_check(&Some("1.2.3.4".to_string()), true, 2, 60, RateBasedRuleKey::SourceIp);
    assert_eq!(
        step,
        RateStep::Ask {
            command: StoreCommand::SetNx { key: "1.2.3.4".to_string(), value: 2 },
            then: RateCheck::Priming { key: "1.2.3.4".to_string(), window: 60 },
        }
    );
}

#[test]
fn check_without_peer_or_store_contributes_nothing() {
    assert_eq!(
        begin_rate_check(&None, true, 2, 60, RateBasedRuleKey::SourceIp),
        RateStep::Done(None)
    );
    assert_eq!(
        begin_rate_check(&Some("1.2.3.4".to_string()), false, 2, 60, RateBasedRuleKey::SourceIp),
        RateStep::Done(None)
    );
}

#[test]
fn created_counter_gets_its_expiry() {
    let priming = RateCheck::Priming { key: "k".to_string(), window: 60 };
    assert_eq!(
        continue_rate_check(priming, StoreReply::Flag(true)),
        RateStep::Ask {
            command: StoreCommand::Expire { key: "k".to_string(), seconds: 60 },
            then: RateCheck::Expiring,
        }
    );
    assert_eq!(
        continue_rate_check(RateCheck::Expiring, StoreReply::Flag(true)),
        RateStep::Done(Some(RuleAction::Allow))
    );
    assert_eq!(
        continue_rate_check(RateCheck::Expiring, StoreReply::Flag(false)),
        RateStep::Done(None)
    );
}

#[test]
fn existing_counter_is_lowered_by_one() {
    let priming = RateCheck::Priming { key: "k".to_string(), window: 60 };
    assert_eq!(
        continue_rate_check(priming, StoreReply::Flag(false)),
        RateStep::Ask {
            command: StoreCommand::Decr { key: "k".to_string(), delta: 1 },
            then: RateCheck::Counting,
        }
    );
    assert_eq!(
        continue_rate_check(RateCheck::Counting, StoreReply::Number(1)),
        RateStep::Done(Some(RuleAction::Allow))
    );
    assert_eq!(
        continue_rate_check(RateCheck::Counting, StoreReply::Number(0)),
        RateStep::Done(Some(RuleAction::Block))
    );
    assert_eq!(
        continue_rate_check(RateCheck::Counting, StoreReply::Number(-3)),
        RateStep::Done(Some(RuleAction::Block))
    );
}

#[test]
fn store_failure_ends_the_check_without_contribution() {
    let priming = RateCheck::Priming { key: "k".to_string(), window: 60 };
    assert_eq!(continue_rate_check(priming, StoreReply::Failed), RateStep::Done(None));
    assert_eq!(continue_rate_check(RateCheck::Expiring, StoreReply::Failed), RateStep::Done(None));
    assert_eq!(continue_rate_check(RateCheck::Counting, StoreReply::Failed), RateStep::Done(None));
}

#[test]
fn answer_of_the_wrong_kind_ends_the_check_without_contribution() {
    let priming = RateCheck::Priming { key: "k".to_string(), window: 60 };
    assert_eq!(continue_rate_check(priming, StoreReply::Number(1)), RateStep::Done(None));
    assert_eq!(
        continue_rate_check(RateCheck::Expiring, StoreReply::Number(1)),
        RateStep::Done(None)
    );
    assert_eq!(
        continue_rate_check(RateCheck::Counting, StoreReply::Flag(true)),
        RateStep::Done(None)
    );
}

#[test]
fn limit_of_two_allows_two_and_blocks_the_third() {
    let mut store = HashMap::new();
    assert_eq!(serve(&mut store, "1.2.3.4", 2, 60), Some(RuleAction::Allow));
    assert_eq!(serve(&mut store, "1.2.3.4", 2, 60), Some(RuleAction::Allow));
    assert_eq!(serve(&mut store, "1.2.3.4", 2, 60), Some(RuleAction::Block));
    assert_eq!(serve(&mut store, "5.6.7.8", 2, 60), Some(RuleAction::Allow));
    assert_eq!(serve(&mut store, "1.2.3.4", 2, 60), Some(RuleAction::Block));
}

#[test]
fn exactly_the_first_limit_requests_are_allowed() {
    for limit in 1..6i64 {
        let mut store = HashMap::new();
        for n in 0..10i64 {
            let expected = if n < limit { RuleAction::Allow } else { RuleAction::Block };
            assert_eq!(serve(&mut store, "k", limit, 30), Some(expected));
        }
    }
}

#[test]
fn expired_counter_is_created_anew() {
    let mut store = HashMap::new();
    assert_eq!(serve(&mut store, "k", 1, 60), Some(RuleAction::Allow));
    assert_eq!(serve(&mut store, "k", 1, 60), Some(RuleAction::Block));
    store.remove("k");
    assert_eq!(serve(&mut store, "k", 1, 60), Some(RuleAction::Allow));
    assert_eq!(store.get("k"), Some(&1));
    assert_eq!(serve(&mut store, "k", 1, 60), Some(RuleAction::Block));
}

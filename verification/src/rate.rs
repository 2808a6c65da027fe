//! Rate-based rules: the exchange with the counter store, one command at a
//! time, and what the exchange comes to against a store that keeps its
//! counters as the protocol expects.

use vstd::prelude::*;
use crate::config::{RateBasedRuleKey, RuleAction};

verus! {

/// A command for the counter store.
#[derive(Clone, Debug, PartialEq, Eq)]
pub enum StoreCommand {
    /// Set the key to the value unless the key exists.
    SetNx { key: String, value: i64 },
    /// Let the key expire after the given number of seconds.
    Expire { key: String, seconds: i64 },
    /// Lower the key's value by `delta`.
    Decr { key: String, delta: i64 },
}

/// The mathematical value of a `StoreCommand`.
pub enum CommandModel {
    SetNx { key: Seq<char>, value: i64 },
    Expire { key: Seq<char>, seconds: i64 },
    Decr { key: Seq<char>, delta: i64 },
}

impl View for StoreCommand {
    type V = CommandModel;

    open spec fn view(&self) -> CommandModel {
        match self {
            StoreCommand::SetNx { key, value } => CommandModel::SetNx { key: key@, value: *value },
            StoreCommand::Expire { key, seconds } => CommandModel::Expire {
                key: key@,
                seconds: *seconds,
            },
            StoreCommand::Decr { key, delta } => CommandModel::Decr { key: key@, delta: *delta },
        }
    }
}

/// What the counter store answered to a command.
#[derive(Clone, Copy, Debug, PartialEq, Eq, Structural)]
pub enum StoreReply {
    /// The answer of a command that reports whether it took effect.
    Flag(bool),
    /// The answer of a command that reports a counter's new value.
    Number(i64),
    /// The command failed, or the store could not be reached.
    Failed,
}

/// Where the check of a rate-based rule stands while a command is out.
#[derive(Clone, Debug, PartialEq, Eq)]
pub enum RateCheck {
    /// The counter's creation was asked for.
    Priming { key: String, window: i64 },
    /// The counter was created, and its expiry was asked for.
    Expiring,
    /// The counter existed, and its decrement was asked for.
    Counting,
}

/// The mathematical value of a `RateCheck`.
pub enum CheckModel {
    Priming { key: Seq<char>, window: i64 },
    Expiring,
    Counting,
}

impl View for RateCheck {
    type V = CheckModel;

    open spec fn view(&self) -> CheckModel {
        match self {
            RateCheck::Priming { key, window } => CheckModel::Priming { key: key@, window: *window },
            RateCheck::Expiring => CheckModel::Expiring,
            RateCheck::Counting => CheckModel::Counting,
        }
    }
}

/// What the check of a rate-based rule does next.
#[derive(Clone, Debug, PartialEq, Eq)]
pub enum RateStep {
    /// Send the command, and come back with the answer.
    Ask { command: StoreCommand, then: RateCheck },
    /// The check is over: the rule's action, or nothing where the rule does
    /// not contribute to the decision.
    Done(Option<RuleAction>),
}

/// The mathematical value of a `RateStep`.
pub enum StepModel {
    Ask { command: CommandModel, then: CheckModel },
    Done(Option<RuleAction>),
}

impl View for RateStep {
    type V = StepModel;

    open spec fn view(&self) -> StepModel {
        match self {
            RateStep::Ask { command, then } => StepModel::Ask { command: command@, then: then@ },
            RateStep::Done(action) => StepModel::Done(*action),
        }
    }
}

/// The first step of a check. Without a peer address or without a store the
/// rule contributes nothing; else the counter's creation is asked for, with
/// the limit as its value.
pub open spec fn first_step(
    peer: Option<Seq<char>>,
    store_configured: bool,
    limit: i64,
    window: i64,
) -> StepModel {
    match peer {
        Some(ip) => if store_configured {
            StepModel::Ask {
                command: CommandModel::SetNx { key: ip, value: limit },
                then: CheckModel::Priming { key: ip, window },
            }
        } else {
            StepModel::Done(None)
        },
        None => StepModel::Done(None),
    }
}

/// The step that follows an answer. A created counter gets its expiry, and
/// the request is allowed once that is set. An existing counter is lowered by
/// one, and the request is blocked where nothing remains. A failure, or an
/// answer of the wrong kind, ends the check without a contribution.
pub open spec fn next_step(state: CheckModel, reply: StoreReply) -> StepModel {
    match state {
        CheckModel::Priming { key, window } => match reply {
            StoreReply::Flag(true) => StepModel::Ask {
                command: CommandModel::Expire { key, seconds: window },
                then: CheckModel::Expiring,
            },
            StoreReply::Flag(false) => StepModel::Ask {
                command: CommandModel::Decr { key, delta: 1 },
                then: CheckModel::Counting,
            },
            _ => StepModel::Done(None),
        },
        CheckModel::Expiring => match reply {
            StoreReply::Flag(true) => StepModel::Done(Some(RuleAction::Allow)),
            _ => StepModel::Done(None),
        },
        CheckModel::Counting => match reply {
            StoreReply::Number(remaining) => StepModel::Done(
                Some(
                    if remaining <= 0 {
                        RuleAction::Block
                    } else {
                        RuleAction::Allow
                    },
                ),
            ),
            _ => StepModel::Done(None),
        },
    }
}

/// The peer address as a text, where there is one.
pub open spec fn peer_model(peer_ip: Option<String>) -> Option<Seq<char>> {
    match peer_ip {
        Some(ip) => Some(ip@),
        None => None,
    }
}

/// Starts the check of a rate-based rule.
pub fn begin_rate_check(
    peer_ip: &Option<String>,
    store_configured: bool,
    limit: i64,
    evaluation_window_seconds: i64,
    key: RateBasedRuleKey,
) -> (r: RateStep)
    ensures
        r@ == first_step(peer_model(*peer_ip), store_configured, limit, evaluation_window_seconds),
{
    match key {
        RateBasedRuleKey::SourceIp => match peer_ip {
            Some(ip) => {
                if store_configured {
                    RateStep::Ask {
                        command: StoreCommand::SetNx { key: ip.clone(), value: limit },
                        then: RateCheck::Priming {
                            key: ip.clone(),
                            window: evaluation_window_seconds,
                        },
                    }
                } else {
                    RateStep::Done(None)
                }
            },
            None => RateStep::Done(None),
        },
    }
}

/// Continues the check with the store's answer to the command that was out.
pub fn continue_rate_check(state: RateCheck, reply: StoreReply) -> (r: RateStep)
    ensures
        r@ == next_step(state@, reply),
{
    match state {
        RateCheck::Priming { key, window } => match reply {
            StoreReply::Flag(true) => RateStep::Ask {
                command: StoreCommand::Expire { key, seconds: window },
                then: RateCheck::Expiring,
            },
            StoreReply::Flag(false) => RateStep::Ask {
                command: StoreCommand::Decr { key, delta: 1 },
                then: RateCheck::Counting,
            },
            _ => RateStep::Done(None),
        },
        RateCheck::Expiring => match reply {
            StoreReply::Flag(true) => RateStep::Done(Some(RuleAction::Allow)),
            _ => RateStep::Done(None),
        },
        RateCheck::Counting => match reply {
            StoreReply::Number(remaining) => {
                if remaining <= 0 {
                    RateStep::Done(Some(RuleAction::Block))
                } else {
                    RateStep::Done(Some(RuleAction::Allow))
                }
            },
            _ => RateStep::Done(None),
        },
    }
}

/// The live counters of a store: each key that exists, with its value.
pub type Counters = Map<Seq<char>, int>;

/// How a store that keeps its counters as the protocol expects answers a
/// command, and what it holds afterwards. A key is created only where it
/// does not exist; an expiry of less than a second removes the key; a missing
/// key counts down from zero; a value out of the 64-bit range fails.
pub open spec fn answer(store: Counters, command: CommandModel) -> (Counters, StoreReply) {
    match command {
        CommandModel::SetNx { key, value } => if store.dom().contains(key) {
            (store, StoreReply::Flag(false))
        } else {
            (store.insert(key, value as int), StoreReply::Flag(true))
        },
        CommandModel::Expire { key, seconds } => if store.dom().contains(key) {
            (
                if seconds <= 0 {
                    store.remove(key)
                } else {
                    store
                },
                StoreReply::Flag(true),
            )
        } else {
            (store, StoreReply::Flag(false))
        },
        CommandModel::Decr { key, delta } => {
            let current = if store.dom().contains(key) {
                store[key]
            } else {
                0
            };
            let lowered = current - delta;
            if i64::MIN <= lowered <= i64::MAX {
                (store.insert(key, lowered), StoreReply::Number(lowered as i64))
            } else {
                (store, StoreReply::Failed)
            }
        },
    }
}

/// Carries a check through against such a store: the store afterwards, and
/// what the rule contributes.
pub open spec fn settle(store: Counters, step: StepModel, rounds: nat) -> (
    Counters,
    Option<RuleAction>,
)
    decreases rounds,
{
    match step {
        StepModel::Done(action) => (store, action),
        StepModel::Ask { command, then } => if rounds == 0 {
            (store, None)
        } else {
            let (held, reply) = answer(store, command);
            settle(held, next_step(then, reply), (rounds - 1) as nat)
        },
    }
}

/// One request from `ip` checked against such a store.
pub open spec fn served(store: Counters, ip: Seq<char>, limit: i64, window: i64) -> (
    Counters,
    Option<RuleAction>,
) {
    settle(store, first_step(Some(ip), true, limit, window), 2)
}

/// The store after `n` requests from `ip`, one after the other, with no
/// expiry in between.
pub open spec fn after_requests(
    store: Counters,
    ip: Seq<char>,
    limit: i64,
    window: i64,
    n: nat,
) -> Counters
    decreases n,
{
    if n == 0 {
        store
    } else {
        served(after_requests(store, ip, limit, window, (n - 1) as nat), ip, limit, window).0
    }
}

/// The first request for a key creates its counter with the limit as value,
/// and is allowed.
pub proof fn first_request_primes(store: Counters, ip: Seq<char>, limit: i64, window: i64)
    requires
        !store.dom().contains(ip),
        window >= 1,
    ensures
        served(store, ip, limit, window) == (
            store.insert(ip, limit as int),
            Some(RuleAction::Allow),
        ),
{
    reveal_with_fuel(settle, 3);
}

/// A request for a key whose counter exists lowers it by one, and is blocked
/// where nothing remains.
pub proof fn later_request_counts_down(store: Counters, ip: Seq<char>, limit: i64, window: i64)
    requires
        store.dom().contains(ip),
        i64::MIN < store[ip] <= i64::MAX,
    ensures
        served(store, ip, limit, window) == (
            store.insert(ip, store[ip] - 1),
            Some(
                if store[ip] - 1 <= 0 {
                    RuleAction::Block
                } else {
                    RuleAction::Allow
                },
            ),
        ),
{
    reveal_with_fuel(settle, 3);
}

/// After `n >= 1` requests for a key that had no counter, the counter stands
/// at the limit less `n - 1`.
pub proof fn counter_after_requests(
    store: Counters,
    ip: Seq<char>,
    limit: i64,
    window: i64,
    n: nat,
)
    requires
        !store.dom().contains(ip),
        window >= 1,
        n >= 1,
        limit - (n - 1) >= i64::MIN,
    ensures
        after_requests(store, ip, limit, window, n).dom().contains(ip),
        after_requests(store, ip, limit, window, n)[ip] == limit - (n - 1),
    decreases n,
{
    if n == 1 {
        assert(after_requests(store, ip, limit, window, 0) == store);
        first_request_primes(store, ip, limit, window);
    } else {
        let before = after_requests(store, ip, limit, window, (n - 1) as nat);
        counter_after_requests(store, ip, limit, window, (n - 1) as nat);
        later_request_counts_down(before, ip, limit, window);
    }
}

/// For a key without a counter and a limit of at least one, of the requests
/// that follow one another before the counter expires exactly the first
/// `limit` are allowed, and every later one is blocked. `n` counts the
/// requests that came before the one in question.
pub proof fn rate_limit_holds(store: Counters, ip: Seq<char>, limit: i64, window: i64, n: nat)
    requires
        !store.dom().contains(ip),
        limit >= 1,
        window >= 1,
        limit - n >= i64::MIN,
    ensures
        served(after_requests(store, ip, limit, window, n), ip, limit, window).1 == Some(
            if n < limit {
                RuleAction::Allow
            } else {
                RuleAction::Block
            },
        ),
{
    if n == 0 {
        first_request_primes(store, ip, limit, window);
    } else {
        counter_after_requests(store, ip, limit, window, n);
        later_request_counts_down(
            after_requests(store, ip, limit, window, n),
            ip,
            limit,
            window,
        );
    }
}

/// Once a key's counter has expired, the next request for the key creates it
/// anew with the full limit, whatever the counter held before.
pub proof fn expiry_restarts_window(store: Counters, ip: Seq<char>, limit: i64, window: i64)
    requires
        window >= 1,
    ensures
        served(store.remove(ip), ip, limit, window) == (
            store.remove(ip).insert(ip, limit as int),
            Some(RuleAction::Allow),
        ),
{
    first_request_primes(store.remove(ip), ip, limit, window);
}

/// A request for one key leaves the counters of every other key as they
/// were.
pub proof fn other_keys_untouched(
    store: Counters,
    ip: Seq<char>,
    other: Seq<char>,
    limit: i64,
    window: i64,
)
    requires
        other != ip,
    ensures
        served(store, ip, limit, window).0.dom().contains(other) == store.dom().contains(other),
        store.dom().contains(other) ==> served(store, ip, limit, window).0[other] == store[other],
{
    reveal_with_fuel(settle, 3);
}

/// While the store fails, a check ends without a contribution, at whichever
/// command the failure comes.
pub proof fn failure_contributes_nothing(state: CheckModel)
    ensures
        next_step(state, StoreReply::Failed) == StepModel::Done(None),
{
}

} // verus!

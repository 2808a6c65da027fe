//! The policy document: server settings, the upstream, the counter store,
//! metrics, the default action and the ordered rules.

use vstd::prelude::*;
use vstd::std_specs::hash::DefaultHasherAdditionalSpecFns;
use vstd::string::StringSliceAdditionalSpecFns;
use core::hash::Hasher;
use std::collections::hash_map::DefaultHasher;
use crate::locator::{parse_url, url_parses};
use crate::text::{parse_port, parsed_port};

verus! {

/// The port the server listens on when nothing else names one.
pub const DEFAULT_PORT: u16 = 4000;

/// What a rule, or the document's default, does with a request.
#[derive(Clone, Copy, Debug, PartialEq, Eq, Structural)]
pub enum RuleAction {
    Allow,
    Block,
    Count,
}

impl RuleAction {
    /// The opposite action: `Allow` and `Block` swap, `Count` stays.
    pub fn negate(&self) -> (r: Self)
        ensures
            r == self.negated(),
    {
        match self {
            RuleAction::Allow => RuleAction::Block,
            RuleAction::Block => RuleAction::Allow,
            RuleAction::Count => RuleAction::Count,
        }
    }

    /// The opposite of an action.
    pub open spec fn negated(self) -> Self {
        match self {
            RuleAction::Allow => RuleAction::Block,
            RuleAction::Block => RuleAction::Allow,
            RuleAction::Count => RuleAction::Count,
        }
    }
}

/// Negating an action twice gives the action back.
pub proof fn negate_is_involution(a: RuleAction)
    ensures
        a.negated().negated() == a,
{
}

/// How much the server logs.
#[derive(Clone, Copy, Debug, PartialEq, Eq, Structural)]
pub enum AegisServerLogLevel {
    INFO,
    ERROR,
    WARN,
    DEBUG,
    TRACE,
}

/// Where the server listens, and how much it logs.
#[derive(Clone, Debug, PartialEq)]
pub struct AegisServer {
    pub address: String,
    pub port: u16,
    pub log_level: AegisServerLogLevel,
}

/// The counter store that rate-based rules share.
#[derive(Clone, Debug, PartialEq)]
pub struct RedisConfig {
    pub enabled: bool,
    pub url: String,
}

/// Where metrics are exported to, and how often, in seconds.
#[derive(Clone, Debug, PartialEq)]
pub struct MetricsConfig {
    pub enabled: bool,
    pub export_endpoint: String,
    pub export_interval: u64,
}

/// The predicate that a statement tests what it read with.
#[derive(Clone, Copy, Debug, PartialEq, Eq, Structural)]
pub enum RegularRuleStatementMatchType {
    StartsWith,
    EndsWith,
    Contains,
    Exact,
    Regex,
}

/// What is read of headers or cookies: names and values, names, or values.
#[derive(Clone, Copy, Debug, PartialEq, Eq, Structural)]
pub enum RegularRuleStatementInspectTypeScope {
    All,
    Keys,
    Values,
}

/// Which headers or cookies are read: all, the one of a name, or all but the
/// one of a name. Names are compared without regard to case.
#[derive(Clone, Debug)]
pub enum RegularRuleStatementInspectTypeContentFilter {
    All,
    Include { key: String },
    Exclude { key: String },
}

/// Which of the addresses that a header lists is read.
#[derive(Clone, Copy, Debug, PartialEq, Eq, Structural)]
pub enum RegularRuleStatementIpSetSourcePosition {
    First,
    Last,
    Any,
}

/// Where a client address is read from: the transport peer, or a header that
/// lists addresses, separated by commas.
#[derive(Clone, Debug)]
pub enum RegularRuleStatementIpSetSource {
    SourceIp,
    Header { name: String, position: RegularRuleStatementIpSetSourcePosition },
}

/// The part of a request that a statement reads.
#[derive(Clone, Debug)]
pub enum RegularRuleStatementInspect {
    Header { key: String },
    QueryParameter { key: String },
    HttpMethod,
    UriPath,
    QueryString,
    AllHeaders {
        scope: RegularRuleStatementInspectTypeScope,
        content_filter: RegularRuleStatementInspectTypeContentFilter,
    },
    Cookies {
        scope: RegularRuleStatementInspectTypeScope,
        content_filter: RegularRuleStatementInspectTypeContentFilter,
    },
    IpSet { source: RegularRuleStatementIpSetSource },
}

/// One test of a request: a part to read, a predicate with its text, and
/// whether the result is inverted.
#[derive(Clone, Debug)]
pub struct RegularRuleStatement {
    pub inspect: RegularRuleStatementInspect,
    pub negate_statement: bool,
    pub match_type: RegularRuleStatementMatchType,
    pub match_string: String,
}

/// How a regular rule composes the results of its statements: `One` holds
/// where some statement does, `All` where every statement does, and `NoneOf`
/// where not every statement fails.
#[derive(Clone, Copy, Debug, PartialEq, Eq, Structural)]
pub enum RegularRuleCondition {
    One,
    All,
    NoneOf,
}

/// What a rate-based rule counts requests by.
#[derive(Clone, Copy, Debug, PartialEq, Eq, Structural)]
pub enum RateBasedRuleKey {
    SourceIp,
}

/// A rule: statements composed under a condition, with the action to take
/// where they hold; or a limit on the requests of one key within a window of
/// seconds.
#[derive(Clone, Debug)]
pub enum AegisRule {
    Regular {
        action: RuleAction,
        condition: RegularRuleCondition,
        statements: Vec<RegularRuleStatement>,
    },
    RateBased { limit: i64, evaluation_window_seconds: i64, key: RateBasedRuleKey },
}

/// The policy document. `config_hash` is the fingerprint of the raw text
/// that the document was parsed from.
#[derive(Clone, Debug)]
pub struct AegisConfig {
    pub server: AegisServer,
    pub upstream: String,
    pub redis: RedisConfig,
    pub default_action: RuleAction,
    pub rules: Vec<AegisRule>,
    pub config_hash: u64,
    pub metrics: MetricsConfig,
}

/// Why a document was not taken.
#[derive(Clone, Copy, Debug, PartialEq, Eq, Structural)]
pub enum ConfigError {
    ConfigFileAccessError,
    ConfigFileDeserialiationError,
    UpstreamAddressInvalidError,
    ListenAddrInvalidError,
}

impl ConfigError {
    /// What the error says.
    pub open spec fn text(&self) -> Seq<char> {
        match self {
            ConfigError::ConfigFileAccessError => "failed to read config file"@,
            ConfigError::ConfigFileDeserialiationError => "invalid config file"@,
            ConfigError::UpstreamAddressInvalidError => "invalid upstream address"@,
            ConfigError::ListenAddrInvalidError => "invalid listen address"@,
        }
    }

    /// The error as a message for a person.
    pub fn message(&self) -> (r: String)
        ensures
            r@ == self.text(),
    {
        match self {
            ConfigError::ConfigFileAccessError => "failed to read config file".to_owned(),
            ConfigError::ConfigFileDeserialiationError => "invalid config file".to_owned(),
            ConfigError::UpstreamAddressInvalidError => "invalid upstream address".to_owned(),
            ConfigError::ListenAddrInvalidError => "invalid listen address".to_owned(),
        }
    }
}

/// The default action of a document that names none.
pub fn default_action() -> (r: RuleAction)
    ensures
        r == RuleAction::Allow,
{
    RuleAction::Allow
}

/// Whether the counter store is used where a document does not say.
pub fn default_redis_enabled() -> (r: bool)
    ensures
        r,
{
    true
}

/// The address of the counter store where a document names none.
pub fn default_redis_url() -> (r: String)
    ensures
        r@ == "redis://127.0.0.1/"@,
{
    "redis://127.0.0.1/".to_owned()
}

/// The counter store settings of a document that names none.
pub fn default_redis_config() -> (r: RedisConfig)
    ensures
        r.enabled,
        r.url@ == "redis://127.0.0.1/"@,
{
    RedisConfig { enabled: default_redis_enabled(), url: default_redis_url() }
}

/// Whether metrics are exported where a document does not say.
pub fn default_metrics_enabled() -> (r: bool)
    ensures
        r,
{
    true
}

/// Where metrics are exported to where a document names no endpoint.
pub fn default_metrics_export_endpoint() -> (r: String)
    ensures
        r@ == "http://localhost:4317"@,
{
    "http://localhost:4317".to_owned()
}

/// The seconds between two exports where a document names no interval.
pub fn default_metrics_export_interval() -> (r: u64)
    ensures
        r == 15,
{
    15
}

/// The metrics settings of a document that names none.
pub fn default_metrics_config() -> (r: MetricsConfig)
    ensures
        r.enabled,
        r.export_endpoint@ == "http://localhost:4317"@,
        r.export_interval == 15,
{
    MetricsConfig {
        enabled: default_metrics_enabled(),
        export_endpoint: default_metrics_export_endpoint(),
        export_interval: default_metrics_export_interval(),
    }
}

/// The address the server listens on where a document names none.
pub fn default_server_address() -> (r: String)
    ensures
        r@ == "0.0.0.0"@,
{
    "0.0.0.0".to_owned()
}

/// The port the server listens on where a document names none.
pub fn default_server_port() -> (r: u16)
    ensures
        r == DEFAULT_PORT,
{
    DEFAULT_PORT
}

/// The log level where a document names none.
pub fn default_server_log_level() -> (r: AegisServerLogLevel)
    ensures
        r == AegisServerLogLevel::INFO,
{
    AegisServerLogLevel::INFO
}

/// Whether a statement is negated where it does not say.
pub fn default_regular_rule_negate_statement() -> (r: bool)
    ensures
        !r,
{
    false
}

/// The port that the server listens on by default: the one that the given
/// text writes, where there is a text and it writes a port, else 4000.
pub open spec fn port_or_default(port: Option<&str>) -> u16 {
    match port {
        Some(p) => match parsed_port(p@) {
            Some(n) => n,
            None => DEFAULT_PORT,
        },
        None => DEFAULT_PORT,
    }
}

/// The server settings of a document that names none. `port` is the port
/// that the environment asks for, as it was written there.
pub fn default_server(port: Option<&str>) -> (r: AegisServer)
    ensures
        r.address@ == "0.0.0.0"@,
        r.port == port_or_default(port),
        r.log_level == AegisServerLogLevel::INFO,
{
    let port = match port {
        Some(p) => match parse_port(p) {
            Some(n) => n,
            None => DEFAULT_PORT,
        },
        None => DEFAULT_PORT,
    };
    AegisServer { address: default_server_address(), port, log_level: default_server_log_level() }
}

/// The fingerprint of a document's raw bytes: what the standard hasher makes
/// of them, written in one piece.
pub open spec fn fingerprint_of(raw: Seq<u8>) -> u64 {
    DefaultHasher::spec_finish(seq![raw])
}

/// Computes the fingerprint of a document from its raw text.
pub fn fingerprint(raw: &str) -> (r: u64)
    ensures
        r == fingerprint_of(raw.spec_bytes()),
{
    let mut hasher = DefaultHasher::new();
    hasher.write(raw.as_bytes());
    hasher.finish()
}

/// How often the document is read again, in seconds.
pub const WATCH_PERIOD_SECONDS: u64 = 5;

impl AegisConfig {
    /// A document for the given upstream with every other setting at its
    /// default: the default server, `Allow`, no rules, fingerprint zero.
    pub fn new(upstream: String) -> (r: Self)
        ensures
            r.upstream == upstream,
            r.server.address@ == "0.0.0.0"@,
            r.server.port == DEFAULT_PORT,
            r.server.log_level == AegisServerLogLevel::INFO,
            r.default_action == RuleAction::Allow,
            r.rules@.len() == 0,
            r.config_hash == 0,
            r.redis.enabled,
            r.redis.url@ == "redis://127.0.0.1/"@,
            r.metrics.enabled,
            r.metrics.export_endpoint@ == "http://localhost:4317"@,
            r.metrics.export_interval == 15,
    {
        AegisConfig {
            upstream,
            server: default_server(None),
            default_action: default_action(),
            rules: Vec::new(),
            config_hash: 0,
            redis: default_redis_config(),
            metrics: default_metrics_config(),
        }
    }

    /// Takes a parsed document in, with the raw text it was parsed from. A
    /// default action of `Count` is refused as a document that does not
    /// parse; any other document is taken as it is, with the fingerprint of
    /// the raw text.
    pub fn from_parsed(parsed: AegisConfig, raw: &str) -> (r: Result<AegisConfig, ConfigError>)
        ensures
            parsed.default_action == RuleAction::Count ==> r is Err && r->Err_0
                == ConfigError::ConfigFileDeserialiationError,
            parsed.default_action != RuleAction::Count ==> r is Ok && r->Ok_0 == (AegisConfig {
                config_hash: fingerprint_of(raw.spec_bytes()),
                ..parsed
            }),
    {
        match parsed.default_action {
            RuleAction::Count => Err(ConfigError::ConfigFileDeserialiationError),
            _ => {
                let mut taken = parsed;
                taken.config_hash = fingerprint(raw);
                Ok(taken)
            },
        }
    }

    /// Whether the document can go live: its default action is `Allow` or
    /// `Block`, and its upstream parses as a URL.
    pub open spec fn valid(&self) -> bool {
        self.default_action != RuleAction::Count && url_parses(self.upstream@)
    }

    /// Checks the document. `Ok(true)` where it is valid. A default action of
    /// `Count` gives the error of a document that does not parse; after that,
    /// an upstream that is no absolute URL gives the upstream error.
    pub fn validate(&self) -> (r: Result<bool, ConfigError>)
        ensures
            self.valid() ==> r == Ok::<bool, ConfigError>(true),
            self.default_action == RuleAction::Count ==> r == Err::<bool, ConfigError>(
                ConfigError::ConfigFileDeserialiationError,
            ),
            self.default_action != RuleAction::Count && !url_parses(self.upstream@) ==> r
                == Err::<bool, ConfigError>(ConfigError::UpstreamAddressInvalidError),
    {
        match self.default_action {
            RuleAction::Count => {
                return Err(ConfigError::ConfigFileDeserialiationError);
            },
            _ => {},
        }
        match parse_url(self.upstream.as_str()) {
            Ok(_) => Ok(true),
            Err(_) => Err(ConfigError::UpstreamAddressInvalidError),
        }
    }
}

/// Whether a document that was read replaces the live one: it was read and
/// taken in, its fingerprint differs from the live one's, and it is valid.
pub open spec fn replaces(live: AegisConfig, loaded: Result<AegisConfig, ConfigError>) -> bool {
    match loaded {
        Ok(fresh) => fresh.config_hash != live.config_hash && fresh.valid(),
        Err(_) => false,
    }
}

/// The live document after one turn of the watcher: the document that was
/// read where it replaces the live one, else the live one.
pub open spec fn reloaded(live: AegisConfig, loaded: Result<AegisConfig, ConfigError>) -> AegisConfig {
    if replaces(live, loaded) {
        loaded->Ok_0
    } else {
        live
    }
}

/// One turn of the watcher. The live document is replaced as a whole by the
/// document that was read, or it stays as it is.
pub fn apply_reload(live: &mut AegisConfig, loaded: Result<AegisConfig, ConfigError>) -> (swapped:
    bool)
    ensures
        swapped == replaces(*old(live), loaded),
        *final(live) == reloaded(*old(live), loaded),
{
    match loaded {
        Ok(fresh) => {
            if fresh.config_hash != live.config_hash {
                match fresh.validate() {
                    Ok(_) => {
                        *live = fresh;
                        true
                    },
                    Err(_) => false,
                }
            } else {
                false
            }
        },
        Err(_) => false,
    }
}

/// After a turn of the watcher the live document is, field for field, either
/// the document that was live before or the document that was read: never a
/// mixture of the two.
pub proof fn reload_is_wholesale(live: AegisConfig, loaded: Result<AegisConfig, ConfigError>)
    ensures
        reloaded(live, loaded) == live || (loaded is Ok && reloaded(live, loaded) == loaded->Ok_0),
{
}

/// A valid live document is followed by a valid live document, whatever was
/// read.
pub proof fn reload_keeps_validity(live: AegisConfig, loaded: Result<AegisConfig, ConfigError>)
    requires
        live.valid(),
    ensures
        reloaded(live, loaded).valid(),
{
}

/// A document with the live document's fingerprint, a document that is not
/// valid and a document that could not be read each leave the live document
/// in force.
pub proof fn reload_keeps_document(live: AegisConfig, loaded: Result<AegisConfig, ConfigError>)
    requires
        loaded is Err || loaded->Ok_0.config_hash == live.config_hash || !loaded->Ok_0.valid(),
    ensures
        reloaded(live, loaded) == live,
{
}

} // verus!

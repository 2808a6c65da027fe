//! Statements: what a statement reads from a request, and whether what it
//! read satisfies its predicate.

use vstd::prelude::*;
use vstd::string::StringExecFns;
use crate::config::{
    RegularRuleStatement, RegularRuleStatementInspect,
    RegularRuleStatementInspectTypeContentFilter, RegularRuleStatementInspectTypeScope,
    RegularRuleStatementIpSetSource, RegularRuleStatementIpSetSourcePosition,
    RegularRuleStatementMatchType,
};
use crate::locator::{pair_texts, parse_url, url_parses, url_query_pairs};
use crate::pattern::{regex_compiles, regex_matches, regex_search};
use crate::request::{cookie_entries, header_readings, Cookie, Entry, Header, Request};
use crate::text::{
    contains, ends_with, fields, has_infix, has_prefix, has_suffix, lowercase, same_text,
    split_commas, starts_with, texts, to_lowercase, to_uppercase, trim, trimmed, uppercase,
};

verus! {

/// What a statement read from a request. The variant fixes how the predicate
/// is quantified: over the one text, over all texts of a non-empty sequence,
/// or over some text of a sequence.
#[derive(Clone, Debug, PartialEq, Eq)]
pub enum RegularRuleStatementInspectValue {
    Single(String),
    All(Vec<String>),
    Any(Vec<String>),
}

/// The mathematical value of a `RegularRuleStatementInspectValue`.
pub enum InspectModel {
    Single(Seq<char>),
    All(Seq<Seq<char>>),
    Any(Seq<Seq<char>>),
}

impl View for RegularRuleStatementInspectValue {
    type V = InspectModel;

    open spec fn view(&self) -> InspectModel {
        match self {
            RegularRuleStatementInspectValue::Single(s) => InspectModel::Single(s@),
            RegularRuleStatementInspectValue::All(v) => InspectModel::All(texts(v@)),
            RegularRuleStatementInspectValue::Any(v) => InspectModel::Any(texts(v@)),
        }
    }
}

/// Two names are the same name when their lower-case forms are equal.
pub open spec fn same_name(a: Seq<char>, b: Seq<char>) -> bool {
    lowercase(a) == lowercase(b)
}

/// Whether a header or cookie of the given name passes the filter.
pub open spec fn passes(
    filter: RegularRuleStatementInspectTypeContentFilter,
    name: Seq<char>,
) -> bool {
    match filter {
        RegularRuleStatementInspectTypeContentFilter::All => true,
        RegularRuleStatementInspectTypeContentFilter::Include { key } => same_name(name, key@),
        RegularRuleStatementInspectTypeContentFilter::Exclude { key } => !same_name(name, key@),
    }
}

/// Compares two names without regard to case.
pub fn is_same_name(a: &str, b: &str) -> (r: bool)
    ensures
        r == same_name(a@, b@),
{
    let la = to_lowercase(a);
    let lb = to_lowercase(b);
    same_text(la.as_str(), lb.as_str())
}

/// Tests a name against a filter.
pub fn passes_filter(
    content_filter: &RegularRuleStatementInspectTypeContentFilter,
    name: &str,
) -> (r: bool)
    ensures
        r == passes(*content_filter, name@),
{
    match content_filter {
        RegularRuleStatementInspectTypeContentFilter::All => true,
        RegularRuleStatementInspectTypeContentFilter::Include { key } => is_same_name(
            name,
            key.as_str(),
        ),
        RegularRuleStatementInspectTypeContentFilter::Exclude { key } => !is_same_name(
            name,
            key.as_str(),
        ),
    }
}

/// Hands the name back where it passes the filter, and nothing where it does
/// not.
pub fn filter_inspect_header_content(
    content_filter: &RegularRuleStatementInspectTypeContentFilter,
    h: String,
) -> (r: Option<String>)
    ensures
        passes(*content_filter, h@) ==> r == Some(h),
        !passes(*content_filter, h@) ==> r.is_none(),
{
    if passes_filter(content_filter, h.as_str()) {
        Some(h)
    } else {
        None
    }
}

/// The entries whose name passes the filter, in order.
pub open spec fn kept(
    entries: Seq<Entry>,
    filter: RegularRuleStatementInspectTypeContentFilter,
) -> Seq<Entry>
    decreases entries.len(),
{
    if entries.len() == 0 {
        Seq::empty()
    } else {
        let before = kept(entries.drop_last(), filter);
        if passes(filter, entries.last().0) {
            before.push(entries.last())
        } else {
            before
        }
    }
}

/// The names of the entries, in order.
pub open spec fn names_of(entries: Seq<Entry>) -> Seq<Seq<char>> {
    Seq::new(entries.len(), |i: int| entries[i].0)
}

/// The values of the entries, in order.
pub open spec fn values_of(entries: Seq<Entry>) -> Seq<Seq<char>> {
    Seq::new(entries.len(), |i: int| entries[i].1)
}

/// What a scope reads of the entries that pass a filter: their names, their
/// values, or the names followed by the values.
pub open spec fn scoped(
    entries: Seq<Entry>,
    scope: RegularRuleStatementInspectTypeScope,
    filter: RegularRuleStatementInspectTypeContentFilter,
) -> Seq<Seq<char>> {
    let k = kept(entries, filter);
    match scope {
        RegularRuleStatementInspectTypeScope::All => names_of(k) + values_of(k),
        RegularRuleStatementInspectTypeScope::Keys => names_of(k),
        RegularRuleStatementInspectTypeScope::Values => values_of(k),
    }
}

/// The headers as statements read them: name/value pairs, a value that is
/// not readable as the empty text.
pub fn read_headers(headers: &Vec<Header>) -> (pairs: Vec<(String, String)>)
    ensures
        pair_texts(pairs@) == header_readings(headers@),
{
    let mut pairs: Vec<(String, String)> = Vec::new();
    let mut i: usize = 0;
    while i < headers.len()
        invariant
            i <= headers.len(),
            pairs.len() == i,
            forall|j: int|
                0 <= j < i ==> pairs[j].0@ == headers[j].name@ && pairs[j].1@ == headers[j].reading(),
        decreases headers.len() - i,
    {
        let value = match &headers[i].value {
            Some(v) => v.clone(),
            None => String::new(),
        };
        pairs.push((headers[i].name.clone(), value));
        i += 1;
    }
    assert(pair_texts(pairs@) =~= header_readings(headers@));
    pairs
}

/// The cookies as name/value pairs.
pub fn cookie_pairs(cookies: &Vec<Cookie>) -> (pairs: Vec<(String, String)>)
    ensures
        pair_texts(pairs@) == cookie_entries(cookies@),
{
    let mut pairs: Vec<(String, String)> = Vec::new();
    let mut i: usize = 0;
    while i < cookies.len()
        invariant
            i <= cookies.len(),
            pairs.len() == i,
            forall|j: int|
                0 <= j < i ==> pairs[j].0@ == cookies[j].name@ && pairs[j].1@ == cookies[j].value@,
        decreases cookies.len() - i,
    {
        pairs.push((cookies[i].name.clone(), cookies[i].value.clone()));
        i += 1;
    }
    assert(pair_texts(pairs@) =~= cookie_entries(cookies@));
    pairs
}

/// Reads from name/value pairs what a scope and a filter select.
pub fn select(
    pairs: &Vec<(String, String)>,
    scope: &RegularRuleStatementInspectTypeScope,
    content_filter: &RegularRuleStatementInspectTypeContentFilter,
) -> (out: Vec<String>)
    ensures
        texts(out@) == scoped(pair_texts(pairs@), *scope, *content_filter),
{
    let ghost entries = pair_texts(pairs@);
    let mut names: Vec<String> = Vec::new();
    let mut values: Vec<String> = Vec::new();
    let mut i: usize = 0;
    while i < pairs.len()
        invariant
            i <= pairs.len(),
            entries == pair_texts(pairs@),
            texts(names@) == names_of(kept(entries.subrange(0, i as int), *content_filter)),
            texts(values@) == values_of(kept(entries.subrange(0, i as int), *content_filter)),
        decreases pairs.len() - i,
    {
        let ghost before = kept(entries.subrange(0, i as int), *content_filter);
        let ghost old_names = names@;
        let ghost old_values = values@;
        proof {
            assert(entries.subrange(0, i + 1).drop_last() =~= entries.subrange(0, i as int));
            assert(entries.subrange(0, i + 1).last() == entries[i as int]);
        }
        if passes_filter(content_filter, pairs[i].0.as_str()) {
            names.push(pairs[i].0.clone());
            values.push(pairs[i].1.clone());
            proof {
                assert(texts(names@) =~= texts(old_names).push(pairs[i as int].0@));
                assert(texts(values@) =~= texts(old_values).push(pairs[i as int].1@));
                assert(names_of(before.push(entries[i as int])) =~= names_of(before).push(
                    entries[i as int].0,
                ));
                assert(values_of(before.push(entries[i as int])) =~= values_of(before).push(
                    entries[i as int].1,
                ));
            }
        }
        i += 1;
    }
    assert(entries.subrange(0, pairs.len() as int) =~= entries);
    match scope {
        RegularRuleStatementInspectTypeScope::All => {
            let ghost n = names@;
            let ghost v = values@;
            names.append(&mut values);
            assert(texts(n + v) =~= texts(n) + texts(v));
            names
        },
        RegularRuleStatementInspectTypeScope::Keys => names,
        RegularRuleStatementInspectTypeScope::Values => values,
    }
}

/// The first header at or after `from` that has the given name.
pub open spec fn find_header(headers: Seq<Header>, key: Seq<char>, from: int) -> Option<Header>
    decreases headers.len() - from,
{
    if from < 0 || from >= headers.len() {
        None
    } else if same_name(headers[from].name@, key) {
        Some(headers[from])
    } else {
        find_header(headers, key, from + 1)
    }
}

/// Finds the first header of the given name.
pub fn lookup_header<'a>(headers: &'a Vec<Header>, key: &str) -> (r: Option<&'a Header>)
    ensures
        match r {
            Some(h) => find_header(headers@, key@, 0) == Some(*h),
            None => find_header(headers@, key@, 0).is_none(),
        },
{
    let mut i: usize = 0;
    while i < headers.len()
        invariant
            i <= headers.len(),
            find_header(headers@, key@, 0) == find_header(headers@, key@, i as int),
        decreases headers.len() - i,
    {
        if is_same_name(headers[i].name.as_str(), key) {
            return Some(&headers[i]);
        }
        i += 1;
    }
    None
}

/// The value of the first pair at or after `from` whose name is `key`.
pub open spec fn first_value(pairs: Seq<Entry>, key: Seq<char>, from: int) -> Option<Seq<char>>
    decreases pairs.len() - from,
{
    if from < 0 || from >= pairs.len() {
        None
    } else if pairs[from].0 == key {
        Some(pairs[from].1)
    } else {
        first_value(pairs, key, from + 1)
    }
}

/// Finds the value of the first pair whose name is `key`.
pub fn lookup_value(pairs: &Vec<(String, String)>, key: &str) -> (r: Option<String>)
    ensures
        match r {
            Some(v) => first_value(pair_texts(pairs@), key@, 0) == Some(v@),
            None => first_value(pair_texts(pairs@), key@, 0).is_none(),
        },
{
    let ghost entries = pair_texts(pairs@);
    let mut i: usize = 0;
    while i < pairs.len()
        invariant
            i <= pairs.len(),
            entries == pair_texts(pairs@),
            first_value(entries, key@, 0) == first_value(entries, key@, i as int),
        decreases pairs.len() - i,
    {
        if same_text(pairs[i].0.as_str(), key) {
            return Some(pairs[i].1.clone());
        }
        i += 1;
    }
    None
}

/// The text that a raw query is appended to, to be parsed as a URL.
pub open spec fn query_base() -> Seq<char> {
    "http://localhost?"@
}

/// The decoded value of the first query parameter named `key`; empty where
/// there is no query, where it does not parse, or where no parameter has
/// that name.
pub open spec fn query_parameter(query: Option<String>, key: Seq<char>) -> Seq<char> {
    match query {
        None => Seq::empty(),
        Some(q) => {
            let u = query_base() + q@;
            if url_parses(u) {
                match first_value(url_query_pairs(u), key, 0) {
                    Some(v) => v,
                    None => Seq::empty(),
                }
            } else {
                Seq::empty()
            }
        },
    }
}

/// Reads a query parameter from a raw query.
pub fn fetch_query_parameter(query: &Option<String>, key: &str) -> (r: String)
    ensures
        r@ == query_parameter(*query, key@),
{
    match query {
        None => String::new(),
        Some(q) => {
            let u = String::from_str("http://localhost?").concat(q.as_str());
            match parse_url(u.as_str()) {
                Ok(locator) => match lookup_value(&locator.query_pairs, key) {
                    Some(v) => v,
                    None => String::new(),
                },
                Err(_) => String::new(),
            }
        },
    }
}

/// Each text without its leading and trailing white space.
pub open spec fn trimmed_each(parts: Seq<Seq<char>>) -> Seq<Seq<char>> {
    Seq::new(parts.len(), |i: int| trimmed(parts[i]))
}

/// The addresses that a header value lists: its comma-separated fields,
/// trimmed.
pub open spec fn address_list(value: Seq<char>) -> Seq<Seq<char>> {
    trimmed_each(fields(value, ','))
}

/// Splits a header value into the addresses it lists.
pub fn split_addresses(value: &str) -> (ips: Vec<String>)
    ensures
        texts(ips@) == address_list(value@),
{
    let parts = split_commas(value);
    let mut ips: Vec<String> = Vec::new();
    let mut i: usize = 0;
    while i < parts.len()
        invariant
            i <= parts.len(),
            ips.len() == i,
            forall|j: int| 0 <= j < i ==> ips[j]@ == trimmed(parts[j]@),
        decreases parts.len() - i,
    {
        ips.push(trim(parts[i].as_str()));
        i += 1;
    }
    assert(texts(ips@) =~= trimmed_each(texts(parts@)));
    ips
}

/// What a position reads of a list of addresses.
pub open spec fn positioned(
    ips: Seq<Seq<char>>,
    position: RegularRuleStatementIpSetSourcePosition,
) -> InspectModel {
    match position {
        RegularRuleStatementIpSetSourcePosition::First => InspectModel::Single(
            if ips.len() > 0 {
                ips[0]
            } else {
                Seq::empty()
            },
        ),
        RegularRuleStatementIpSetSourcePosition::Last => InspectModel::Single(
            if ips.len() > 0 {
                ips.last()
            } else {
                Seq::empty()
            },
        ),
        RegularRuleStatementIpSetSourcePosition::Any => InspectModel::Any(ips),
    }
}

/// Reads the first address, the last, or all of them.
pub fn pick_position(
    ips: Vec<String>,
    position: &RegularRuleStatementIpSetSourcePosition,
) -> (r: RegularRuleStatementInspectValue)
    ensures
        r@ == positioned(texts(ips@), *position),
{
    match position {
        RegularRuleStatementIpSetSourcePosition::First => {
            if ips.len() > 0 {
                RegularRuleStatementInspectValue::Single(ips[0].clone())
            } else {
                RegularRuleStatementInspectValue::Single(String::new())
            }
        },
        RegularRuleStatementIpSetSourcePosition::Last => {
            if ips.len() > 0 {
                RegularRuleStatementInspectValue::Single(ips[ips.len() - 1].clone())
            } else {
                RegularRuleStatementInspectValue::Single(String::new())
            }
        },
        RegularRuleStatementIpSetSourcePosition::Any => RegularRuleStatementInspectValue::Any(ips),
    }
}

/// What a statement reads from a request.
pub open spec fn inspected(inspect: RegularRuleStatementInspect, request: Request) -> InspectModel {
    match inspect {
        RegularRuleStatementInspect::Header { key } => InspectModel::Single(
            match find_header(request.headers@, key@, 0) {
                Some(h) => h.reading(),
                None => Seq::empty(),
            },
        ),
        RegularRuleStatementInspect::QueryParameter { key } => InspectModel::Single(
            query_parameter(request.query, key@),
        ),
        RegularRuleStatementInspect::HttpMethod => InspectModel::Single(
            uppercase(request.method@),
        ),
        RegularRuleStatementInspect::UriPath => InspectModel::Single(request.path@),
        RegularRuleStatementInspect::QueryString => InspectModel::Single(request.query_text()),
        RegularRuleStatementInspect::AllHeaders { scope, content_filter } => InspectModel::All(
            scoped(header_readings(request.headers@), scope, content_filter),
        ),
        RegularRuleStatementInspect::Cookies { scope, content_filter } => match request.cookies {
            Some(cookies) => InspectModel::All(
                scoped(cookie_entries(cookies@), scope, content_filter),
            ),
            None => InspectModel::All(Seq::empty()),
        },
        RegularRuleStatementInspect::IpSet { source } => match source {
            RegularRuleStatementIpSetSource::SourceIp => InspectModel::Single(request.peer_text()),
            RegularRuleStatementIpSetSource::Header { name, position } => match find_header(
                request.headers@,
                name@,
                0,
            ) {
                Some(h) => match h.value {
                    Some(v) => positioned(address_list(v@), position),
                    None => InspectModel::Single(Seq::empty()),
                },
                None => InspectModel::Single(Seq::empty()),
            },
        },
    }
}

/// Reads from the request what the statement inspects.
pub fn fetch_statement_inspect(
    inspect_type: &RegularRuleStatementInspect,
    request: &Request,
) -> (r: RegularRuleStatementInspectValue)
    ensures
        r@ == inspected(*inspect_type, *request),
{
    match inspect_type {
        RegularRuleStatementInspect::Header { key } => {
            match lookup_header(&request.headers, key.as_str()) {
                Some(h) => match &h.value {
                    Some(v) => RegularRuleStatementInspectValue::Single(v.clone()),
                    None => RegularRuleStatementInspectValue::Single(String::new()),
                },
                None => RegularRuleStatementInspectValue::Single(String::new()),
            }
        },
        RegularRuleStatementInspect::QueryParameter { key } => {
            RegularRuleStatementInspectValue::Single(
                fetch_query_parameter(&request.query, key.as_str()),
            )
        },
        RegularRuleStatementInspect::HttpMethod => RegularRuleStatementInspectValue::Single(
            to_uppercase(request.method.as_str()),
        ),
        RegularRuleStatementInspect::UriPath => RegularRuleStatementInspectValue::Single(
            request.path.clone(),
        ),
        RegularRuleStatementInspect::QueryString => match &request.query {
            Some(q) => RegularRuleStatementInspectValue::Single(q.clone()),
            None => RegularRuleStatementInspectValue::Single(String::new()),
        },
        RegularRuleStatementInspect::AllHeaders { scope, content_filter } => {
            let pairs = read_headers(&request.headers);
            RegularRuleStatementInspectValue::All(select(&pairs, scope, content_filter))
        },
        RegularRuleStatementInspect::Cookies { scope, content_filter } => match &request.cookies {
            Some(cookies) => {
                let pairs = cookie_pairs(cookies);
                RegularRuleStatementInspectValue::All(select(&pairs, scope, content_filter))
            },
            None => {
                let nothing: Vec<String> = Vec::new();
                assert(texts(nothing@) =~= Seq::<Seq<char>>::empty());
                RegularRuleStatementInspectValue::All(nothing)
            },
        },
        RegularRuleStatementInspect::IpSet { source } => match source {
            RegularRuleStatementIpSetSource::SourceIp => match &request.peer_ip {
                Some(ip) => RegularRuleStatementInspectValue::Single(ip.clone()),
                None => RegularRuleStatementInspectValue::Single(String::new()),
            },
            RegularRuleStatementIpSetSource::Header { name, position } => {
                match lookup_header(&request.headers, name.as_str()) {
                    Some(h) => match &h.value {
                        Some(v) => pick_position(split_addresses(v.as_str()), position),
                        None => RegularRuleStatementInspectValue::Single(String::new()),
                    },
                    None => RegularRuleStatementInspectValue::Single(String::new()),
                }
            },
        },
    }
}

/// Whether one text satisfies a predicate. A pattern that does not compile
/// matches nothing.
pub open spec fn text_matches(
    match_type: RegularRuleStatementMatchType,
    value: Seq<char>,
    match_string: Seq<char>,
) -> bool {
    match match_type {
        RegularRuleStatementMatchType::StartsWith => has_prefix(value, match_string),
        RegularRuleStatementMatchType::EndsWith => has_suffix(value, match_string),
        RegularRuleStatementMatchType::Contains => has_infix(value, match_string),
        RegularRuleStatementMatchType::Exact => value == match_string,
        RegularRuleStatementMatchType::Regex => regex_compiles(match_string) && regex_matches(
            match_string,
            value,
        ),
    }
}

/// Whether every text of the sequence satisfies the predicate.
pub open spec fn every_text_matches(
    xs: Seq<Seq<char>>,
    match_type: RegularRuleStatementMatchType,
    match_string: Seq<char>,
) -> bool {
    forall|i: int|
        #![trigger xs[i]]
        0 <= i < xs.len() ==> text_matches(match_type, xs[i], match_string)
}

/// Whether some text of the sequence satisfies the predicate.
pub open spec fn some_text_matches(
    xs: Seq<Seq<char>>,
    match_type: RegularRuleStatementMatchType,
    match_string: Seq<char>,
) -> bool {
    exists|i: int|
        #![trigger xs[i]]
        0 <= i < xs.len() && text_matches(match_type, xs[i], match_string)
}

/// Whether what was read satisfies a predicate: the one text; every text of
/// a non-empty sequence; or some text of a sequence.
pub open spec fn value_matches(
    value: InspectModel,
    match_type: RegularRuleStatementMatchType,
    match_string: Seq<char>,
) -> bool {
    match value {
        InspectModel::Single(x) => text_matches(match_type, x, match_string),
        InspectModel::All(xs) => xs.len() > 0 && every_text_matches(xs, match_type, match_string),
        InspectModel::Any(xs) => some_text_matches(xs, match_type, match_string),
    }
}

/// What a search with a pattern counts as: a match only where the pattern
/// compiled and matched.
pub fn regex_verdict(outcome: Option<bool>) -> (r: bool)
    ensures
        r == (outcome == Some(true)),
{
    match outcome {
        Some(b) => b,
        None => false,
    }
}

/// Tests one text against a predicate.
pub fn check_text_match(
    match_type: &RegularRuleStatementMatchType,
    value: &str,
    match_string: &str,
) -> (r: bool)
    ensures
        r == text_matches(*match_type, value@, match_string@),
{
    match match_type {
        RegularRuleStatementMatchType::StartsWith => starts_with(value, match_string),
        RegularRuleStatementMatchType::EndsWith => ends_with(value, match_string),
        RegularRuleStatementMatchType::Contains => contains(value, match_string),
        RegularRuleStatementMatchType::Exact => same_text(value, match_string),
        RegularRuleStatementMatchType::Regex => {
            let outcome = match regex_search(match_string, value) {
                Ok(b) => Some(b),
                Err(_) => None,
            };
            regex_verdict(outcome)
        },
    }
}

/// Tests what was read against a predicate.
pub fn check_value_match(
    value: &RegularRuleStatementInspectValue,
    match_type: &RegularRuleStatementMatchType,
    match_string: &str,
) -> (r: bool)
    ensures
        r == value_matches(value@, *match_type, match_string@),
{
    match value {
        RegularRuleStatementInspectValue::Single(x) => check_text_match(
            match_type,
            x.as_str(),
            match_string,
        ),
        RegularRuleStatementInspectValue::All(v) => {
            let ghost xs = texts(v@);
            if v.len() == 0 {
                return false;
            }
            let mut i: usize = 0;
            while i < v.len()
                invariant
                    i <= v.len(),
                    xs == texts(v@),
                    value@ == InspectModel::All(xs),
                    forall|j: int|
                        #![trigger xs[j]]
                        0 <= j < i ==> text_matches(*match_type, xs[j], match_string@),
                decreases v.len() - i,
            {
                if !check_text_match(match_type, v[i].as_str(), match_string) {
                    assert(!text_matches(*match_type, xs[i as int], match_string@));
                    return false;
                }
                i += 1;
            }
            true
        },
        RegularRuleStatementInspectValue::Any(v) => {
            let ghost xs = texts(v@);
            let mut i: usize = 0;
            while i < v.len()
                invariant
                    i <= v.len(),
                    xs == texts(v@),
                    value@ == InspectModel::Any(xs),
                    forall|j: int|
                        #![trigger xs[j]]
                        0 <= j < i ==> !text_matches(*match_type, xs[j], match_string@),
                decreases v.len() - i,
            {
                if check_text_match(match_type, v[i].as_str(), match_string) {
                    assert(0 <= i < xs.len() && text_matches(
                        *match_type,
                        xs[i as int],
                        match_string@,
                    ));
                    return true;
                }
                i += 1;
            }
            false
        },
    }
}

/// Tests what was read against the statement's predicate. Negation is not
/// applied here.
pub fn check_statement_match(
    value: RegularRuleStatementInspectValue,
    statement: RegularRuleStatement,
) -> (r: bool)
    ensures
        r == value_matches(value@, statement.match_type, statement.match_string@),
{
    check_value_match(&value, &statement.match_type, statement.match_string.as_str())
}

/// The result of a statement on a request: whether what it reads satisfies
/// its predicate, inverted where the statement is negated.
pub open spec fn statement_result(statement: RegularRuleStatement, request: Request) -> bool {
    value_matches(
        inspected(statement.inspect, request),
        statement.match_type,
        statement.match_string@,
    ) != statement.negate_statement
}

/// Evaluates a statement on a request.
pub fn evaluate_statement(statement: &RegularRuleStatement, request: &Request) -> (r: bool)
    ensures
        r == statement_result(*statement, *request),
{
    let value = fetch_statement_inspect(&statement.inspect, request);
    let hit = check_value_match(&value, &statement.match_type, statement.match_string.as_str());
    if statement.negate_statement {
        !hit
    } else {
        hit
    }
}

/// The statement with its negation flag set as given.
pub open spec fn with_negate(statement: RegularRuleStatement, negate: bool) -> RegularRuleStatement {
    RegularRuleStatement {
        inspect: statement.inspect,
        negate_statement: negate,
        match_type: statement.match_type,
        match_string: statement.match_string,
    }
}

/// A negated statement holds on exactly the requests on which the same
/// statement without negation does not.
pub proof fn negation_inverts_result(statement: RegularRuleStatement, request: Request)
    ensures
        statement_result(with_negate(statement, true), request) == !statement_result(
            with_negate(statement, false),
            request,
        ),
{
}

/// A predicate over all texts of an empty sequence does not hold, whatever
/// the predicate.
pub proof fn all_of_nothing_fails(
    match_type: RegularRuleStatementMatchType,
    match_string: Seq<char>,
)
    ensures
        !value_matches(InspectModel::All(Seq::empty()), match_type, match_string),
{
}

} // verus!

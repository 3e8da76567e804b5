//! Semantic routing: choosing a model for a prompt.
//!
//! A keyword classifier picks the model of the first rule whose regular
//! expression matches the prompt.  An LLM classifier asks a model to answer
//! with `{"model": "<id>"}`, extracts the outermost `{…}` of the reply,
//! reads its `model` field and keeps it only when it names an available
//! model.  A verdict cache remembers a classifier's answers per prompt for
//! a while.  Times are milliseconds.

use vstd::prelude::*;
use vstd::string::*;
use vstd::hash_map::HashMapWithView;
use std::collections::HashMap;
use std::sync::Arc;
use regex::Regex;
use std::hash::BuildHasher;
use crate::text::str_eq;
use crate::types::common::{Message, SystemMessage, UserMessage, UserContent};

verus! {

broadcast use vstd::std_specs::hash::group_hash_axioms;

/// What a classifier sees of a request.
pub struct ClassifyContext<'a> {
    /// The user prompt.
    pub prompt: &'a str,
    /// The system prompt, if any.
    pub system_prompt: Option<&'a str>,
    /// Request metadata.
    pub metadata: &'a HashMap<String, String>,
    /// The models the router can choose from.
    pub available_models: &'a [String],
}

/// The model names joined by `", "`.
pub open spec fn join_comma(models: Seq<Seq<char>>) -> Seq<char>
    decreases models.len(),
{
    if models.len() == 0 {
        Seq::empty()
    } else if models.len() == 1 {
        models[0]
    } else {
        join_comma(models.drop_last()) + ", "@ + models.last()
    }
}

/// The prompt sent to the classifying model.
pub open spec fn routing_prompt_text(models: Seq<Seq<char>>, prompt: Seq<char>) -> Seq<char> {
    "Available models: ["@ + join_comma(models) + "]\nUser prompt: "@ + prompt
        + "\n\nRespond with ONLY a JSON object in this exact format: {\"model\": \"<model_id>\"}\nChoose the most appropriate model from the available models list."@
}

/// The views of a slice of strings.
pub open spec fn names_of(models: Seq<String>) -> Seq<Seq<char>> {
    models.map_values(|m: String| m@)
}

/// Join model names with `", "`.
pub fn join_models(models: &[String]) -> (s: String)
    ensures
        s@ == join_comma(names_of(models@)),
{
    let mut s = String::new();
    let mut i: usize = 0;
    while i < models.len()
        invariant
            i <= models@.len(),
            s@ == join_comma(names_of(models@.subrange(0, i as int))),
        decreases models@.len() - i,
    {
        proof {
            let pre = models@.subrange(0, i as int + 1);
            assert(names_of(pre).drop_last() =~= names_of(models@.subrange(0, i as int)));
            reveal_strlit(", ");
        }
        if i > 0 {
            s.append(", ");
        }
        s.append(models[i].as_str());
        proof {
            let pre = models@.subrange(0, i as int + 1);
            if i == 0 {
                assert(s@ =~= join_comma(names_of(pre)));
            } else {
                assert(s@ =~= join_comma(names_of(pre)));
            }
        }
        i = i + 1;
    }
    proof {
        assert(models@.subrange(0, models@.len() as int) =~= models@);
    }
    s
}

/// The classification prompt listing the available models and the user prompt.
pub fn build_routing_prompt(ctx: &ClassifyContext) -> (s: String)
    ensures
        s@ == routing_prompt_text(names_of(ctx.available_models@), ctx.prompt@),
{
    let models = join_models(ctx.available_models);
    let mut s = String::from_str("Available models: [");
    s.append(models.as_str());
    s.append("]\nUser prompt: ");
    s.append(ctx.prompt);
    s.append("\n\nRespond with ONLY a JSON object in this exact format: {\"model\": \"<model_id>\"}\nChoose the most appropriate model from the available models list.");
    s
}

/// The two messages of a classification request: the classifier's system
/// prompt, then the routing prompt as user text.
pub fn routing_messages(system_prompt: &str, routing_prompt: String) -> (m: Vec<Message>)
    ensures
        m@.len() == 2,
        m@[0] matches Message::System(sm) && sm.content@ == system_prompt@ && sm.name is None,
        m@[1] matches Message::User(um) && um.name is None
            && (um.content matches UserContent::Text(t) && t@ == routing_prompt@),
{
    let mut m: Vec<Message> = Vec::new();
    m.push(Message::System(SystemMessage { content: String::from_str(system_prompt), name: None }));
    m.push(Message::User(UserMessage { content: UserContent::Text(routing_prompt), name: None }));
    m
}

/// `i` is the first position of `c` in `s`.
pub open spec fn first_index_of(s: Seq<char>, c: char, i: int) -> bool {
    0 <= i < s.len() && s[i] == c && forall|j: int| 0 <= j < i ==> s[j] != c
}

/// `i` is the last position of `c` in `s`.
pub open spec fn last_index_of(s: Seq<char>, c: char, i: int) -> bool {
    0 <= i < s.len() && s[i] == c && forall|j: int| i < j < s.len() ==> s[j] != c
}

/// The string field `key` of the JSON value in `text`, when `text` parses as
/// JSON (`serde_json::from_str`) and has such a field holding a string.
pub uninterp spec fn json_string_field(text: Seq<char>, key: Seq<char>) -> Option<Seq<char>>;

/// The field of the routing reply that names the model.
pub open spec fn json_model_field(text: Seq<char>) -> Option<Seq<char>> {
    json_string_field(text, "model"@)
}

/// Parses `text` as a JSON value with `serde_json` and returns its field
/// `key` (`Value::get`) when that is a `Value::String`.  The result is a
/// function of the two texts alone.
#[verifier::external_body]
fn json_string_field_of(text: &str, key: &str) -> (r: Option<String>)
    ensures
        r matches Some(s) ==> json_string_field(text@, key@) == Some(s@),
        r is None ==> json_string_field(text@, key@) is None,
{
    let value: serde_json::Value = match serde_json::from_str(text) {
        Ok(v) => v,
        Err(_) => return None,
    };
    match value.get(key) {
        Some(serde_json::Value::String(s)) => Some(s.clone()),
        _ => None,
    }
}

/// The span from the first `{` to the last `}` of `text`, when both exist
/// and in that order.
pub open spec fn brace_span(text: Seq<char>) -> Option<Seq<char>> {
    if exists|i: int, j: int| first_index_of(text, '{', i) && last_index_of(text, '}', j) && i <= j {
        let (i, j) = choose|i: int, j: int| first_index_of(text, '{', i) && last_index_of(text, '}', j) && i <= j;
        Some(text.subrange(i, j + 1))
    } else {
        None
    }
}

fn find_char(text: &str, c: char) -> (r: Option<usize>)
    ensures
        r matches Some(i) ==> first_index_of(text@, c, i as int),
        r is None ==> forall|j: int| 0 <= j < text@.len() ==> text@[j] != c,
{
    let n = text.unicode_len();
    let mut i: usize = 0;
    while i < n
        invariant
            n == text@.len(),
            i <= n,
            forall|j: int| 0 <= j < i ==> text@[j] != c,
        decreases n - i,
    {
        if text.get_char(i) == c {
            return Some(i);
        }
        i = i + 1;
    }
    None
}

fn rfind_char(text: &str, c: char) -> (r: Option<usize>)
    ensures
        text@.len() <= usize::MAX,
        r matches Some(i) ==> last_index_of(text@, c, i as int),
        r is None ==> forall|j: int| 0 <= j < text@.len() ==> text@[j] != c,
{
    let n = text.unicode_len();
    let mut i: usize = n;
    while i > 0
        invariant
            n == text@.len(),
            i <= n,
            forall|j: int| i <= j < n ==> text@[j] != c,
        decreases i,
    {
        if text.get_char(i - 1) == c {
            return Some(i - 1);
        }
        i = i - 1;
    }
    None
}

/// The outermost `{…}` span of a reply.
pub fn reply_json_span(text: &str) -> (r: Option<String>)
    ensures
        r matches Some(s) ==> brace_span(text@) == Some(s@),
        r is None ==> brace_span(text@) is None,
{
    let start = match find_char(text, '{') {
        Some(i) => i,
        None => {
            proof {
                assert forall|i: int, j: int| !(first_index_of(text@, '{', i) && last_index_of(text@, '}', j) && i <= j) by {}
            }
            return None;
        },
    };
    let end = match rfind_char(text, '}') {
        Some(j) => j,
        None => {
            proof {
                assert forall|i: int, j: int| !(first_index_of(text@, '{', i) && last_index_of(text@, '}', j) && i <= j) by {}
            }
            return None;
        },
    };
    proof {
        assert forall|i: int, j: int| first_index_of(text@, '{', i) && last_index_of(text@, '}', j) implies i == start && j == end by {
            if i < start { assert(text@[i] != '{'); }
            if start < i { assert(text@[start as int] != '{'); }
            if j < end { assert(text@[end as int] != '}'); }
            if end < j { assert(text@[j] != '}'); }
        }
    }
    if end < start {
        return None;
    }
    let span = text.substring_char(start, end + 1);
    proof {
        assert(first_index_of(text@, '{', start as int) && last_index_of(text@, '}', end as int) && start <= end);
    }
    Some(String::from_str(span))
}

/// The model named by a classifier's reply: the `model` field of the reply's
/// outermost `{…}` span.
pub fn parse_model_from_response(text: &str) -> (r: Option<String>)
    ensures
        brace_span(text@) is None ==> r is None,
        brace_span(text@) matches Some(span) ==> (match json_model_field(span) {
            Some(m) => r matches Some(s) && s@ == m,
            None => r is None,
        }),
{
    match reply_json_span(text) {
        None => None,
        Some(span) => json_string_field_of(span.as_str(), "model"),
    }
}

/// Whether `name` is one of `models`.
pub open spec fn names_contain(models: Seq<String>, name: Seq<char>) -> bool {
    exists|i: int| 0 <= i < models.len() && (#[trigger] models[i])@ == name
}

/// Keep a proposed model only when it is one of the available models.
pub fn filter_available(model: Option<String>, available: &[String]) -> (r: Option<String>)
    ensures
        model matches Some(m) && names_contain(available@, m@) ==> r == model,
        !(model matches Some(m) && names_contain(available@, m@)) ==> r is None,
{
    match model {
        None => None,
        Some(m) => {
            let mut i: usize = 0;
            while i < available.len()
                invariant
                    i <= available@.len(),
                    model == Some(m),
                    forall|j: int| 0 <= j < i ==> (#[trigger] available@[j])@ != m@,
                decreases available@.len() - i,
            {
                if str_eq(available[i].as_str(), m.as_str()) {
                    proof {
                        assert((available@[i as int])@ == m@);
                        assert(names_contain(available@, m@));
                    }
                    return Some(m);
                }
                i = i + 1;
            }
            None
        },
    }
}

/// The routing decision drawn from a classifier reply (the text of its
/// first choice, if any): the parsed model when it is available.
pub fn model_from_reply(reply: Option<&str>, available: &[String]) -> (r: Option<String>)
    ensures
        reply is None ==> r is None,
        reply matches Some(t) ==> (match brace_span(t@) {
            None => r is None,
            Some(span) => match json_model_field(span) {
                Some(m) => if names_contain(available@, m) { r matches Some(s) && s@ == m } else { r is None },
                None => r is None,
            },
        }),
{
    match reply {
        None => None,
        Some(t) => filter_available(parse_model_from_response(t), available),
    }
}

/// Classifier that asks a model to choose.
pub struct LlmClassifier<C> {
    client: Arc<C>,
    model: String,
    system_prompt: String,
}

impl<C> LlmClassifier<C> {
    /// The classifying model.
    pub closed spec fn spec_model(&self) -> Seq<char> {
        self.model@
    }

    /// The system prompt sent with each classification.
    pub closed spec fn spec_system_prompt(&self) -> Seq<char> {
        self.system_prompt@
    }

    /// The client.
    pub closed spec fn spec_client(&self) -> C {
        *self.client
    }

    /// A classifier using `client` and `model`.
    pub fn new(client: Arc<C>, model: String, system_prompt: String) -> (c: Self)
        ensures
            c.spec_client() == *client,
            c.spec_model() == model@,
            c.spec_system_prompt() == system_prompt@,
    {
        LlmClassifier { client, model, system_prompt }
    }

    /// The classifying model.
    pub fn model(&self) -> (s: &str)
        ensures
            s@ == self.spec_model(),
    {
        self.model.as_str()
    }

    /// The messages of the classification request for `ctx`.
    pub fn request_messages(&self, ctx: &ClassifyContext) -> (m: Vec<Message>)
        ensures
            m@.len() == 2,
            m@[0] matches Message::System(sm) && sm.content@ == self.spec_system_prompt() && sm.name is None,
            m@[1] matches Message::User(um) && um.name is None
                && (um.content matches UserContent::Text(t)
                && t@ == routing_prompt_text(names_of(ctx.available_models@), ctx.prompt@)),
    {
        routing_messages(self.system_prompt.as_str(), build_routing_prompt(ctx))
    }

    /// The client.
    pub fn client(&self) -> (c: &Arc<C>)
        ensures
            **c == self.spec_client(),
    {
        &self.client
    }
}

/// `regex::Regex`, a compiled regular expression.
#[verifier::external_type_specification]
#[verifier::external_body]
pub struct ExRegex(Regex);

/// Whether the compiled expression `re` matches somewhere in `text`.
pub uninterp spec fn regex_matches(re: Regex, text: Seq<char>) -> bool;

/// `Regex::is_match`: whether the expression matches somewhere in `text`.
/// The answer depends on the compiled expression (its pattern and the
/// options it was built with) and the text alone, and is named by
/// [`regex_matches`].
#[verifier::external_body]
fn regex_is_match(re: &Regex, text: &str) -> (b: bool)
    ensures
        b == regex_matches(*re, text@),
{
    re.is_match(text)
}

/// Classifier that routes on the first matching keyword rule.
pub struct KeywordClassifier {
    rules: Vec<(Regex, String)>,
}

impl KeywordClassifier {
    /// The models of the rules, in order.
    pub closed spec fn spec_models(&self) -> Seq<Seq<char>> {
        self.rules@.map_values(|r: (Regex, String)| r.1@)
    }

    /// The expressions of the rules, in order.
    pub closed spec fn spec_regexes(&self) -> Seq<Regex> {
        self.rules@.map_values(|r: (Regex, String)| r.0)
    }

    /// Whether rule `i`'s expression matches `text`.
    pub open spec fn rule_matches(&self, i: int, text: Seq<char>) -> bool {
        regex_matches(self.spec_regexes()[i], text)
    }

    /// A classifier over `rules`, tried in order.
    pub fn new(rules: Vec<(Regex, String)>) -> (c: Self)
        ensures
            c.spec_models() == rules@.map_values(|r: (Regex, String)| r.1@),
            c.spec_regexes() == rules@.map_values(|r: (Regex, String)| r.0),
    {
        KeywordClassifier { rules }
    }

    /// Given whether each of the first `hits.len()` rules matched, the model
    /// of the first rule that did, or `None` when none of them did.
    pub fn first_hit_model(&self, hits: &Vec<bool>) -> (r: Option<String>)
        requires
            hits@.len() <= self.spec_models().len(),
        ensures
            r is Some <==> exists|i: int| 0 <= i < hits@.len() && hits@[i],
            r matches Some(m) ==> exists|i: int| 0 <= i < hits@.len() && hits@[i]
                && (forall|j: int| 0 <= j < i ==> !#[trigger] hits@[j]) && m@ == self.spec_models()[i],
    {
        let mut i: usize = 0;
        while i < hits.len()
            invariant
                i <= hits@.len(),
                hits@.len() <= self.spec_models().len(),
                self.spec_models().len() == self.rules@.len(),
                forall|j: int| 0 <= j < i ==> !#[trigger] hits@[j],
            decreases hits@.len() - i,
        {
            if hits[i] {
                let m = self.rules[i].1.clone();
                proof {
                    assert(self.spec_models()[i as int] == m@);
                }
                return Some(m);
            }
            i = i + 1;
        }
        None
    }

    /// The model of the first rule whose expression matches the prompt;
    /// `None` when no rule matches (or there is none).  Rules are tried in
    /// order and the first match stops the search.
    pub fn classify(&self, ctx: &ClassifyContext) -> (r: Option<String>)
        ensures
            r is Some <==> exists|i: int| 0 <= i < self.spec_models().len() && #[trigger] self.rule_matches(i, ctx.prompt@),
            r matches Some(m) ==> exists|i: int| 0 <= i < self.spec_models().len() && #[trigger] self.rule_matches(i, ctx.prompt@)
                && (forall|j: int| 0 <= j < i ==> !#[trigger] self.rule_matches(j, ctx.prompt@))
                && m@ == self.spec_models()[i],
    {
        let mut hits: Vec<bool> = Vec::new();
        let mut i: usize = 0;
        let mut found = false;
        while i < self.rules.len() && !found
            invariant
                i <= self.rules@.len(),
                hits@.len() == i,
                self.spec_models().len() == self.rules@.len(),
                self.spec_regexes().len() == self.rules@.len(),
                forall|j: int| 0 <= j < i ==> #[trigger] hits@[j] == self.rule_matches(j, ctx.prompt@),
                found ==> i > 0 && hits@[i - 1],
                forall|j: int| 0 <= j < i && (!found || j < i - 1) ==> !#[trigger] hits@[j],
            decreases self.rules@.len() - i,
        {
            let hit = regex_is_match(&self.rules[i].0, ctx.prompt);
            proof {
                assert(self.spec_regexes()[i as int] == self.rules@[i as int].0);
            }
            hits.push(hit);
            i = i + 1;
            found = hit;
        }
        let r = self.first_hit_model(&hits);
        proof {
            if found {
                assert(self.rule_matches(i - 1, ctx.prompt@));
            } else {
                assert(i == self.rules@.len());
                assert forall|k: int| 0 <= k < self.spec_models().len() implies !#[trigger] self.rule_matches(k, ctx.prompt@) by {
                    assert(!hits@[k]);
                }
            }
            if r is Some {
                let m = r->0;
                let k = choose|k: int| 0 <= k < hits@.len() && hits@[k]
                    && (forall|j: int| 0 <= j < k ==> !#[trigger] hits@[j]) && m@ == self.spec_models()[k];
                assert(self.rule_matches(k, ctx.prompt@));
                assert forall|j: int| 0 <= j < k implies !#[trigger] self.rule_matches(j, ctx.prompt@) by {
                    assert(!hits@[j]);
                }
            }
        }
        r
    }
}

/// `DefaultHasher` hash of the prompt followed by the optional system prompt.
pub uninterp spec fn default_prompt_hash(prompt: Seq<char>, system_prompt: Option<Seq<char>>) -> u64;

/// Hashes `(prompt, system_prompt)` with the default hasher (`hash_one` of
/// `BuildHasherDefault<DefaultHasher>`, i.e. each part hashed in order).
/// The value is a function of the two texts.
#[verifier::external_body]
fn prompt_hash(prompt: &str, system_prompt: Option<&str>) -> (h: u64)
    ensures
        h == default_prompt_hash(prompt@, match system_prompt { Some(s) => Some(s@), None => None }),
{
    std::hash::BuildHasherDefault::<std::hash::DefaultHasher>::default().hash_one((prompt, system_prompt))
}

/// A remembered verdict.
pub struct VerdictEntry {
    /// The chosen model.
    pub model: String,
    /// When it was stored.
    pub inserted_at_ms: u64,
}

/// How long a remembered choice stays valid, in milliseconds (an hour).
pub const DEFAULT_VERDICT_TTL_MS: u64 = 3_600_000;

/// A verdict is stale once more than the TTL has elapsed since it was stored.
pub open spec fn verdict_expired(e: VerdictEntry, ttl_ms: u64, now: u64) -> bool {
    (if now >= e.inserted_at_ms { now - e.inserted_at_ms } else { 0 }) > ttl_ms
}

/// Caches the verdicts of an inner classifier, keyed by prompt and system prompt.
pub struct ClassifierVerdictCache<C> {
    inner: C,
    ttl_ms: u64,
    cache: HashMapWithView<u64, VerdictEntry>,
}

impl<C> ClassifierVerdictCache<C> {
    /// The inner classifier.
    pub closed spec fn spec_inner(&self) -> C {
        self.inner
    }

    /// Lifetime of a verdict.
    pub closed spec fn spec_ttl_ms(&self) -> u64 {
        self.ttl_ms
    }

    /// Stored verdicts by key.
    pub closed spec fn spec_cache(&self) -> Map<u64, VerdictEntry> {
        self.cache@
    }

    /// A cache with the default one-hour TTL.
    pub fn new(inner: C) -> (c: Self)
        ensures
            c.spec_inner() == inner,
            c.spec_ttl_ms() == DEFAULT_VERDICT_TTL_MS,
            c.spec_cache() == Map::<u64, VerdictEntry>::empty(),
    {
        Self::with_ttl(inner, DEFAULT_VERDICT_TTL_MS)
    }

    /// A cache with an explicit TTL.
    pub fn with_ttl(inner: C, ttl_ms: u64) -> (c: Self)
        ensures
            c.spec_inner() == inner,
            c.spec_ttl_ms() == ttl_ms,
            c.spec_cache() == Map::<u64, VerdictEntry>::empty(),
    {
        ClassifierVerdictCache { inner, ttl_ms, cache: HashMapWithView::new() }
    }

    /// The inner classifier.
    pub fn inner(&self) -> (c: &C)
        ensures
            *c == self.spec_inner(),
    {
        &self.inner
    }

    /// The cache key of a classification context.
    pub fn cache_key(ctx: &ClassifyContext) -> (k: u64)
        ensures
            k == default_prompt_hash(ctx.prompt@, match ctx.system_prompt { Some(s) => Some(s@), None => None }),
    {
        prompt_hash(ctx.prompt, ctx.system_prompt)
    }

    /// The live verdict for `key` at `now_ms`.
    pub fn get_cached(&self, key: u64, now_ms: u64) -> (r: Option<String>)
        ensures
            (self.spec_cache().contains_key(key) && !verdict_expired(self.spec_cache()[key], self.spec_ttl_ms(), now_ms))
                ==> (r matches Some(m) && m@ == self.spec_cache()[key].model@),
            !(self.spec_cache().contains_key(key) && !verdict_expired(self.spec_cache()[key], self.spec_ttl_ms(), now_ms))
                ==> r is None,
    {
        match self.cache.get(&key) {
            None => None,
            Some(e) => {
                if now_ms.saturating_sub(e.inserted_at_ms) > self.ttl_ms {
                    None
                } else {
                    Some(e.model.clone())
                }
            },
        }
    }

    /// Remember `model` for `key` from `now_ms` on.
    pub fn put_cached(&mut self, key: u64, model: String, now_ms: u64)
        ensures
            final(self).spec_cache() == old(self).spec_cache().insert(key, VerdictEntry { model, inserted_at_ms: now_ms }),
            final(self).spec_inner() == old(self).spec_inner(),
            final(self).spec_ttl_ms() == old(self).spec_ttl_ms(),
    {
        self.cache.insert(key, VerdictEntry { model, inserted_at_ms: now_ms });
    }

    /// After the inner classifier answered: a verdict is remembered and
    /// returned; no verdict is returned as such and nothing is stored.
    pub fn record_verdict(&mut self, key: u64, verdict: Option<String>, now_ms: u64) -> (r: Option<String>)
        ensures
            r == verdict,
            verdict matches Some(m) ==> final(self).spec_cache().contains_key(key)
                && final(self).spec_cache()[key].model@ == m@ && final(self).spec_cache()[key].inserted_at_ms == now_ms,
            verdict is None ==> final(self).spec_cache() == old(self).spec_cache(),
            final(self).spec_inner() == old(self).spec_inner(),
            final(self).spec_ttl_ms() == old(self).spec_ttl_ms(),
    {
        match verdict {
            Some(m) => {
                let stored = m.clone();
                self.put_cached(key, stored, now_ms);
                Some(m)
            },
            None => None,
        }
    }
}

/// A verdict read back within its TTL is the one that was stored.
pub proof fn law_verdict_read_after_write(m: Map<u64, VerdictEntry>, key: u64, model: String, t: u64, ttl: u64, now: u64)
    requires
        t <= now,
        now - t <= ttl,
    ensures
        m.insert(key, VerdictEntry { model, inserted_at_ms: t }).contains_key(key),
        !verdict_expired(m.insert(key, VerdictEntry { model, inserted_at_ms: t })[key], ttl, now),
        m.insert(key, VerdictEntry { model, inserted_at_ms: t })[key].model@ == model@,
{
}

/// A stored verdict read back more than its TTL after it was stored has
/// expired, so the inner classifier is asked again.
pub proof fn law_verdict_expires_after_ttl(m: Map<u64, VerdictEntry>, key: u64, model: String, t: u64, ttl: u64, now: u64)
    requires
        t <= now,
        now - t > ttl,
    ensures
        m.insert(key, VerdictEntry { model, inserted_at_ms: t }).contains_key(key),
        verdict_expired(m.insert(key, VerdictEntry { model, inserted_at_ms: t })[key], ttl, now),
{
}

/// Next move of a cascade of classifiers.
#[derive(Debug, Clone, PartialEq, Eq)]
pub enum CascadeStep {
    /// Ask the classifier at this position.
    Ask(usize),
    /// The cascade is over with this verdict.
    Answer(Option<String>),
}

/// First move of a cascade of `len` classifiers: ask the first, or answer
/// no verdict when there is none.
pub fn cascade_start(len: usize) -> (s: CascadeStep)
    ensures
        len > 0 ==> s == CascadeStep::Ask(0),
        len == 0 ==> s == CascadeStep::Answer(None),
{
    if len == 0 { CascadeStep::Answer(None) } else { CascadeStep::Ask(0) }
}

/// Move after classifier `index` of `len` gave `verdict`: a verdict ends the
/// cascade with it; no verdict asks the next classifier, or ends the
/// cascade without a verdict after the last one.
pub fn cascade_next(verdict: Option<String>, index: usize, len: usize) -> (s: CascadeStep)
    requires
        index < len,
    ensures
        s == spec_cascade_next(verdict, index as nat, len as nat),
{
    match verdict {
        Some(m) => CascadeStep::Answer(Some(m)),
        None => if index + 1 < len { CascadeStep::Ask(index + 1) } else { CascadeStep::Answer(None) },
    }
}

/// The move after classifier `index` of `len` gave `verdict`.
pub open spec fn spec_cascade_next(verdict: Option<String>, index: nat, len: nat) -> CascadeStep {
    if verdict is Some {
        CascadeStep::Answer(verdict)
    } else if index + 1 < len {
        CascadeStep::Ask((index + 1) as usize)
    } else {
        CascadeStep::Answer(None)
    }
}

/// The verdict a cascade reaches from position `i` when its classifiers
/// answer `verdicts`, moving as [`cascade_next`] does.
pub open spec fn cascade_from(verdicts: Seq<Option<String>>, i: int) -> Option<String>
    decreases verdicts.len() - i,
{
    if i < 0 || i >= verdicts.len() {
        None
    } else {
        match spec_cascade_next(verdicts[i], i as nat, verdicts.len()) {
            CascadeStep::Answer(v) => v,
            CascadeStep::Ask(j) => if j == i + 1 { cascade_from(verdicts, i + 1) } else { None },
        }
    }
}

/// A cascade answers with the first classifier's verdict that is present,
/// and with no verdict when none is.
pub proof fn law_cascade_first_verdict(verdicts: Seq<Option<String>>, k: int)
    requires
        verdicts.len() <= usize::MAX,
        0 <= k <= verdicts.len(),
        forall|j: int| 0 <= j < k ==> #[trigger] verdicts[j] is None,
        k < verdicts.len() ==> verdicts[k] is Some,
    ensures
        cascade_from(verdicts, 0) == (if k < verdicts.len() { verdicts[k] } else { None }),
{
    lemma_cascade_skips(verdicts, 0, k);
}

proof fn lemma_cascade_skips(verdicts: Seq<Option<String>>, i: int, k: int)
    requires
        verdicts.len() <= usize::MAX,
        0 <= i <= k <= verdicts.len(),
        forall|j: int| i <= j < k ==> #[trigger] verdicts[j] is None,
        k < verdicts.len() ==> verdicts[k] is Some,
    ensures
        cascade_from(verdicts, i) == (if k < verdicts.len() { verdicts[k] } else { None }),
    decreases k - i,
{
    if i < k {
        lemma_cascade_skips(verdicts, i + 1, k);
    }
}

} // verus!

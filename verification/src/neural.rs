//! The model-facing side of the pipeline: client configuration, the prompts sent to a chat
//! completion endpoint, and how its JSON replies become facts and plan drafts.
use vstd::prelude::*;

use crate::error::Error;
use crate::json::{parse_json, parsed_json, Json, JsonItems, JsonMembers, JsonView};
use crate::text::{debug_rendering, owned, render_debug_list, texts};
use crate::types::{CostClass, CostEstimate, Facts, PlanDraft, PlannedStep};

verus! {

/// Where and how to reach an OpenAI-compatible chat completion endpoint.
pub struct OpenAiConfig {
    pub api_key: String,
    pub model: String,
    pub base_url: String,
}

impl Clone for OpenAiConfig {
    fn clone(&self) -> (res: OpenAiConfig)
        ensures
            res == *self,
    {
        OpenAiConfig {
            api_key: self.api_key.clone(),
            model: self.model.clone(),
            base_url: self.base_url.clone(),
        }
    }
}

#[verifier::external_type_specification]
#[verifier::external_body]
pub struct ExHttpClient(reqwest::Client);

/// Calls `reqwest::Client::builder().build()`: a client with default settings, or the text
/// of the error it reports (a TLS backend that cannot be initialized, or a resolver that
/// cannot load the system configuration). Nothing is stated of the client or of when the
/// build fails.
#[verifier::external_body]
fn http_client() -> (res: Result<reqwest::Client, String>) {
    reqwest::Client::builder().build().map_err(|error| error.to_string())
}

/// Calls `getrandom::fill` on 16 bytes: the random bytes it wrote, or the text of the error it
/// reports. Nothing is stated of the bytes or of when it fails.
#[verifier::external_body]
fn random_bytes() -> (res: Result<[u8; 16], String>) {
    let mut bytes = [0u8; 16];
    match getrandom::fill(&mut bytes) {
        Ok(()) => Ok(bytes),
        Err(error) => Err(error.to_string()),
    }
}

/// The value of bytes read as one big-endian number.
pub open spec fn big_endian(bytes: Seq<u8>) -> nat
    decreases bytes.len(),
{
    if bytes.len() == 0 {
        0
    } else {
        big_endian(bytes.drop_last()) * 256 + bytes.last() as nat
    }
}

/// Random bytes with the version 4 and RFC 4122 variant bits set, as
/// `uuid::Builder::from_random_bytes` sets them: the high nibble of byte 6 becomes 4, and the
/// two high bits of byte 8 become `10`.
pub open spec fn v4_bytes(bytes: Seq<u8>) -> Seq<u8> {
    bytes.update(6, ((bytes[6] & 0x0f) | 0x40) as u8).update(8, ((bytes[8] & 0x3f) | 0x80) as u8)
}

/// Whether `key` is the 128-bit value of a version 4 UUID made from some 16 random bytes.
pub open spec fn is_v4_key(key: u128) -> bool {
    exists|bytes: Seq<u8>| bytes.len() == 16 && #[trigger] big_endian(v4_bytes(bytes)) == key as nat
}

/// Calls `uuid::Builder::from_random_bytes(bytes).into_uuid().as_u128()`: the bytes with the
/// version and variant bits set, read big-endian (`Uuid::as_u128` is `u128::from_be_bytes`).
#[verifier::external_body]
fn v4_key(bytes: [u8; 16]) -> (res: u128)
    ensures
        res as nat == big_endian(v4_bytes(bytes@)),
{
    uuid::Builder::from_random_bytes(bytes).into_uuid().as_u128()
}

/// Whether `text` begins with `prefix`.
pub open spec fn starts_with(text: Seq<char>, prefix: Seq<char>) -> bool {
    prefix.len() <= text.len() && text.take(prefix.len() as int) == prefix
}

/// The message of an inference error for a random source that failed.
pub open spec fn is_random_failure(message: Seq<char>) -> bool {
    starts_with(message, "could not retrieve random bytes for uuid: "@)
}

/// The message of an inference error for an HTTP client that could not be built.
pub open spec fn is_client_failure(message: Seq<char>) -> bool {
    starts_with(message, "HTTP client could not be built: "@)
}

/// `prefix` followed by `rest` begins with `prefix`.
proof fn lemma_starts_with(prefix: Seq<char>, rest: Seq<char>)
    ensures
        starts_with(prefix + rest, prefix),
{
    assert((prefix + rest).take(prefix.len() as int) =~= prefix);
}

/// A fresh random idempotency key: a version 4 UUID; an inference error when no random bytes
/// can be had.
fn fresh_key() -> (res: Result<u128, Error>)
    ensures
        res matches Ok(key) ==> is_v4_key(key),
        res is Err ==> (res matches Err(Error::Inference(m)) && is_random_failure(m@)),
{
    match random_bytes() {
        Ok(bytes) => {
            let key = v4_key(bytes);
            assert(bytes@.len() == 16);
            assert(big_endian(v4_bytes(bytes@)) == key as nat);
            Ok(key)
        },
        Err(why) => {
            let mut message = owned("could not retrieve random bytes for uuid: ");
            message.append(why.as_str());
            proof {
                lemma_starts_with("could not retrieve random bytes for uuid: "@, why@);
            }
            Err(Error::Inference(message))
        },
    }
}

/// The HTTP and authentication layer shared by the OpenAI-compatible adapters.
pub struct OpenAiClient {
    config: OpenAiConfig,
    http: reqwest::Client,
}

impl OpenAiClient {
    /// The configuration the client was made with.
    pub closed spec fn spec_config(&self) -> OpenAiConfig {
        self.config
    }

    /// A client that authenticates with the configured key; refused when the key is empty,
    /// and an inference error when the HTTP client cannot be built.
    pub fn new(config: OpenAiConfig) -> (res: Result<OpenAiClient, Error>)
        ensures
            config.api_key@.len() == 0 ==> (res matches Err(Error::Inference(m)) && m@
                == "OPENAI_API_KEY not set"@),
            config.api_key@.len() != 0 ==> (res matches Ok(client) ==> client.spec_config()
                == config),
            config.api_key@.len() != 0 ==> (res is Err ==> (res matches Err(Error::Inference(m))
                && is_client_failure(m@))),
            res is Err ==> res matches Err(Error::Inference(_)),
    {
        if config.api_key.as_str().is_empty() {
            return Err(Error::Inference(owned("OPENAI_API_KEY not set")));
        }
        OpenAiClient::new_unauthenticated(config)
    }

    /// A client for providers that need no key, such as Ollama; an inference error when the
    /// HTTP client cannot be built.
    pub fn new_unauthenticated(config: OpenAiConfig) -> (res: Result<OpenAiClient, Error>)
        ensures
            res matches Ok(client) ==> client.spec_config() == config,
            res is Err ==> (res matches Err(Error::Inference(m)) && is_client_failure(m@)),
    {
        match http_client() {
            Ok(http) => Ok(OpenAiClient { config, http }),
            Err(why) => {
                let mut message = owned("HTTP client could not be built: ");
                message.append(why.as_str());
                proof {
                    lemma_starts_with("HTTP client could not be built: "@, why@);
                }
                Err(Error::Inference(message))
            },
        }
    }

    /// The configuration the client was made with.
    pub fn config(&self) -> (res: &OpenAiConfig)
        ensures
            *res == self.spec_config(),
    {
        &self.config
    }

    /// The HTTP client the client was made with.
    pub closed spec fn spec_http(&self) -> reqwest::Client {
        self.http
    }

    /// The HTTP client requests go through: the one the client was made with.
    pub fn http(&self) -> (res: &reqwest::Client)
        ensures
            *res == self.spec_http(),
    {
        &self.http
    }
}

/// Extracts facts through an OpenAI chat model.
pub struct OpenAiFactExtractor {
    client: OpenAiClient,
}

impl OpenAiFactExtractor {
    pub closed spec fn spec_config(&self) -> OpenAiConfig {
        self.client.spec_config()
    }

    /// An extractor for `config`; refused when its API key is empty.
    pub fn new(config: OpenAiConfig) -> (res: Result<OpenAiFactExtractor, Error>)
        ensures
            config.api_key@.len() == 0 ==> (res matches Err(Error::Inference(m)) && m@
                == "OPENAI_API_KEY not set"@),
            config.api_key@.len() != 0 ==> (res matches Ok(e) ==> e.spec_config() == config),
            config.api_key@.len() != 0 ==> (res is Err ==> (res matches Err(Error::Inference(m))
                && is_client_failure(m@))),
            res is Err ==> res matches Err(Error::Inference(_)),
    {
        match OpenAiClient::new(config) {
            Ok(client) => Ok(OpenAiFactExtractor { client }),
            Err(e) => Err(e),
        }
    }

    pub fn client(&self) -> (res: &OpenAiClient)
        ensures
            res.spec_config() == self.spec_config(),
    {
        &self.client
    }
}

/// Proposes plans through an OpenAI chat model.
pub struct OpenAiProposalEngine {
    client: OpenAiClient,
}

impl OpenAiProposalEngine {
    pub closed spec fn spec_config(&self) -> OpenAiConfig {
        self.client.spec_config()
    }

    /// An engine for `config`; refused when its API key is empty.
    pub fn new(config: OpenAiConfig) -> (res: Result<OpenAiProposalEngine, Error>)
        ensures
            config.api_key@.len() == 0 ==> (res matches Err(Error::Inference(m)) && m@
                == "OPENAI_API_KEY not set"@),
            config.api_key@.len() != 0 ==> (res matches Ok(e) ==> e.spec_config() == config),
            config.api_key@.len() != 0 ==> (res is Err ==> (res matches Err(Error::Inference(m))
                && is_client_failure(m@))),
            res is Err ==> res matches Err(Error::Inference(_)),
    {
        match OpenAiClient::new(config) {
            Ok(client) => Ok(OpenAiProposalEngine { client }),
            Err(e) => Err(e),
        }
    }

    pub fn client(&self) -> (res: &OpenAiClient)
        ensures
            res.spec_config() == self.spec_config(),
    {
        &self.client
    }
}

/// Extracts facts through a local Ollama model, without authentication.
pub struct OllamaFactExtractor {
    client: OpenAiClient,
}

impl OllamaFactExtractor {
    pub closed spec fn spec_config(&self) -> OpenAiConfig {
        self.client.spec_config()
    }

    /// An adapter for `config`; an inference error when the HTTP client cannot be built.
    pub fn new(config: OpenAiConfig) -> (res: Result<OllamaFactExtractor, Error>)
        ensures
            res matches Ok(e) ==> e.spec_config() == config,
            res is Err ==> (res matches Err(Error::Inference(m)) && is_client_failure(m@)),
    {
        match OpenAiClient::new_unauthenticated(config) {
            Ok(client) => Ok(OllamaFactExtractor { client }),
            Err(e) => Err(e),
        }
    }

    pub fn client(&self) -> (res: &OpenAiClient)
        ensures
            res.spec_config() == self.spec_config(),
    {
        &self.client
    }
}

/// Proposes plans through a local Ollama model, without authentication.
pub struct OllamaProposalEngine {
    client: OpenAiClient,
}

impl OllamaProposalEngine {
    pub closed spec fn spec_config(&self) -> OpenAiConfig {
        self.client.spec_config()
    }

    /// An adapter for `config`; an inference error when the HTTP client cannot be built.
    pub fn new(config: OpenAiConfig) -> (res: Result<OllamaProposalEngine, Error>)
        ensures
            res matches Ok(e) ==> e.spec_config() == config,
            res is Err ==> (res matches Err(Error::Inference(m)) && is_client_failure(m@)),
    {
        match OpenAiClient::new_unauthenticated(config) {
            Ok(client) => Ok(OllamaProposalEngine { client }),
            Err(e) => Err(e),
        }
    }

    pub fn client(&self) -> (res: &OpenAiClient)
        ensures
            res.spec_config() == self.spec_config(),
    {
        &self.client
    }
}

/// The prior-context section of a proposal prompt: empty unless there is a non-empty
/// summary.
pub open spec fn memory_section_text(summary: Option<String>) -> Seq<char> {
    match summary {
        Some(s) => if s@.len() > 0 {
            "\n\nPrior context:\n"@ + s@
        } else {
            Seq::empty()
        },
        None => Seq::empty(),
    }
}

/// The prior-context section of a proposal prompt.
pub fn memory_section(summary: &Option<String>) -> (res: String)
    ensures
        res@ == memory_section_text(*summary),
{
    match summary {
        Some(s) => {
            if s.as_str().is_empty() {
                String::new()
            } else {
                let mut r = owned("\n\nPrior context:\n");
                r.append(s.as_str());
                r
            }
        },
        None => String::new(),
    }
}

/// The prompt that asks for the entities and relations of an observation, given the
/// observation's payload as JSON text.
pub fn extraction_prompt(payload: &str) -> (res: String)
    ensures
        res@ == "Extract entities and relations from: "@ + payload@,
{
    let mut r = owned("Extract entities and relations from: ");
    r.append(payload);
    r
}

/// The prompt that asks for a plan for the entities, with the prior context if any.
pub fn proposal_prompt(entities: &Vec<String>, summary: &Option<String>) -> (res: String)
    ensures
        res@ == "Given these facts, propose a plan: "@ + debug_rendering(texts(entities@))
            + memory_section_text(*summary),
{
    let mut r = owned("Given these facts, propose a plan: ");
    let listed = render_debug_list(entities);
    r.append(listed.as_str());
    let section = memory_section(summary);
    r.append(section.as_str());
    r
}

/// The text of `data["choices"][0]["message"]["content"]`, when it is a string.
pub open spec fn response_content(data: Json) -> Option<Seq<char>> {
    match data.spec_field("choices"@) {
        Some(choices) => match choices.spec_items() {
            Some(items) => if items.len() > 0 {
                match items[0].spec_field("message"@) {
                    Some(message) => match message.spec_field("content"@) {
                        Some(content) => content.spec_text(),
                        None => None,
                    },
                    None => None,
                }
            } else {
                None
            },
            None => None,
        },
        None => None,
    }
}

/// The content of a chat completion reply; an inference error when it has none.
pub fn content_text(data: &Json) -> (res: Result<String, Error>)
    ensures
        match response_content(*data) {
            Some(text) => res matches Ok(s) && s@ == text,
            None => res matches Err(Error::Inference(m)) && m@
                == "LLM response missing content field"@,
        },
{
    let missing = Err(Error::Inference(owned("LLM response missing content field")));
    let choices = match data.field("choices") {
        Some(c) => c,
        None => return missing,
    };
    let items = match choices.as_items() {
        Some(items) => items,
        None => return missing,
    };
    let first = match items.get(0) {
        Some(first) => first,
        None => return missing,
    };
    let message = match first.field("message") {
        Some(m) => m,
        None => return missing,
    };
    let content = match message.field("content") {
        Some(c) => c,
        None => return missing,
    };
    match content.as_text() {
        Some(s) => Ok(s.clone()),
        None => missing,
    }
}

/// The texts of the string elements among `items`, in order; other elements are skipped.
pub open spec fn string_items(items: Seq<Json>) -> Seq<Seq<char>>
    decreases items.len(),
{
    if items.len() == 0 {
        Seq::empty()
    } else {
        let rest = string_items(items.drop_last());
        match items.last().spec_text() {
            Some(t) => rest.push(t),
            None => rest,
        }
    }
}

/// The entities named in parsed content: the strings of its `entities` array.
pub open spec fn content_entities(parsed: Json) -> Seq<Seq<char>> {
    match parsed.spec_field("entities"@) {
        Some(v) => match v.spec_items() {
            Some(items) => string_items(items),
            None => Seq::empty(),
        },
        None => Seq::empty(),
    }
}

/// The string elements of `items`, in order.
fn collect_strings(items: &JsonItems) -> (res: Vec<String>)
    ensures
        texts(res@) == string_items(items.spec_seq()),
{
    let mut res: Vec<String> = Vec::new();
    let mut cursor = items;
    let ghost all = items.spec_seq();
    let ghost mut seen: int = 0;
    loop
        invariant
            all == items.spec_seq(),
            0 <= seen <= all.len(),
            cursor.spec_seq() == all.subrange(seen, all.len() as int),
            texts(res@) == string_items(all.subrange(0, seen)),
        decreases all.len() - seen,
    {
        match cursor {
            JsonItems::End => {
                proof {
                    assert(cursor.spec_seq() =~= Seq::<Json>::empty());
                    assert(all.subrange(seen, all.len() as int).len() == 0);
                    assert(all.subrange(0, seen) =~= all);
                }
                return res;
            },
            JsonItems::Item(head, rest) => {
                proof {
                    let sub = all.subrange(seen, all.len() as int);
                    assert(cursor.spec_seq() == seq![**head] + rest.spec_seq());
                    assert(sub.len() == 1 + rest.spec_seq().len());
                    assert(sub.len() == all.len() - seen);
                    assert(sub[0] == **head);
                    assert forall|i: int| 0 <= i < rest.spec_seq().len() implies rest.spec_seq()[i] == all[seen + 1 + i] by {
                        assert(sub[i + 1] == rest.spec_seq()[i]);
                    }
                    assert(all[seen] == **head);
                    assert(all.subrange(0, seen + 1).drop_last() =~= all.subrange(0, seen));
                    assert(rest.spec_seq() =~= all.subrange(seen + 1, all.len() as int));
                }
                if let Some(s) = head.as_text() {
                    let ghost before = res@;
                    res.push(s.clone());
                    assert(texts(res@) =~= texts(before).push(s@));
                }
                cursor = &**rest;
                proof {
                    seen = seen + 1;
                }
            },
        }
    }
}

/// The facts named in parsed content: the strings of its `entities` array, and no
/// relations.
pub fn facts_from_content(parsed: &Json) -> (res: Facts)
    ensures
        texts(res.entities@) == content_entities(*parsed),
        res.relations@.len() == 0,
{
    let entities = match parsed.field("entities") {
        Some(v) => match v.as_items() {
            Some(items) => collect_strings(items),
            None => Vec::new(),
        },
        None => Vec::new(),
    };
    Facts { entities, relations: Vec::new() }
}

/// The step that a proposed step object becomes, keyed by `key`: its `action` string
/// (`unknown` when there is none), its `parameters` value (null when there is none), and a
/// neural cost estimate of no tokens.
pub open spec fn step_matches(step: PlannedStep, item: Json, key: u128) -> bool {
    &&& step.idempotency_key == key
    &&& step.action@ == match item.spec_field("action"@) {
        Some(a) => match a.spec_text() {
            Some(t) => t,
            None => "unknown"@,
        },
        None => "unknown"@,
    }
    &&& step.parameters == match item.spec_field("parameters"@) {
        Some(p) => p,
        None => Json::Null,
    }
    &&& step.estimated_cost == CostEstimate {
        class: Some(CostClass::Neural),
        input_tokens: 0,
        output_tokens: 0,
    }
}

/// The step that a proposed step object becomes, keyed by `key`.
pub fn planned_step_from(item: &Json, key: u128) -> (res: PlannedStep)
    ensures
        step_matches(res, *item, key),
{
    let action = match item.field("action") {
        Some(a) => match a.as_text() {
            Some(t) => t.clone(),
            None => owned("unknown"),
        },
        None => owned("unknown"),
    };
    let parameters = match item.field("parameters") {
        Some(p) => p.deep_clone(),
        None => Json::Null,
    };
    PlannedStep {
        idempotency_key: key,
        action,
        parameters,
        estimated_cost: CostEstimate { class: Some(CostClass::Neural), input_tokens: 0, output_tokens: 0 },
    }
}

/// The proposed step objects of parsed content: the elements of its `steps` array.
pub open spec fn content_steps(parsed: Json) -> Seq<Json> {
    match parsed.spec_field("steps"@) {
        Some(v) => match v.spec_items() {
            Some(items) => items,
            None => Seq::empty(),
        },
        None => Seq::empty(),
    }
}

/// The rationale of parsed content: its `rationale` string, or `LLM-generated plan`.
pub open spec fn content_rationale(parsed: Json) -> Seq<char> {
    match parsed.spec_field("rationale"@) {
        Some(r) => match r.spec_text() {
            Some(t) => t,
            None => "LLM-generated plan"@,
        },
        None => "LLM-generated plan"@,
    }
}

/// The draft that parsed content describes: one step per element of its `steps` array, in
/// order, each keyed by whatever key it was given, and the content's rationale.
pub open spec fn draft_matches(draft: PlanDraft, parsed: Json) -> bool {
    &&& draft.steps@.len() == content_steps(parsed).len()
    &&& forall|k: int| 0 <= k < draft.steps@.len() ==> step_matches(
        #[trigger] draft.steps@[k],
        content_steps(parsed)[k],
        draft.steps@[k].idempotency_key,
    )
    &&& forall|k: int| 0 <= k < draft.steps@.len() ==> is_v4_key(
        #[trigger] draft.steps@[k].idempotency_key,
    )
    &&& draft.rationale@ == content_rationale(parsed)
}

/// The cursor over `all` that has passed its first `seen` elements moves on to the next.
proof fn lemma_items_step(all: Seq<Json>, seen: int, head: Json, rest: Seq<Json>)
    requires
        0 <= seen < all.len(),
        seq![head] + rest == all.subrange(seen, all.len() as int),
    ensures
        all[seen] == head,
        rest == all.subrange(seen + 1, all.len() as int),
{
    let sub = all.subrange(seen, all.len() as int);
    assert(sub.len() == 1 + rest.len());
    assert(sub.len() == all.len() - seen);
    assert(sub[0] == head);
    assert forall|i: int| 0 <= i < rest.len() implies rest[i] == all[seen + 1 + i] by {
        assert(sub[i + 1] == rest[i]);
    }
    assert(rest =~= all.subrange(seen + 1, all.len() as int));
}

/// One random 16-byte draw per proposed step object; an inference error when the random
/// source fails.
fn draw_for_items(items: &JsonItems) -> (res: Result<Vec<[u8; 16]>, Error>)
    ensures
        res matches Ok(draws) ==> draws@.len() == items.spec_seq().len(),
        res is Err ==> (res matches Err(Error::Inference(m)) && is_random_failure(m@)),
        items.spec_seq().len() == 0 ==> res is Ok,
{
    let mut draws: Vec<[u8; 16]> = Vec::new();
    let mut cursor = items;
    let ghost all = items.spec_seq();
    let ghost mut seen: int = 0;
    loop
        invariant
            all == items.spec_seq(),
            0 <= seen <= all.len(),
            cursor.spec_seq() == all.subrange(seen, all.len() as int),
            draws@.len() == seen,
        decreases all.len() - seen,
    {
        match cursor {
            JsonItems::End => {
                proof {
                    assert(cursor.spec_seq() =~= Seq::<Json>::empty());
                    assert(all.subrange(seen, all.len() as int).len() == 0);
                }
                return Ok(draws);
            },
            JsonItems::Item(head, rest) => {
                proof {
                    assert(cursor.spec_seq() == seq![**head] + rest.spec_seq());
                    lemma_items_step(all, seen, **head, rest.spec_seq());
                }
                match random_bytes() {
                    Ok(bytes) => draws.push(bytes),
                    Err(why) => {
                        let mut message = owned("could not retrieve random bytes for uuid: ");
                        message.append(why.as_str());
                        proof {
                            lemma_starts_with("could not retrieve random bytes for uuid: "@, why@);
                        }
                        return Err(Error::Inference(message));
                    },
                }
                cursor = &**rest;
                proof {
                    seen = seen + 1;
                }
            },
        }
    }
}

/// One step per proposed step object, each keyed by the version 4 UUID made from the bytes
/// drawn for it.
pub fn steps_from_draws(items: &JsonItems, draws: &Vec<[u8; 16]>) -> (res: Vec<PlannedStep>)
    requires
        draws@.len() == items.spec_seq().len(),
    ensures
        res@.len() == items.spec_seq().len(),
        forall|k: int| 0 <= k < res@.len() ==> step_matches(
            #[trigger] res@[k],
            items.spec_seq()[k],
            res@[k].idempotency_key,
        ),
        forall|k: int| 0 <= k < res@.len() ==> (#[trigger] res@[k]).idempotency_key as nat
            == big_endian(v4_bytes(draws@[k]@)),
{
    let mut steps: Vec<PlannedStep> = Vec::new();
    let mut cursor = items;
    let ghost all = items.spec_seq();
    let mut seen: usize = 0;
    let count = draws.len();
    loop
        invariant
            all == items.spec_seq(),
            draws@.len() == all.len(),
            count == draws@.len(),
            0 <= seen <= all.len(),
            cursor.spec_seq() == all.subrange(seen as int, all.len() as int),
            steps@.len() == seen,
            forall|k: int| 0 <= k < seen ==> step_matches(
                #[trigger] steps@[k],
                all[k],
                steps@[k].idempotency_key,
            ),
            forall|k: int| 0 <= k < seen ==> (#[trigger] steps@[k]).idempotency_key as nat
                == big_endian(v4_bytes(draws@[k]@)),
        decreases all.len() - seen,
    {
        match cursor {
            JsonItems::End => {
                proof {
                    assert(cursor.spec_seq() =~= Seq::<Json>::empty());
                    assert(all.subrange(seen as int, all.len() as int).len() == 0);
                }
                return steps;
            },
            JsonItems::Item(head, rest) => {
                proof {
                    assert(cursor.spec_seq() == seq![**head] + rest.spec_seq());
                    lemma_items_step(all, seen as int, **head, rest.spec_seq());
                }
                let key = v4_key(draws[seen]);
                steps.push(planned_step_from(&**head, key));
                cursor = &**rest;
                seen = seen + 1;
            },
        }
    }
}

/// One step per proposed step object, each with a fresh random idempotency key; an
/// inference error when no random key can be had.
fn steps_from_items(items: &JsonItems) -> (res: Result<Vec<PlannedStep>, Error>)
    ensures
        items.spec_seq().len() == 0 ==> res is Ok,
        res is Err ==> (res matches Err(Error::Inference(m)) && is_random_failure(m@)),
        res matches Ok(steps) ==> {
            &&& steps@.len() == items.spec_seq().len()
            &&& forall|k: int| 0 <= k < steps@.len() ==> step_matches(
                #[trigger] steps@[k],
                items.spec_seq()[k],
                steps@[k].idempotency_key,
            )
            &&& forall|k: int| 0 <= k < steps@.len() ==> is_v4_key(#[trigger] steps@[k].idempotency_key)
        },
{
    match draw_for_items(items) {
        Ok(draws) => {
            let steps = steps_from_draws(items, &draws);
            assert forall|k: int| 0 <= k < steps@.len() implies is_v4_key(#[trigger] steps@[k].idempotency_key) by {
                assert(draws@[k]@.len() == 16);
                assert(big_endian(v4_bytes(draws@[k]@)) == steps@[k].idempotency_key as nat);
            }
            Ok(steps)
        },
        Err(e) => Err(e),
    }
}

/// The plan draft described by parsed content: one step per element of its `steps` array,
/// each with a fresh random idempotency key, and its rationale; an inference error when no
/// random key can be had, which cannot happen when there are no steps.
pub fn plan_draft_from_content(parsed: &Json) -> (res: Result<PlanDraft, Error>)
    ensures
        content_steps(*parsed).len() == 0 ==> res is Ok,
        res matches Ok(d) ==> draft_matches(d, *parsed),
        res is Err ==> (res matches Err(Error::Inference(m)) && is_random_failure(m@)),
{
    let steps = match parsed.field("steps") {
        Some(v) => match v.as_items() {
            Some(items) => match steps_from_items(items) {
                Ok(steps) => steps,
                Err(e) => return Err(e),
            },
            None => Vec::new(),
        },
        None => Vec::new(),
    };
    let rationale = match parsed.field("rationale") {
        Some(r) => match r.as_text() {
            Some(t) => t.clone(),
            None => owned("LLM-generated plan"),
        },
        None => owned("LLM-generated plan"),
    };
    Ok(PlanDraft { steps, rationale })
}

/// The JSON document in the content of a chat completion reply, or the message of the
/// inference error the reply gives: it has no string content, or the content does not parse.
pub open spec fn content_document(data: Json) -> Result<Json, Seq<char>> {
    match response_content(data) {
        None => Err("LLM response missing content field"@),
        Some(text) => match parsed_json(text) {
            Ok(doc) => Ok(doc),
            Err(why) => Err("LLM response is not valid JSON: "@ + why),
        },
    }
}

/// The JSON document in the content of a chat completion reply; an inference error when the
/// reply has no string content or the content is not valid JSON.
pub fn extract_content(data: &Json) -> (res: Result<Json, Error>)
    ensures
        match content_document(*data) {
            Ok(doc) => res matches Ok(d) && d == doc,
            Err(m) => res matches Err(Error::Inference(e)) && e@ == m,
        },
{
    let raw = match content_text(data) {
        Ok(raw) => raw,
        Err(e) => return Err(e),
    };
    match parse_json(raw.as_str()) {
        Ok(doc) => Ok(doc),
        Err(why) => {
            let mut message = owned("LLM response is not valid JSON: ");
            message.append(why.as_str());
            Err(Error::Inference(message))
        },
    }
}

/// The plan draft proposed in a chat completion reply: the draft its content describes, with
/// fresh random idempotency keys; the inference error of `extract_content` otherwise.
pub fn parse_plan_draft(data: &Json) -> (res: Result<PlanDraft, Error>)
    ensures
        match content_document(*data) {
            Ok(doc) => (content_steps(doc).len() == 0 ==> res is Ok) && (res matches Ok(d)
                ==> draft_matches(d, doc)) && (res is Err ==> (res matches Err(Error::Inference(m))
                && is_random_failure(m@))),
            Err(m) => res matches Err(Error::Inference(e)) && e@ == m,
        },
{
    match extract_content(data) {
        Ok(doc) => plan_draft_from_content(&doc),
        Err(e) => Err(e),
    }
}

/// The facts extracted in a chat completion reply: the strings of its content's `entities`
/// array and no relations; the inference error of `extract_content` otherwise.
pub fn facts_from_reply(data: &Json) -> (res: Result<Facts, Error>)
    ensures
        match content_document(*data) {
            Ok(doc) => res matches Ok(f) && texts(f.entities@) == content_entities(doc)
                && f.relations@.len() == 0,
            Err(m) => res matches Err(Error::Inference(e)) && e@ == m,
        },
{
    match extract_content(data) {
        Ok(doc) => Ok(facts_from_content(&doc)),
        Err(e) => Err(e),
    }
}

/// The body of a chat completion request: the model, one user message with the prompt, and
/// a request for a JSON object in reply.
pub open spec fn chat_request_view(model: Seq<char>, prompt: Seq<char>) -> JsonView {
    JsonView::Object(
        seq![
            ("model"@, JsonView::Str(model)),
            (
                "messages"@,
                JsonView::Array(
                    seq![
                        JsonView::Object(
                            seq![("role"@, JsonView::Str("user"@)), ("content"@, JsonView::Str(prompt))],
                        ),
                    ],
                ),
            ),
            ("response_format"@, JsonView::Object(seq![("type"@, JsonView::Str("json_object"@))])),
        ],
    )
}

/// One member followed by `rest`.
fn member(name: &str, value: Json, rest: JsonMembers) -> (res: JsonMembers)
    ensures
        res.spec_views() == seq![(name@, value.spec_view())] + rest.spec_views(),
{
    let res = JsonMembers::Member(owned(name), Box::new(value), Box::new(rest));
    assert(res.spec_views() == seq![(name@, value.spec_view())] + rest.spec_views());
    res
}

/// The body of a chat completion request asking `model` for a JSON reply to `prompt`.
pub fn chat_request(model: &str, prompt: &str) -> (res: Json)
    ensures
        res.spec_view() == chat_request_view(model@, prompt@),
{
    let format = member("type", Json::Str(owned("json_object")), JsonMembers::End);
    let ghost format_view = seq![("type"@, JsonView::Str("json_object"@))];
    assert(format.spec_views() =~= format_view);
    let content = member("content", Json::Str(owned(prompt)), JsonMembers::End);
    assert(content.spec_views() =~= seq![("content"@, JsonView::Str(prompt@))]);
    let message = member("role", Json::Str(owned("user")), content);
    let ghost message_view = seq![("role"@, JsonView::Str("user"@)), ("content"@, JsonView::Str(prompt@))];
    assert(message.spec_views() =~= message_view);
    let items = JsonItems::Item(Box::new(Json::Object(message)), Box::new(JsonItems::End));
    let ghost items_view = seq![JsonView::Object(message_view)];
    assert(items.spec_views() =~= items_view) by {
        reveal_with_fuel(JsonItems::spec_views, 2);
    }
    let last = member("response_format", Json::Object(format), JsonMembers::End);
    assert(last.spec_views() =~= seq![("response_format"@, JsonView::Object(format_view))]);
    let middle = member("messages", Json::Array(items), last);
    assert(middle.spec_views() =~= seq![
        ("messages"@, JsonView::Array(items_view)),
        ("response_format"@, JsonView::Object(format_view)),
    ]);
    let body = member("model", Json::Str(owned(model)), middle);
    assert(body.spec_views() =~= seq![
        ("model"@, JsonView::Str(model@)),
        ("messages"@, JsonView::Array(items_view)),
        ("response_format"@, JsonView::Object(format_view)),
    ]);
    let res = Json::Object(body);
    assert(res.spec_view() == chat_request_view(model@, prompt@));
    res
}

} // verus!

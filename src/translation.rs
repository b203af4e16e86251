//! The translation pipeline: the few-shot prompt sent to a chat-completion
//! service, and the checked reading of the structured answer it returns.
use vstd::prelude::*;
use crate::json::{JsonValue, as_text, field, json_parse_of, parse_json, text_field, lookup};
use crate::vocabulary::VocabularyInfo;

verus! {

/// The instruction that opens every conversation.
pub const SYSTEM_INSTRUCTION: &'static str = "You're an agent who helps provide information to language learners who are inputting a specific subtitle of a show they are watching. All of your answers and output will only be in JSON with no prose.";

/// The source phrase of the worked example.
pub const EXAMPLE_INPUT: &'static str = "사전을 못 찾아";

/// The answer of the worked example, as compact JSON.
pub const EXAMPLE_ANSWER: &'static str = r#"{"grammar_points":[{"description":"The suffix \"을\" is the object marker, indicating that \"dictionary\" is the object of the verb.","name":"Object Marker","relevant_text":"사전을"},{"description":"\"못\" is used to indicate inability or impossibility, similar to \"cannot\" in English. \"찾아\" is the verb stem of \"찾다,\" which means \"to find.\" Together, \"못 찾아\" means \"cannot find.\"","name":"Negative Verb Form","relevant_text":"못 찾아"}],"translation":"I can't find the dictionary","vocabulary":[{"translation":"dictionary","word":"사전"},{"translation":"not","word":"못"},{"translation":"find","word":"찾아"}]}"#;

/// The bound on generated tokens that every request carries.
pub const MAX_TOKENS: u32 = 2000;

/// A grammar point that the answer explains.
#[derive(Clone, Debug)]
pub struct GrammarPointInfo {
    pub name: String,
    pub relevant_text: String,
    pub description: String,
}

/// The structured answer for one subtitle line.
#[derive(Clone, Debug)]
pub struct SubtitleTranslationInfo {
    pub vocabulary: Vec<VocabularyInfo>,
    pub translation: String,
    pub grammar_points: Vec<GrammarPointInfo>,
}

/// Why a translation was not obtained.
#[derive(Clone, Debug)]
pub enum TranslationError {
    /// The input text was empty; no request was made.
    EmptyInput,
    /// The service answered with no candidate.
    NoResponse,
    /// The first candidate is not JSON of the expected shape.
    InvalidResponseShape(String),
    /// The service could not be reached or refused the request.
    ServiceFailure(String),
}

/// One role-tagged message of a chat conversation.
#[derive(Clone, Debug)]
pub struct ChatMessage {
    pub role: String,
    pub content: String,
}

/// What is sent to the chat-completion service.
#[derive(Clone, Debug)]
pub struct CompletionRequest {
    pub messages: Vec<ChatMessage>,
    pub max_tokens: u32,
}

/// The translation client. Endpoint and credentials are resolved by whoever
/// sends its requests.
#[derive(Clone, Debug)]
pub struct AIInterface;

/// A message with the given role and content.
pub open spec fn is_message(m: ChatMessage, role: Seq<char>, content: Seq<char>) -> bool {
    m.role@ == role && m.content@ == content
}

/// `q` is the request for `text`: the system instruction, the worked example
/// as a user and assistant exchange, then `text` from the user, with the
/// fixed bound on generated tokens.
pub open spec fn is_request_for(q: CompletionRequest, text: Seq<char>) -> bool {
    &&& q.max_tokens == MAX_TOKENS
    &&& q.messages@.len() == 4
    &&& is_message(q.messages@[0], "system"@, SYSTEM_INSTRUCTION@)
    &&& is_message(q.messages@[1], "user"@, EXAMPLE_INPUT@)
    &&& is_message(q.messages@[2], "assistant"@, EXAMPLE_ANSWER@)
    &&& is_message(q.messages@[3], "user"@, text)
}

/// A vocabulary item: an object whose `word` and `translation` are strings.
pub open spec fn vocabulary_item(v: JsonValue) -> Option<VocabularyInfo> {
    match v {
        JsonValue::Object(f) => match (
            as_text(field(f@, "word"@)),
            as_text(field(f@, "translation"@)),
        ) {
            (Some(w), Some(t)) => Some(VocabularyInfo { word: w, translation: t }),
            _ => None,
        },
        _ => None,
    }
}

/// A grammar point: an object whose `name`, `relevant_text` and
/// `description` are strings.
pub open spec fn grammar_item(v: JsonValue) -> Option<GrammarPointInfo> {
    match v {
        JsonValue::Object(f) => match (
            as_text(field(f@, "name"@)),
            as_text(field(f@, "relevant_text"@)),
            as_text(field(f@, "description"@)),
        ) {
            (Some(n), Some(r), Some(d)) => Some(
                GrammarPointInfo { name: n, relevant_text: r, description: d },
            ),
            _ => None,
        },
        _ => None,
    }
}

/// Every item is a vocabulary item.
pub open spec fn all_vocabulary(items: Seq<JsonValue>) -> bool {
    forall|k: int| 0 <= k < items.len() ==> (#[trigger] vocabulary_item(items[k])) is Some
}

/// Every item is a grammar point.
pub open spec fn all_grammar(items: Seq<JsonValue>) -> bool {
    forall|k: int| 0 <= k < items.len() ==> (#[trigger] grammar_item(items[k])) is Some
}

/// The vocabulary items, in order.
pub open spec fn vocabulary_items(items: Seq<JsonValue>) -> Seq<VocabularyInfo> {
    items.map_values(|x: JsonValue| vocabulary_item(x)->Some_0)
}

/// The grammar points, in order.
pub open spec fn grammar_items(items: Seq<JsonValue>) -> Seq<GrammarPointInfo> {
    items.map_values(|x: JsonValue| grammar_item(x)->Some_0)
}

/// A translation seen as its three parts.
pub open spec fn info_model(r: SubtitleTranslationInfo) -> (
    String,
    Seq<VocabularyInfo>,
    Seq<GrammarPointInfo>,
) {
    (r.translation, r.vocabulary@, r.grammar_points@)
}

/// The translation a JSON value describes: an object whose `translation` is
/// a string and whose `vocabulary` and `grammar_points` are arrays of
/// vocabulary items and grammar points. Other members are ignored.
pub open spec fn translation_shape(j: JsonValue) -> Option<
    (String, Seq<VocabularyInfo>, Seq<GrammarPointInfo>),
> {
    match j {
        JsonValue::Object(f) => match (
            as_text(field(f@, "translation"@)),
            field(f@, "vocabulary"@),
            field(f@, "grammar_points"@),
        ) {
            (Some(t), Some(JsonValue::Array(vs)), Some(JsonValue::Array(gs))) => {
                if all_vocabulary(vs@) && all_grammar(gs@) {
                    Some((t, vocabulary_items(vs@), grammar_items(gs@)))
                } else {
                    None
                }
            },
            _ => None,
        },
        _ => None,
    }
}

/// The translation a candidate's text describes, if it is JSON of that shape.
pub open spec fn content_shape(content: Seq<char>) -> Option<
    (String, Seq<VocabularyInfo>, Seq<GrammarPointInfo>),
> {
    match json_parse_of(content) {
        Some(j) => translation_shape(j),
        None => None,
    }
}

/// `r` is what a candidate's text gives: the translation it describes, else
/// an invalid-shape error.
pub open spec fn reads_content(
    content: Seq<char>,
    r: Result<SubtitleTranslationInfo, TranslationError>,
) -> bool {
    match content_shape(content) {
        Some(m) => r matches Ok(x) && info_model(x) == m,
        None => r matches Err(TranslationError::InvalidResponseShape(_)),
    }
}

/// `r` is what the service's outcome gives: its failure, no candidate, or the
/// reading of the first candidate.
pub open spec fn answers(
    outcome: Result<Vec<String>, String>,
    r: Result<SubtitleTranslationInfo, TranslationError>,
) -> bool {
    match outcome {
        Err(d) => r matches Err(TranslationError::ServiceFailure(e)) && e == d,
        Ok(c) => if c@.len() == 0 {
            r matches Err(TranslationError::NoResponse)
        } else {
            reads_content(c@[0]@, r)
        },
    }
}

/// Reads a vocabulary item.
fn decode_vocabulary_item(v: &JsonValue) -> (r: Option<VocabularyInfo>)
    ensures
        r == vocabulary_item(*v),
{
    match v {
        JsonValue::Object(f) => {
            let word = text_field(f, &"word".to_owned());
            let translation = text_field(f, &"translation".to_owned());
            match (word, translation) {
                (Some(w), Some(t)) => Some(VocabularyInfo { word: w, translation: t }),
                _ => None,
            }
        },
        _ => None,
    }
}

/// Reads a grammar point.
fn decode_grammar_item(v: &JsonValue) -> (r: Option<GrammarPointInfo>)
    ensures
        r == grammar_item(*v),
{
    match v {
        JsonValue::Object(f) => {
            let name = text_field(f, &"name".to_owned());
            let relevant_text = text_field(f, &"relevant_text".to_owned());
            let description = text_field(f, &"description".to_owned());
            match (name, relevant_text, description) {
                (Some(n), Some(r), Some(d)) => Some(
                    GrammarPointInfo { name: n, relevant_text: r, description: d },
                ),
                _ => None,
            }
        },
        _ => None,
    }
}

/// Reads an array of vocabulary items; `None` if one of them is not one.
fn decode_vocabulary(items: &Vec<JsonValue>) -> (r: Option<Vec<VocabularyInfo>>)
    ensures
        r is Some <==> all_vocabulary(items@),
        r matches Some(v) ==> v@ == vocabulary_items(items@),
{
    let n = items.len();
    let mut out: Vec<VocabularyInfo> = Vec::new();
    let mut i: usize = 0;
    while i < n
        invariant
            n == items@.len(),
            0 <= i <= n,
            all_vocabulary(items@.subrange(0, i as int)),
            out@ == vocabulary_items(items@.subrange(0, i as int)),
        decreases n - i,
    {
        match decode_vocabulary_item(&items[i]) {
            Some(x) => {
                out.push(x);
                proof {
                    assert(items@.subrange(0, i + 1) == items@.subrange(0, i as int).push(
                        items@[i as int],
                    ));
                    assert(out@ =~= vocabulary_items(items@.subrange(0, i + 1)));
                }
            },
            None => {
                proof {
                    assert(vocabulary_item(items@[i as int]) is None);
                }
                return None;
            },
        }
        i += 1;
    }
    proof {
        assert(items@.subrange(0, n as int) == items@);
    }
    Some(out)
}

/// Reads an array of grammar points; `None` if one of them is not one.
fn decode_grammar_points(items: &Vec<JsonValue>) -> (r: Option<Vec<GrammarPointInfo>>)
    ensures
        r is Some <==> all_grammar(items@),
        r matches Some(v) ==> v@ == grammar_items(items@),
{
    let n = items.len();
    let mut out: Vec<GrammarPointInfo> = Vec::new();
    let mut i: usize = 0;
    while i < n
        invariant
            n == items@.len(),
            0 <= i <= n,
            all_grammar(items@.subrange(0, i as int)),
            out@ == grammar_items(items@.subrange(0, i as int)),
        decreases n - i,
    {
        match decode_grammar_item(&items[i]) {
            Some(x) => {
                out.push(x);
                proof {
                    assert(items@.subrange(0, i + 1) == items@.subrange(0, i as int).push(
                        items@[i as int],
                    ));
                    assert(out@ =~= grammar_items(items@.subrange(0, i + 1)));
                }
            },
            None => {
                proof {
                    assert(grammar_item(items@[i as int]) is None);
                }
                return None;
            },
        }
        i += 1;
    }
    proof {
        assert(items@.subrange(0, n as int) == items@);
    }
    Some(out)
}

/// Decodes the structured answer held in a JSON value; `None` when
/// the value has another shape.
pub fn decode_translation(j: &JsonValue) -> (r: Option<SubtitleTranslationInfo>)
    ensures
        r is Some <==> translation_shape(*j) is Some,
        r matches Some(x) ==> translation_shape(*j) == Some(info_model(x)),
{
    match j {
        JsonValue::Object(f) => {
            let translation = text_field(f, &"translation".to_owned());
            let vocabulary = lookup(f, &"vocabulary".to_owned());
            let grammar_points = lookup(f, &"grammar_points".to_owned());
            match (translation, vocabulary, grammar_points) {
                (Some(t), Some(JsonValue::Array(vs)), Some(JsonValue::Array(gs))) => {
                    match (decode_vocabulary(vs), decode_grammar_points(gs)) {
                        (Some(v), Some(g)) => Some(
                            SubtitleTranslationInfo { vocabulary: v, translation: t, grammar_points: g },
                        ),
                        _ => None,
                    }
                },
                _ => None,
            }
        },
        _ => None,
    }
}

/// Reads a candidate's text: the translation it describes, or
/// `InvalidResponseShape` when it is not JSON of the answer's shape.
pub fn decode_content(content: &str) -> (r: Result<SubtitleTranslationInfo, TranslationError>)
    ensures
        reads_content(content@, r),
{
    match parse_json(content) {
        Some(j) => match decode_translation(&j) {
            Some(x) => Ok(x),
            None => Err(
                TranslationError::InvalidResponseShape(
                    "the answer does not have the translation's shape".to_owned(),
                ),
            ),
        },
        None => Err(TranslationError::InvalidResponseShape("the answer is not JSON".to_owned())),
    }
}

impl AIInterface {
    /// A client.
    pub fn new() -> (r: AIInterface) {
        AIInterface
    }

    /// The request for `text`, or `EmptyInput` when `text` is empty.
    pub fn prepare_request(text: &str) -> (r: Result<CompletionRequest, TranslationError>)
        ensures
            text@.len() == 0 ==> r matches Err(TranslationError::EmptyInput),
            text@.len() > 0 ==> (r matches Ok(q) && is_request_for(q, text@)),
    {
        if text.is_empty() {
            return Err(TranslationError::EmptyInput);
        }
        let mut messages: Vec<ChatMessage> = Vec::new();
        messages.push(ChatMessage { role: "system".to_owned(), content: SYSTEM_INSTRUCTION.to_owned() });
        messages.push(ChatMessage { role: "user".to_owned(), content: EXAMPLE_INPUT.to_owned() });
        messages.push(ChatMessage { role: "assistant".to_owned(), content: EXAMPLE_ANSWER.to_owned() });
        messages.push(ChatMessage { role: "user".to_owned(), content: text.to_owned() });
        Ok(CompletionRequest { messages, max_tokens: MAX_TOKENS })
    }

    /// What the service's outcome gives: `ServiceFailure` with its details,
    /// `NoResponse` for no candidate, else the reading of the first candidate.
    pub fn interpret_response(outcome: Result<Vec<String>, String>) -> (r: Result<
        SubtitleTranslationInfo,
        TranslationError,
    >)
        ensures
            answers(outcome, r),
    {
        match outcome {
            Err(d) => Err(TranslationError::ServiceFailure(d)),
            Ok(candidates) => {
                if candidates.len() == 0 {
                    Err(TranslationError::NoResponse)
                } else {
                    decode_content(candidates[0].as_str())
                }
            },
        }
    }

    /// Translates `text`: an empty text fails with `EmptyInput` before anything
    /// is sent; otherwise the request for `text` goes once through `send`, and
    /// its outcome is read as `interpret_response` reads it.
    pub fn translate<F>(&self, text: String, send: F) -> (r: Result<
        SubtitleTranslationInfo,
        TranslationError,
    >) where F: FnOnce(CompletionRequest) -> Result<Vec<String>, String>
        requires
            forall|q: CompletionRequest| send.requires((q,)),
        ensures
            text@.len() == 0 ==> r matches Err(TranslationError::EmptyInput),
            text@.len() > 0 ==> exists|q: CompletionRequest, out: Result<Vec<String>, String>|
                is_request_for(q, text@) && #[trigger] send.ensures((q,), out) && answers(out, r),
    {
        match Self::prepare_request(text.as_str()) {
            Err(e) => Err(e),
            Ok(q) => {
                let ghost sent = q;
                let out = send(q);
                let r = Self::interpret_response(out);
                proof {
                    assert(is_request_for(sent, text@) && send.ensures((sent,), out) && answers(out, r));
                }
                r
            },
        }
    }
}

} // verus!

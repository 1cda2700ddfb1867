//! The data carried through a translation request.
//!
//! These are the plain values exchanged with the HTTP layer and with the
//! external model's wire format; the unverified shell owns their JSON
//! encodings and hands the values here unchanged.

use vstd::prelude::*;

verus! {

/// An incoming translation request.
#[derive(Clone, Debug)]
pub struct TranslateRequest {
    pub name: String,
    pub text: String,
    pub destination: Vec<String>,
    pub source: Option<String>,
}

/// The answer to a translation request. Failures are embedded in `result`
/// as readable text rather than reported as an error status.
#[derive(Clone, Debug)]
pub struct TranslateResponse {
    pub text: String,
    pub from: String,
    pub to: String,
    pub tts_uri: Option<String>,
    pub link: Option<String>,
    pub phonetic: Option<Vec<Phonetic>>,
    pub dict: Option<Vec<DictEntry>>,
    pub result: Option<Vec<String>>,
}

/// A pronunciation entry of a dictionary answer.
#[derive(Clone, Debug)]
pub struct Phonetic {
    pub name: Option<String>,
    pub tts_uri: Option<String>,
    pub value: Option<String>,
}

/// One part-of-speech group of a dictionary answer.
#[derive(Clone, Debug)]
pub struct DictEntry {
    pub pos: Option<String>,
    pub terms: Vec<String>,
}

/// One role/content pair of the instruction sent to the external model.
#[derive(Clone, Debug)]
pub struct Message {
    pub role: String,
    pub content: String,
}

/// The request sent to the external model: the model name and the ordered
/// messages. The fixed sampling temperature is added by the wire layer.
#[derive(Clone, Debug)]
pub struct LLMRequest {
    pub model: String,
    pub messages: Vec<Message>,
}

/// The decoded answer of the external model.
#[derive(Clone, Debug)]
pub struct LLMResponse {
    pub choices: Vec<Choice>,
}

/// One candidate answer; only the first is authoritative.
#[derive(Clone, Debug)]
pub struct Choice {
    pub message: MessageContent,
}

/// The content of a candidate answer.
#[derive(Clone, Debug)]
pub struct MessageContent {
    pub content: String,
}

} // verus!

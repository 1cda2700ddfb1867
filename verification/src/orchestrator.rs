//! Per-request sequencing of the translation service.
//!
//! A request is recorded in the metrics, validated, given a language pair,
//! and checked against the configuration; only then is the external model
//! called. Every failure on the way becomes a degraded response — a
//! successfully delivered answer that reports the failure in its payload —
//! never an error status. The network call itself suspends in the
//! unverified shell, between the two halves sequenced here.

use vstd::prelude::*;
use vstd::string::StringExecFns;
use crate::config::Config;
use crate::config::spec_is_configured;
use crate::error::TranslateError;
use crate::error::spec_translate_error_message;
use crate::language::detected_lang_of;
use crate::language::lang_label;
use crate::language::select_target_language;
use crate::language::spec_target_language;
use crate::metrics::AppState;
use crate::metrics::spec_record_error;
use crate::metrics::spec_record_request;
use crate::metrics::spec_record_success;
use crate::models::TranslateRequest;
use crate::models::TranslateResponse;
use crate::normalize::normalized_result;
use crate::normalize::process_translation_result;

verus! {

/// A request is well-formed when it carries any text at all.
pub open spec fn spec_request_valid(req: TranslateRequest) -> bool {
    req.text@.len() > 0
}

/// Checks an incoming request before any work is spent on it.
pub fn validate_translate_request(req: &TranslateRequest) -> (r: bool)
    ensures
        r == spec_request_valid(*req),
{
    !req.text.as_str().is_empty()
}

/// The source language of a request: the explicit one when given, the
/// detected one otherwise.
pub open spec fn resolved_source(req: TranslateRequest) -> Seq<char> {
    if req.source is Some {
        req.source->0@
    } else {
        lang_label(detected_lang_of(req.text@))
    }
}

/// The label shown for a language that was never resolved.
pub open spec fn unknown_language_label() -> Seq<char> {
    "未知"@
}

/// The degraded message for a request that failed validation.
pub open spec fn validation_failure_message() -> Seq<char> {
    "输入验证失败: 文本不能为空"@
}

/// The degraded message shown while the service is not configured.
pub open spec fn not_configured_message() -> Seq<char> {
    "翻译服务未配置，请访问 /admin 配置 API 后重试"@
}

/// The degraded message for a failed translation call.
pub open spec fn failure_message(e: TranslateError) -> Seq<char> {
    "翻译失败: "@ + spec_translate_error_message(e)
}

/// Assembles a response around a result list; the optional dictionary
/// enrichments stay empty.
pub fn make_response(text: String, from: String, to: String, result: Vec<String>) -> (r:
    TranslateResponse)
    ensures
        r.text == text,
        r.from == from,
        r.to == to,
        r.tts_uri is None,
        r.link is None,
        r.phonetic is None,
        r.dict is None,
        r.result == Some(result),
{
    TranslateResponse {
        text,
        from,
        to,
        tts_uri: None,
        link: None,
        phonetic: None,
        dict: None,
        result: Some(result),
    }
}

/// What the first half of a request decides: answer at once, or call the
/// external model with this language pair.
#[derive(Clone, Debug)]
pub enum PrepareOutcome {
    Respond(TranslateResponse),
    Proceed { from_lang: String, to_lang: String },
}

/// The first half of a request, up to the network call: records the start,
/// rejects invalid input (without a terminal metric, by design), resolves
/// the language pair, and turns an unconfigured service into a degraded
/// response with an error recorded. Only a valid request against a
/// configured service proceeds to the model.
pub fn prepare_translation(req: &TranslateRequest, config: &Config, state: &mut AppState) -> (r:
    PrepareOutcome)
    requires
        old(state).inv(),
        old(state)@.requests_total < u64::MAX,
        old(state)@.requests_error < u64::MAX,
        old(state)@.concurrent_requests < u64::MAX,
    ensures
        final(state).inv(),
        !spec_request_valid(*req) ==> final(state)@ == spec_record_request(old(state)@),
        !spec_request_valid(*req) ==> (r matches PrepareOutcome::Respond(resp) && {
            &&& resp.text == req.text
            &&& resp.from@ == unknown_language_label()
            &&& resp.to@ == (if req.destination@.len() > 0 {
                req.destination@[0]@
            } else {
                unknown_language_label()
            })
            &&& resp.result matches Some(v) && v.deep_view() == seq![validation_failure_message()]
        }),
        spec_request_valid(*req) && !spec_is_configured(*config) ==> final(state)@
            == spec_record_error(spec_record_request(old(state)@)),
        spec_request_valid(*req) && !spec_is_configured(*config) ==> (r matches
            PrepareOutcome::Respond(resp) && {
            &&& resp.text == req.text
            &&& resp.from@ == resolved_source(*req)
            &&& resp.to@ == spec_target_language(
                req.destination.deep_view(),
                resolved_source(*req),
            )
            &&& resp.result matches Some(v) && v.deep_view() == seq![not_configured_message()]
        }),
        spec_request_valid(*req) && spec_is_configured(*config) ==> final(state)@
            == spec_record_request(old(state)@),
        spec_request_valid(*req) && spec_is_configured(*config) ==> (r matches
            PrepareOutcome::Proceed { from_lang, to_lang } && from_lang@ == resolved_source(*req)
            && to_lang@ == spec_target_language(
            req.destination.deep_view(),
            resolved_source(*req),
        )),
{
    state.record_request();
    if !validate_translate_request(req) {
        let to: String = if req.destination.len() > 0 {
            req.destination[0].clone()
        } else {
            "未知".to_owned()
        };
        let mut result: Vec<String> = Vec::new();
        result.push("输入验证失败: 文本不能为空".to_owned());
        proof {
            assert(result.deep_view() =~~= seq![validation_failure_message()]);
        }
        return PrepareOutcome::Respond(make_response(req.text.clone(), "未知".to_owned(), to, result));
    }
    let source_ref: Option<&str> = match &req.source {
        Some(s) => Some(s.as_str()),
        None => None,
    };
    let dest = req.destination.as_slice();
    proof {
        assert(dest.deep_view() =~~= req.destination.deep_view());
    }
    let selected = select_target_language(req.text.as_str(), dest, source_ref);
    let from_lang = selected.0;
    let to_lang = selected.1;
    if !config.is_configured() {
        state.record_error();
        let mut result: Vec<String> = Vec::new();
        result.push("翻译服务未配置，请访问 /admin 配置 API 后重试".to_owned());
        proof {
            assert(result.deep_view() =~~= seq![not_configured_message()]);
        }
        return PrepareOutcome::Respond(make_response(req.text.clone(), from_lang, to_lang, result));
    }
    PrepareOutcome::Proceed { from_lang, to_lang }
}

/// The second half of a request, after the network call: a success is
/// realigned and normalized and recorded with its duration; a failure is
/// recorded as an error and embedded, readable, in a degraded response.
pub fn conclude_translation(
    text: &str,
    from_lang: String,
    to_lang: String,
    llm: Result<String, TranslateError>,
    elapsed_ms: u64,
    state: &mut AppState,
) -> (r: TranslateResponse)
    requires
        old(state).inv(),
        old(state)@.requests_success < u64::MAX,
        old(state)@.requests_error < u64::MAX,
        old(state)@.concurrent_requests > 0,
    ensures
        final(state).inv(),
        r.text@ == text@,
        r.from == from_lang,
        r.to == to_lang,
        llm is Ok ==> final(state)@ == spec_record_success(old(state)@, elapsed_ms),
        llm matches Ok(t) ==> (r.result matches Some(v) && v.deep_view() == normalized_result(
            text@,
            t@,
        )),
        llm is Err ==> final(state)@ == spec_record_error(old(state)@),
        llm matches Err(e) ==> (r.result matches Some(v) && v.deep_view() == seq![
            failure_message(e),
        ]),
{
    match llm {
        Ok(translated) => {
            let result = process_translation_result(text, translated.as_str());
            state.record_success(elapsed_ms);
            make_response(text.to_owned(), from_lang, to_lang, result)
        },
        Err(e) => {
            state.record_error();
            let mut msg = "翻译失败: ".to_owned();
            msg.append(e.message().as_str());
            let mut result: Vec<String> = Vec::new();
            result.push(msg);
            proof {
                assert(result.deep_view() =~~= seq![failure_message(e)]);
            }
            make_response(text.to_owned(), from_lang, to_lang, result)
        },
    }
}

} // verus!

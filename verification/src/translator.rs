//! Building the instruction for the external model and interpreting what
//! comes back.
//!
//! One translation call sends a fixed, templated system instruction plus the
//! raw input text, and reads the first candidate answer of the response.
//! A batch sends one such call per text; the shell runs the calls
//! concurrently and hands back one result per text, in input order, for the
//! fan-in here. The network transport itself lives in the unverified shell.

use vstd::prelude::*;
use vstd::string::StringExecFns;
use crate::error::TranslateError;
use crate::models::LLMRequest;
use crate::models::LLMResponse;
use crate::models::Message;
use crate::normalize::spaced;
use crate::normalize::trimmed;
use crate::normalize::normalize_spacing;
use crate::normalize::trim_text;

verus! {

/// The templated system instruction embedding the source and target
/// language names: role, task, constraints and output format, with the
/// target language named twice.
pub open spec fn system_prompt_text(from: Seq<char>, to: Seq<char>) -> Seq<char> {
    "ROLE: 专业翻译专家\nTASK: "@ + from + " → "@ + to
        + " 翻译\n\nCONSTRAINTS:\n- 严格保持原文语义完整性\n- 输出语言: 仅使用"@ + to
        + "\n- 格式保持: 保留所有段落和结构\n- 禁止: 解释、注释、额外说明\n\nOUTPUT_FORMAT:\n- 纯翻译文本\n- 无前缀后缀\n- 直接开始翻译内容\n\nREADY."@
}

/// Builds the system instruction for a translation.
pub fn build_system_prompt(from_lang: &str, to_lang: &str) -> (r: String)
    ensures
        r@ == system_prompt_text(from_lang@, to_lang@),
{
    let mut r = "ROLE: 专业翻译专家\nTASK: ".to_owned();
    r.append(from_lang);
    r.append(" → ");
    r.append(to_lang);
    r.append(" 翻译\n\nCONSTRAINTS:\n- 严格保持原文语义完整性\n- 输出语言: 仅使用");
    r.append(to_lang);
    r.append("\n- 格式保持: 保留所有段落和结构\n- 禁止: 解释、注释、额外说明\n\nOUTPUT_FORMAT:\n- 纯翻译文本\n- 无前缀后缀\n- 直接开始翻译内容\n\nREADY.");
    proof {
        assert(r@ =~= system_prompt_text(from_lang@, to_lang@));
    }
    r
}

/// The two messages of one call: the system instruction, then the raw text.
pub fn build_llm_messages(system_prompt: &str, text: &str) -> (r: Vec<Message>)
    ensures
        r@.len() == 2,
        r@[0].role@ == "system"@,
        r@[0].content@ == system_prompt@,
        r@[1].role@ == "user"@,
        r@[1].content@ == text@,
{
    let mut messages: Vec<Message> = Vec::new();
    messages.push(Message { role: "system".to_owned(), content: system_prompt.to_owned() });
    messages.push(Message { role: "user".to_owned(), content: text.to_owned() });
    messages
}

/// The full request of one call: the configured model and the two messages.
pub fn build_llm_request(model: &str, system_prompt: &str, text: &str) -> (r: LLMRequest)
    ensures
        r.model@ == model@,
        r.messages@.len() == 2,
        r.messages@[0].role@ == "system"@,
        r.messages@[0].content@ == system_prompt@,
        r.messages@[1].role@ == "user"@,
        r.messages@[1].content@ == text@,
{
    LLMRequest { model: model.to_owned(), messages: build_llm_messages(system_prompt, text) }
}

/// Reads a decoded success response: the first candidate answer, trimmed
/// and spacing-normalized, or the empty-result failure when there is no
/// candidate at all.
pub fn process_llm_response(resp: &LLMResponse) -> (r: Result<String, TranslateError>)
    ensures
        resp.choices@.len() == 0 ==> r == Result::<String, TranslateError>::Err(
            TranslateError::EmptyResult,
        ),
        resp.choices@.len() > 0 ==> r is Ok && r->Ok_0@ == spaced(
            trimmed(resp.choices@[0].message.content@),
        ),
{
    if resp.choices.len() == 0 {
        Err(TranslateError::EmptyResult)
    } else {
        let t = trim_text(resp.choices[0].message.content.as_str());
        Ok(normalize_spacing(t.as_str()))
    }
}

/// Every call of a batch succeeded.
pub open spec fn all_ok(rs: Seq<Result<String, TranslateError>>) -> bool {
    forall|i: int| 0 <= i < rs.len() ==> (#[trigger] rs[i]) is Ok
}

/// The texts of an all-successful batch, in input order.
pub open spec fn ok_texts(rs: Seq<Result<String, TranslateError>>, out: Seq<String>) -> bool {
    out.len() == rs.len() && forall|i: int| 0 <= i < rs.len() ==> #[trigger] out[i] == rs[i]->Ok_0
}

/// `e` is the first failure of a batch in input order: everything before it
/// succeeded.
pub open spec fn first_failure(rs: Seq<Result<String, TranslateError>>, e: TranslateError) -> bool {
    exists|j: int|
        0 <= j < rs.len() && (#[trigger] rs[j]) is Err && e == rs[j]->Err_0 && (forall|k: int|
            0 <= k < j ==> (#[trigger] rs[k]) is Ok)
}

/// Collects the per-text results of a batch into one result: the texts in
/// input order when every call succeeded, and the first failure in input
/// order otherwise — partial successes are discarded.
#[verifier::loop_isolation(false)]
pub fn collect_batch(results: Vec<Result<String, TranslateError>>) -> (r: Result<
    Vec<String>,
    TranslateError,
>)
    ensures
        all_ok(results@) <==> r is Ok,
        r is Ok ==> ok_texts(results@, r->Ok_0@),
        r is Err ==> first_failure(results@, r->Err_0),
{
    let ghost orig = results@;
    let mut rem = results;
    let mut out: Vec<String> = Vec::new();
    let ghost mut i: int = 0;
    proof {
        assert(rem@ =~= orig.skip(0));
    }
    while rem.len() > 0
        invariant
            0 <= i <= orig.len(),
            rem@ == orig.skip(i),
            out@.len() == i,
            forall|k: int| 0 <= k < i ==> (#[trigger] orig[k]) is Ok,
            forall|k: int| 0 <= k < i ==> #[trigger] out@[k] == orig[k]->Ok_0,
        decreases rem.len(),
    {
        proof {
            assert(rem@[0] == orig[i]);
        }
        let x = rem.remove(0);
        proof {
            assert(rem@ =~= orig.skip(i + 1));
        }
        match x {
            Ok(s) => {
                out.push(s);
            },
            Err(e) => {
                proof {
                    assert(orig[i] is Err && e == orig[i]->Err_0);
                    assert(first_failure(orig, e)) by {
                        assert(0 <= i < orig.len() && orig[i] is Err && e == orig[i]->Err_0 && (
                        forall|k: int| 0 <= k < i ==> orig[k] is Ok));
                    }
                    assert(!all_ok(orig));
                }
                return Err(e);
            },
        }
        proof {
            i = i + 1;
        }
    }
    proof {
        assert(i == orig.len());
        assert(all_ok(orig));
        assert(ok_texts(orig, out@));
    }
    Ok(out)
}

} // verus!

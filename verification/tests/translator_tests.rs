use rustrans::error::TranslateError;
use rustrans::models::Choice;
use rustrans::models::LLMResponse;
use rustrans::models::MessageContent;
use rustrans::translator::build_llm_request;
use rustrans::translator::build_system_prompt;
use rustrans::translator::collect_batch;
use rustrans::translator::process_llm_response;

fn response_with(content: &str) -> LLMResponse {
    LLMResponse {
        choices: vec![Choice { message: MessageContent { content: content.to_string() } }],
    }
}

#[test]
fn test_build_system_prompt_exact() {
    let prompt = build_system_prompt("中文(简体)", "英语");
    let expected = "ROLE: 专业翻译专家\nTASK: 中文(简体) → 英语 翻译\n\nCONSTRAINTS:\n- 严格保持原文语义完整性\n- 输出语言: 仅使用英语\n- 格式保持: 保留所有段落和结构\n- 禁止: 解释、注释、额外说明\n\nOUTPUT_FORMAT:\n- 纯翻译文本\n- 无前缀后缀\n- 直接开始翻译内容\n\nREADY.";
    assert_eq!(prompt, expected);
}

#[test]
fn test_build_llm_request_shape() {
    let request = build_llm_request("small-model", "instruction", "raw text");
    assert_eq!(request.model, "small-model");
    assert_eq!(request.messages.len(), 2);
    assert_eq!(request.messages[0].role, "system");
    assert_eq!(request.messages[0].content, "instruction");
    assert_eq!(request.messages[1].role, "user");
    assert_eq!(request.messages[1].content, "raw text");
}

#[test]
fn test_process_llm_response_trims_and_spaces() {
    let out = process_llm_response(&response_with("  这是test结果  \n"));
    assert_eq!(out, Ok("这是 test 结果".to_string()));
}

#[test]
fn test_process_llm_response_first_choice_wins() {
    let resp = LLMResponse {
        choices: vec![
            Choice { message: MessageContent { content: "first".to_string() } },
            Choice { message: MessageContent { content: "second".to_string() } },
        ],
    };
    assert_eq!(process_llm_response(&resp), Ok("first".to_string()));
}

#[test]
fn test_process_llm_response_empty() {
    let resp = LLMResponse { choices: vec![] };
    assert_eq!(process_llm_response(&resp), Err(TranslateError::EmptyResult));
}

#[test]
fn test_collect_batch_preserves_input_order() {
    // the shell may finish C first; the collected results still arrive here
    // indexed by input position, and the output must keep that order
    let results = vec![
        Ok("resultA".to_string()),
        Ok("resultB".to_string()),
        Ok("resultC".to_string()),
    ];
    let out = collect_batch(results);
    assert_eq!(out, Ok(vec!["resultA".to_string(), "resultB".to_string(), "resultC".to_string()]));
}

#[test]
fn test_collect_batch_first_error_wins() {
    let results = vec![
        Ok("a".to_string()),
        Err(TranslateError::Network("boom".to_string())),
        Err(TranslateError::EmptyResult),
        Ok("d".to_string()),
    ];
    let out = collect_batch(results);
    assert_eq!(out, Err(TranslateError::Network("boom".to_string())));
}

#[test]
fn test_collect_batch_empty() {
    let out = collect_batch(Vec::new());
    assert_eq!(out, Ok(Vec::new()));
}

#[test]
fn test_translate_error_messages() {
    assert_eq!(
        TranslateError::Network("dns".to_string()).message(),
        "网络请求失败: dns"
    );
    assert_eq!(
        TranslateError::UpstreamRejected("401 unauthorized".to_string()).message(),
        "LLM API 错误: 401 unauthorized"
    );
    assert_eq!(TranslateError::EmptyResult.message(), "未收到翻译结果");
}

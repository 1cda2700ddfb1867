use rustrans::config::Config;
use rustrans::error::AppError;
use rustrans::error::TranslateError;
use rustrans::health::build_health_response;
use rustrans::health::get_memory_usage;
use rustrans::health::llm_reachable;
use rustrans::metrics::AppState;
use rustrans::models::TranslateRequest;
use rustrans::orchestrator::conclude_translation;
use rustrans::orchestrator::prepare_translation;
use rustrans::orchestrator::PrepareOutcome;

fn configured() -> Config {
    Config::new(
        "https://api.example.com/v1/chat/completions".to_string(),
        "sk-1234567890abcdef".to_string(),
        "small-model".to_string(),
        "translate".to_string(),
    )
}

fn request(text: &str) -> TranslateRequest {
    TranslateRequest {
        name: "unit".to_string(),
        text: text.to_string(),
        destination: vec!["法语".to_string(), "德语".to_string()],
        source: Some("英语".to_string()),
    }
}

#[test]
fn test_prepare_proceeds_when_configured() {
    let mut state = AppState::new();
    match prepare_translation(&request("Hello"), &configured(), &mut state) {
        PrepareOutcome::Proceed { from_lang, to_lang } => {
            assert_eq!(from_lang, "英语");
            assert_eq!(to_lang, "法语");
        }
        PrepareOutcome::Respond(_) => panic!("expected to proceed"),
    }
    assert_eq!(state.requests_total, 1);
    assert_eq!(state.concurrent_requests, 1);
    assert_eq!(state.requests_error, 0);
}

#[test]
fn test_prepare_rejects_empty_text() {
    let mut state = AppState::new();
    match prepare_translation(&request(""), &configured(), &mut state) {
        PrepareOutcome::Respond(resp) => {
            assert_eq!(resp.from, "未知");
            assert_eq!(resp.to, "法语");
            assert_eq!(resp.result, Some(vec!["输入验证失败: 文本不能为空".to_string()]));
        }
        PrepareOutcome::Proceed { .. } => panic!("expected a degraded response"),
    }
    // a rejected request gets no terminal record, by design
    assert_eq!(state.requests_total, 1);
    assert_eq!(state.requests_error, 0);
    assert_eq!(state.concurrent_requests, 1);
}

#[test]
fn test_prepare_degrades_when_not_configured() {
    let mut state = AppState::new();
    match prepare_translation(&request("Hello"), &Config::default(), &mut state) {
        PrepareOutcome::Respond(resp) => {
            assert_eq!(resp.from, "英语");
            assert_eq!(resp.to, "法语");
            assert_eq!(
                resp.result,
                Some(vec!["翻译服务未配置，请访问 /admin 配置 API 后重试".to_string()])
            );
        }
        PrepareOutcome::Proceed { .. } => panic!("expected a degraded response"),
    }
    assert_eq!(state.requests_total, 1);
    assert_eq!(state.requests_error, 1);
    assert_eq!(state.concurrent_requests, 0);
}

#[test]
fn test_conclude_success_normalizes_and_records() {
    let mut state = AppState::new();
    state.record_request();
    let resp = conclude_translation(
        "第一段\n第二段",
        "中文(简体)".to_string(),
        "英语".to_string(),
        Ok("First paragraph\nSecond paragraph".to_string()),
        42,
        &mut state,
    );
    assert_eq!(resp.text, "第一段\n第二段");
    assert_eq!(resp.from, "中文(简体)");
    assert_eq!(resp.to, "英语");
    assert_eq!(
        resp.result,
        Some(vec!["First paragraph".to_string(), "Second paragraph".to_string()])
    );
    assert_eq!(state.requests_success, 1);
    assert_eq!(state.requests_error, 0);
    assert_eq!(state.concurrent_requests, 0);
    assert_eq!(state.response_times_ms, vec![42]);
}

#[test]
fn test_conclude_network_failure_degrades_and_counts_one_error() {
    let mut state = AppState::new();
    state.record_request();
    let errors_before = state.requests_error;
    let resp = conclude_translation(
        "你好世界",
        "中文(简体)".to_string(),
        "英语".to_string(),
        Err(TranslateError::Network("connection refused".to_string())),
        7,
        &mut state,
    );
    assert_eq!(
        resp.result,
        Some(vec!["翻译失败: 网络请求失败: connection refused".to_string()])
    );
    assert_eq!(state.requests_error, errors_before + 1);
    assert_eq!(state.requests_success, 0);
    assert_eq!(state.concurrent_requests, 0);
    assert!(state.response_times_ms.is_empty());
}

#[test]
fn test_app_error_messages_and_status() {
    assert_eq!(AppError::ServiceNotConfigured.message(), "服务未配置");
    assert_eq!(AppError::ServiceNotConfigured.status_code(), 503);
    assert_eq!(AppError::Validation("x".to_string()).message(), "输入验证错误: x");
    assert_eq!(AppError::Validation("x".to_string()).status_code(), 400);
    assert_eq!(AppError::RequestTooLarge.status_code(), 413);
    assert_eq!(AppError::Translation("t".to_string()).message(), "翻译服务错误: t");
    assert_eq!(AppError::Translation("t".to_string()).status_code(), 500);
    assert_eq!(AppError::Config("c".to_string()).message(), "配置错误: c");
    assert_eq!(AppError::Network("n".to_string()).message(), "网络请求错误: n");
    assert_eq!(AppError::Serialization("s".to_string()).message(), "JSON序列化错误: s");
    assert_eq!(AppError::Io("i".to_string()).message(), "IO错误: i");
    assert_eq!(AppError::LanguageDetection.message(), "语言检测失败");
    assert_eq!(AppError::LanguageDetection.status_code(), 500);
}

#[test]
fn test_health_response() {
    let healthy = build_health_response(true, "2024-01-01T00:00:00Z".to_string(), "0.1.0".to_string(), 12);
    assert_eq!(healthy.status, "healthy");
    assert_eq!(healthy.uptime_seconds, 12);
    assert!(healthy.llm_configured);
    let degraded = build_health_response(false, "t".to_string(), "v".to_string(), 0);
    assert_eq!(degraded.status, "degraded");
    let mem = get_memory_usage();
    assert_eq!(mem.allocated_mb, 0);
    assert_eq!(mem.resident_mb, 0);
}

#[test]
fn test_llm_reachable() {
    assert!(llm_reachable(200));
    assert!(llm_reachable(299));
    assert!(llm_reachable(400));
    assert!(!llm_reachable(300));
    assert!(!llm_reachable(404));
    assert!(!llm_reachable(500));
    assert!(!llm_reachable(199));
}

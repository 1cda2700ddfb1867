//! The error taxonomy of the service.
//!
//! `AppError` is the service-level error shown to HTTP callers, each variant
//! with a fixed message and status code. `TranslateError` is the typed
//! failure of one translation call: transport failure, a rejection by the
//! upstream model, or a well-formed response with no usable content.

use vstd::prelude::*;
use vstd::string::StringExecFns;

verus! {

/// A service-level error, with any upstream detail carried as plain text.
#[derive(Clone, Debug, PartialEq, Eq)]
pub enum AppError {
    Config(String),
    Translation(String),
    Network(String),
    Serialization(String),
    Io(String),
    LanguageDetection,
    Validation(String),
    ServiceNotConfigured,
    RequestTooLarge,
}

/// The message each service-level error carries.
pub open spec fn spec_app_error_message(e: AppError) -> Seq<char> {
    match e {
        AppError::Config(s) => "配置错误: "@ + s@,
        AppError::Translation(s) => "翻译服务错误: "@ + s@,
        AppError::Network(s) => "网络请求错误: "@ + s@,
        AppError::Serialization(s) => "JSON序列化错误: "@ + s@,
        AppError::Io(s) => "IO错误: "@ + s@,
        AppError::LanguageDetection => "语言检测失败"@,
        AppError::Validation(s) => "输入验证错误: "@ + s@,
        AppError::ServiceNotConfigured => "服务未配置"@,
        AppError::RequestTooLarge => "请求过大"@,
    }
}

/// The HTTP status each service-level error is answered with.
pub open spec fn spec_app_error_status(e: AppError) -> u16 {
    match e {
        AppError::ServiceNotConfigured => 503,
        AppError::Validation(_) => 400,
        AppError::RequestTooLarge => 413,
        _ => 500,
    }
}

impl AppError {
    /// The human-readable message of this error.
    pub fn message(&self) -> (r: String)
        ensures
            r@ == spec_app_error_message(*self),
    {
        match self {
            AppError::Config(s) => {
                let mut r = "配置错误: ".to_owned();
                r.append(s.as_str());
                r
            },
            AppError::Translation(s) => {
                let mut r = "翻译服务错误: ".to_owned();
                r.append(s.as_str());
                r
            },
            AppError::Network(s) => {
                let mut r = "网络请求错误: ".to_owned();
                r.append(s.as_str());
                r
            },
            AppError::Serialization(s) => {
                let mut r = "JSON序列化错误: ".to_owned();
                r.append(s.as_str());
                r
            },
            AppError::Io(s) => {
                let mut r = "IO错误: ".to_owned();
                r.append(s.as_str());
                r
            },
            AppError::LanguageDetection => "语言检测失败".to_owned(),
            AppError::Validation(s) => {
                let mut r = "输入验证错误: ".to_owned();
                r.append(s.as_str());
                r
            },
            AppError::ServiceNotConfigured => "服务未配置".to_owned(),
            AppError::RequestTooLarge => "请求过大".to_owned(),
        }
    }

    /// The HTTP status this error maps to.
    pub fn status_code(&self) -> (r: u16)
        ensures
            r == spec_app_error_status(*self),
    {
        match self {
            AppError::ServiceNotConfigured => 503,
            AppError::Validation(_) => 400,
            AppError::RequestTooLarge => 413,
            _ => 500,
        }
    }
}

/// The failure of one translation call.
#[derive(Clone, Debug, PartialEq, Eq)]
pub enum TranslateError {
    /// The endpoint could not be reached; carries the transport detail.
    Network(String),
    /// The endpoint answered with a non-success status; carries its body.
    UpstreamRejected(String),
    /// The endpoint answered successfully but returned no usable content.
    EmptyResult,
}

/// The message each translation failure carries.
pub open spec fn spec_translate_error_message(e: TranslateError) -> Seq<char> {
    match e {
        TranslateError::Network(s) => "网络请求失败: "@ + s@,
        TranslateError::UpstreamRejected(s) => "LLM API 错误: "@ + s@,
        TranslateError::EmptyResult => "未收到翻译结果"@,
    }
}

impl TranslateError {
    /// The human-readable message of this failure.
    pub fn message(&self) -> (r: String)
        ensures
            r@ == spec_translate_error_message(*self),
    {
        match self {
            TranslateError::Network(s) => {
                let mut r = "网络请求失败: ".to_owned();
                r.append(s.as_str());
                r
            },
            TranslateError::UpstreamRejected(s) => {
                let mut r = "LLM API 错误: ".to_owned();
                r.append(s.as_str());
                r
            },
            TranslateError::EmptyResult => "未收到翻译结果".to_owned(),
        }
    }
}

} // verus!

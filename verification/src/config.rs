//! Runtime configuration of the translation service.
//!
//! The configuration names the endpoint, credential, model and system prompt
//! used for every call to the external model. It is "configured" only when
//! every field is filled in and the credential is not the placeholder that
//! ships with a fresh installation. The unverified shell owns reading and
//! writing the configuration file and wraps the value in a lock; this module
//! holds the value itself and the rules about it.

use vstd::prelude::*;
use crate::strutil::str_eq;

verus! {

/// The credential value that stands in for "no credential was set yet".
pub open spec fn placeholder_key() -> Seq<char> {
    "your-api-key-here"@
}

/// The system prompt a fresh configuration starts with.
pub open spec fn default_system_prompt() -> Seq<char> {
    "你是一个专业的翻译助手。请将用户提供的文本准确、自然地翻译成目标语言。保持原文的语气和风格，确保翻译结果符合目标语言的表达习惯。只返回翻译结果，不要添加额外的解释或说明。"@
}

/// The runtime configuration: endpoint, credential, model and system prompt
/// for the external model.
#[derive(Clone, Debug)]
pub struct Config {
    pub llm_api_key: String,
    pub llm_api_url: String,
    pub llm_model: String,
    pub system_prompt: String,
}

/// A configuration is complete when every field is non-empty and the
/// credential is not the placeholder.
pub open spec fn spec_is_configured(c: Config) -> bool {
    c.llm_api_key@.len() > 0 && c.llm_api_url@.len() > 0 && c.llm_model@.len() > 0
        && c.system_prompt@.len() > 0 && c.llm_api_key@ != placeholder_key()
}

impl Config {
    /// A fresh configuration: no endpoint, credential or model yet, and the
    /// default system prompt.
    pub fn default() -> (r: Self)
        ensures
            r.llm_api_key@ =~= Seq::<char>::empty(),
            r.llm_api_url@ =~= Seq::<char>::empty(),
            r.llm_model@ =~= Seq::<char>::empty(),
            r.system_prompt@ == default_system_prompt(),
    {
        Self {
            llm_api_key: String::new(),
            llm_api_url: String::new(),
            llm_model: String::new(),
            system_prompt:
                "你是一个专业的翻译助手。请将用户提供的文本准确、自然地翻译成目标语言。保持原文的语气和风格，确保翻译结果符合目标语言的表达习惯。只返回翻译结果，不要添加额外的解释或说明。".to_owned(),
        }
    }

    /// Builds a configuration from its four fields.
    pub fn new(api_url: String, api_key: String, model: String, system_prompt: String) -> (r: Self)
        ensures
            r.llm_api_key == api_key,
            r.llm_api_url == api_url,
            r.llm_model == model,
            r.system_prompt == system_prompt,
    {
        Self { llm_api_key: api_key, llm_api_url: api_url, llm_model: model, system_prompt }
    }

    /// Settles what configuration the service starts with: the one read from
    /// the configuration file when there was one, and the default otherwise.
    pub fn load(loaded: Option<Config>) -> (r: Self)
        ensures
            loaded is Some ==> r == loaded->0,
            loaded is None ==> {
                &&& r.llm_api_key@ =~= Seq::<char>::empty()
                &&& r.llm_api_url@ =~= Seq::<char>::empty()
                &&& r.llm_model@ =~= Seq::<char>::empty()
                &&& r.system_prompt@ == default_system_prompt()
            },
    {
        match loaded {
            Some(c) => c,
            None => Self::default(),
        }
    }

    /// Whether the configuration is complete enough to call the external
    /// model.
    pub fn is_configured(&self) -> (r: bool)
        ensures
            r == spec_is_configured(*self),
    {
        !self.llm_api_key.as_str().is_empty() && !self.llm_api_url.as_str().is_empty()
            && !self.llm_model.as_str().is_empty() && !self.system_prompt.as_str().is_empty()
            && !str_eq(self.llm_api_key.as_str(), "your-api-key-here")
    }

    /// The credential for the external model.
    pub fn api_key(&self) -> (r: &str)
        ensures
            r@ == self.llm_api_key@,
    {
        self.llm_api_key.as_str()
    }

    /// The endpoint of the external model.
    pub fn api_url(&self) -> (r: &str)
        ensures
            r@ == self.llm_api_url@,
    {
        self.llm_api_url.as_str()
    }

    /// The name of the model to call.
    pub fn model(&self) -> (r: &str)
        ensures
            r@ == self.llm_model@,
    {
        self.llm_model.as_str()
    }

    /// The system prompt sent with every translation.
    pub fn system_prompt(&self) -> (r: &str)
        ensures
            r@ == self.system_prompt@,
    {
        self.system_prompt.as_str()
    }
}

} // verus!

//! Administrative view and mutation of the runtime configuration.
//!
//! The administrative interface shows the configuration with the credential
//! masked, and updates it field by field: only provided, non-empty fields
//! overwrite the stored ones, and a credential equal to the placeholder is
//! ignored. The HTTP endpoints and the persistence of the updated value to
//! disk live in the unverified shell.

use vstd::prelude::*;
use vstd::string::StrSliceExecFns;
use vstd::string::StringExecFns;
use crate::config::Config;
use crate::config::placeholder_key;
use crate::strutil::str_eq;

verus! {

/// A partial configuration update: absent fields are left alone.
#[derive(Clone, Debug)]
pub struct ConfigUpdate {
    pub llm_api_key: Option<String>,
    pub llm_api_url: Option<String>,
    pub llm_model: Option<String>,
}

/// The configuration as shown to an administrator, credential masked.
#[derive(Clone, Debug)]
pub struct ConfigResponse {
    pub llm_api_url: String,
    pub llm_model: String,
    pub llm_api_key_masked: String,
}

/// The masked form of a credential: short keys are hidden entirely, longer
/// ones show their first and last four characters.
pub open spec fn masked_key(k: Seq<char>) -> Seq<char> {
    if k.len() <= 8 {
        "***"@
    } else {
        k.subrange(0, 4) + "..."@ + k.subrange(k.len() - 4, k.len() as int)
    }
}

/// Masks a credential for display.
pub fn mask_api_key(key: &str) -> (r: String)
    ensures
        r@ == masked_key(key@),
{
    let n = key.unicode_len();
    if n <= 8 {
        "***".to_owned()
    } else {
        let mut r = key.substring_char(0, 4).to_owned();
        r.append("...");
        r.append(key.substring_char(n - 4, n));
        r
    }
}

/// Builds the administrative view of a configuration.
pub fn config_response(config: &Config) -> (r: ConfigResponse)
    ensures
        r.llm_api_url@ == config.llm_api_url@,
        r.llm_model@ == config.llm_model@,
        r.llm_api_key_masked@ == masked_key(config.llm_api_key@),
{
    ConfigResponse {
        llm_api_url: config.llm_api_url.clone(),
        llm_model: config.llm_model.clone(),
        llm_api_key_masked: mask_api_key(config.llm_api_key.as_str()),
    }
}

/// The provided credential is applied: present, non-empty, and not the
/// placeholder.
pub open spec fn key_update_applies(u: ConfigUpdate) -> bool {
    u.llm_api_key is Some && u.llm_api_key->0@.len() > 0 && u.llm_api_key->0@ != placeholder_key()
}

/// The provided endpoint is applied: present and non-empty.
pub open spec fn url_update_applies(u: ConfigUpdate) -> bool {
    u.llm_api_url is Some && u.llm_api_url->0@.len() > 0
}

/// The provided model name is applied: present and non-empty.
pub open spec fn model_update_applies(u: ConfigUpdate) -> bool {
    u.llm_model is Some && u.llm_model->0@.len() > 0
}

/// The names of the fields an update applies, in the order credential,
/// endpoint, model.
pub open spec fn applied_field_names(u: ConfigUpdate) -> Seq<Seq<char>> {
    (if key_update_applies(u) {
        seq!["API Key"@]
    } else {
        Seq::<Seq<char>>::empty()
    }) + (if url_update_applies(u) {
        seq!["API URL"@]
    } else {
        Seq::<Seq<char>>::empty()
    }) + (if model_update_applies(u) {
        seq!["模型"@]
    } else {
        Seq::<Seq<char>>::empty()
    })
}

/// Applies a partial update to the configuration and reports exactly which
/// fields were overwritten. Empty or absent fields change nothing, and a
/// credential equal to the placeholder is ignored.
pub fn apply_config_update(config: &mut Config, update: &ConfigUpdate) -> (applied: Vec<String>)
    ensures
        final(config).llm_api_key == (if key_update_applies(*update) {
            update.llm_api_key->0
        } else {
            old(config).llm_api_key
        }),
        final(config).llm_api_url == (if url_update_applies(*update) {
            update.llm_api_url->0
        } else {
            old(config).llm_api_url
        }),
        final(config).llm_model == (if model_update_applies(*update) {
            update.llm_model->0
        } else {
            old(config).llm_model
        }),
        final(config).system_prompt == old(config).system_prompt,
        applied.deep_view() == applied_field_names(*update),
{
    let mut applied: Vec<String> = Vec::new();
    if let Some(api_key) = &update.llm_api_key {
        if !api_key.as_str().is_empty() && !str_eq(api_key.as_str(), "your-api-key-here") {
            config.llm_api_key = api_key.clone();
            applied.push("API Key".to_owned());
        }
    }
    if let Some(api_url) = &update.llm_api_url {
        if !api_url.as_str().is_empty() {
            config.llm_api_url = api_url.clone();
            applied.push("API URL".to_owned());
        }
    }
    if let Some(model) = &update.llm_model {
        if !model.as_str().is_empty() {
            config.llm_model = model.clone();
            applied.push("模型".to_owned());
        }
    }
    proof {
        assert(applied.deep_view() =~~= applied_field_names(*update));
    }
    applied
}

} // verus!

//! Layered configuration with per-field defaults.
//!
//! A [`Config`] is resolved from an optional partial record ([`ConfigPatch`]):
//! each field independently takes the supplied value when one is present and
//! the compiled-in default otherwise, so a missing or absent source never
//! prevents producing a complete record.

use vstd::prelude::*;

verus! {

// ---------------------------------------------------------------------------
// Compiled-in defaults
// ---------------------------------------------------------------------------

pub open spec fn spec_default_code_model() -> Seq<char> {
    "codestral-latest"@
}

pub open spec fn spec_default_chat_model() -> Seq<char> {
    "mistral-large-latest"@
}

pub open spec fn spec_default_code_api_key_env() -> Seq<char> {
    "CODESTRAL_API_KEY"@
}

pub open spec fn spec_default_chat_api_key_env() -> Seq<char> {
    "MISTRAL_API_KEY"@
}

pub open spec fn spec_default_code_api_url() -> Seq<char> {
    "https://codestral.mistral.ai/v1/fim/completions"@
}

pub open spec fn spec_default_chat_api_url() -> Seq<char> {
    "https://api.mistral.ai/v1/chat/completions"@
}

pub open spec fn spec_default_log_directory() -> Seq<char> {
    "logs"@
}

pub open spec fn spec_default_config_path() -> Seq<char> {
    "config.toml"@
}

/// Default code-completion model name.
pub fn default_code_model() -> (s: String)
    ensures
        s@ == spec_default_code_model(),
{
    "codestral-latest".to_owned()
}

/// Default chat model name.
pub fn default_chat_model() -> (s: String)
    ensures
        s@ == spec_default_chat_model(),
{
    "mistral-large-latest".to_owned()
}

/// Default name of the environment variable holding the code API key.
pub fn default_code_api_key_env() -> (s: String)
    ensures
        s@ == spec_default_code_api_key_env(),
{
    "CODESTRAL_API_KEY".to_owned()
}

/// Default name of the environment variable holding the chat API key.
pub fn default_chat_api_key_env() -> (s: String)
    ensures
        s@ == spec_default_chat_api_key_env(),
{
    "MISTRAL_API_KEY".to_owned()
}

/// Default endpoint for fill-in-the-middle code completion.
pub fn default_code_api_url() -> (s: String)
    ensures
        s@ == spec_default_code_api_url(),
{
    "https://codestral.mistral.ai/v1/fim/completions".to_owned()
}

/// Default endpoint for chat completion.
pub fn default_chat_api_url() -> (s: String)
    ensures
        s@ == spec_default_chat_api_url(),
{
    "https://api.mistral.ai/v1/chat/completions".to_owned()
}

/// Default sampling temperature for code completion, in thousandths.
pub fn default_code_temperature_milli() -> (n: u32)
    ensures
        n == 0,
{
    0
}

/// Default sampling temperature for chat, in thousandths.
pub fn default_chat_temperature_milli() -> (n: u32)
    ensures
        n == 700,
{
    700
}

/// Default token cap for code completion requests.
pub fn default_max_tokens_code() -> (n: u32)
    ensures
        n == 512,
{
    512
}

/// Default token cap for chat requests.
pub fn default_max_tokens_chat() -> (n: u32)
    ensures
        n == 2048,
{
    2048
}

/// Default directory that receives the log and output files.
pub fn default_log_directory() -> (s: String)
    ensures
        s@ == spec_default_log_directory(),
{
    "logs".to_owned()
}

/// Default location of the configuration file.
pub fn default_config_path() -> (s: String)
    ensures
        s@ == spec_default_config_path(),
{
    "config.toml".to_owned()
}

// ---------------------------------------------------------------------------
// The resolved record and its mathematical model
// ---------------------------------------------------------------------------

/// Fully resolved, immutable settings record.
///
/// Temperatures are stored in thousandths so that the record is made of
/// plain integers and strings; the transport layer converts to the wire's
/// numeric type when serializing.
#[derive(Debug, Clone)]
pub struct Config {
    pub code_model: String,
    pub chat_model: String,
    pub code_temperature_milli: u32,
    pub chat_temperature_milli: u32,
    pub code_api_key_env: String,
    pub chat_api_key_env: String,
    pub code_api_url: String,
    pub chat_api_url: String,
    pub max_tokens_code: u32,
    pub max_tokens_chat: u32,
    pub log_directory: String,
    pub config_path: String,
}

/// Mathematical model of a [`Config`]: every string as a sequence of
/// characters.
#[verifier::ext_equal]
pub struct ConfigModel {
    pub code_model: Seq<char>,
    pub chat_model: Seq<char>,
    pub code_temperature_milli: u32,
    pub chat_temperature_milli: u32,
    pub code_api_key_env: Seq<char>,
    pub chat_api_key_env: Seq<char>,
    pub code_api_url: Seq<char>,
    pub chat_api_url: Seq<char>,
    pub max_tokens_code: u32,
    pub max_tokens_chat: u32,
    pub log_directory: Seq<char>,
    pub config_path: Seq<char>,
}

impl View for Config {
    type V = ConfigModel;

    open spec fn view(&self) -> ConfigModel {
        ConfigModel {
            code_model: self.code_model@,
            chat_model: self.chat_model@,
            code_temperature_milli: self.code_temperature_milli,
            chat_temperature_milli: self.chat_temperature_milli,
            code_api_key_env: self.code_api_key_env@,
            chat_api_key_env: self.chat_api_key_env@,
            code_api_url: self.code_api_url@,
            chat_api_url: self.chat_api_url@,
            max_tokens_code: self.max_tokens_code,
            max_tokens_chat: self.max_tokens_chat,
            log_directory: self.log_directory@,
            config_path: self.config_path@,
        }
    }
}

/// The model of the all-defaults record.
pub open spec fn spec_default_config() -> ConfigModel {
    ConfigModel {
        code_model: spec_default_code_model(),
        chat_model: spec_default_chat_model(),
        code_temperature_milli: 0,
        chat_temperature_milli: 700,
        code_api_key_env: spec_default_code_api_key_env(),
        chat_api_key_env: spec_default_chat_api_key_env(),
        code_api_url: spec_default_code_api_url(),
        chat_api_url: spec_default_chat_api_url(),
        max_tokens_code: 512,
        max_tokens_chat: 2048,
        log_directory: spec_default_log_directory(),
        config_path: spec_default_config_path(),
    }
}

// ---------------------------------------------------------------------------
// Partial records and resolution
// ---------------------------------------------------------------------------

/// A partial settings record, as read from a configuration source.
///
/// `None` in a field means the source did not mention it.
pub struct ConfigPatch {
    pub code_model: Option<String>,
    pub chat_model: Option<String>,
    pub code_temperature_milli: Option<u32>,
    pub chat_temperature_milli: Option<u32>,
    pub code_api_key_env: Option<String>,
    pub chat_api_key_env: Option<String>,
    pub code_api_url: Option<String>,
    pub chat_api_url: Option<String>,
    pub max_tokens_code: Option<u32>,
    pub max_tokens_chat: Option<u32>,
    pub log_directory: Option<String>,
    pub config_path: Option<String>,
}

/// Mathematical model of a [`ConfigPatch`].
#[verifier::ext_equal]
pub struct PatchModel {
    pub code_model: Option<Seq<char>>,
    pub chat_model: Option<Seq<char>>,
    pub code_temperature_milli: Option<u32>,
    pub chat_temperature_milli: Option<u32>,
    pub code_api_key_env: Option<Seq<char>>,
    pub chat_api_key_env: Option<Seq<char>>,
    pub code_api_url: Option<Seq<char>>,
    pub chat_api_url: Option<Seq<char>>,
    pub max_tokens_code: Option<u32>,
    pub max_tokens_chat: Option<u32>,
    pub log_directory: Option<Seq<char>>,
    pub config_path: Option<Seq<char>>,
}

impl View for ConfigPatch {
    type V = PatchModel;

    open spec fn view(&self) -> PatchModel {
        PatchModel {
            code_model: self.code_model.deep_view(),
            chat_model: self.chat_model.deep_view(),
            code_temperature_milli: self.code_temperature_milli,
            chat_temperature_milli: self.chat_temperature_milli,
            code_api_key_env: self.code_api_key_env.deep_view(),
            chat_api_key_env: self.chat_api_key_env.deep_view(),
            code_api_url: self.code_api_url.deep_view(),
            chat_api_url: self.chat_api_url.deep_view(),
            max_tokens_code: self.max_tokens_code,
            max_tokens_chat: self.max_tokens_chat,
            log_directory: self.log_directory.deep_view(),
            config_path: self.config_path.deep_view(),
        }
    }
}

/// The model of the patch that mentions no field.
pub open spec fn spec_empty_patch() -> PatchModel {
    PatchModel {
        code_model: None,
        chat_model: None,
        code_temperature_milli: None,
        chat_temperature_milli: None,
        code_api_key_env: None,
        chat_api_key_env: None,
        code_api_url: None,
        chat_api_url: None,
        max_tokens_code: None,
        max_tokens_chat: None,
        log_directory: None,
        config_path: None,
    }
}

/// Field-by-field resolution: each field takes the supplied value when
/// present and its compiled-in default otherwise, independently of every
/// other field.
pub open spec fn spec_resolve(p: PatchModel) -> ConfigModel {
    ConfigModel {
        code_model: match p.code_model {
            Some(v) => v,
            None => spec_default_code_model(),
        },
        chat_model: match p.chat_model {
            Some(v) => v,
            None => spec_default_chat_model(),
        },
        code_temperature_milli: match p.code_temperature_milli {
            Some(v) => v,
            None => 0,
        },
        chat_temperature_milli: match p.chat_temperature_milli {
            Some(v) => v,
            None => 700,
        },
        code_api_key_env: match p.code_api_key_env {
            Some(v) => v,
            None => spec_default_code_api_key_env(),
        },
        chat_api_key_env: match p.chat_api_key_env {
            Some(v) => v,
            None => spec_default_chat_api_key_env(),
        },
        code_api_url: match p.code_api_url {
            Some(v) => v,
            None => spec_default_code_api_url(),
        },
        chat_api_url: match p.chat_api_url {
            Some(v) => v,
            None => spec_default_chat_api_url(),
        },
        max_tokens_code: match p.max_tokens_code {
            Some(v) => v,
            None => 512,
        },
        max_tokens_chat: match p.max_tokens_chat {
            Some(v) => v,
            None => 2048,
        },
        log_directory: match p.log_directory {
            Some(v) => v,
            None => spec_default_log_directory(),
        },
        config_path: match p.config_path {
            Some(v) => v,
            None => spec_default_config_path(),
        },
    }
}

impl ConfigPatch {
    /// The patch that mentions no field.
    pub fn empty() -> (p: ConfigPatch)
        ensures
            p@ == spec_empty_patch(),
    {
        ConfigPatch {
            code_model: None,
            chat_model: None,
            code_temperature_milli: None,
            chat_temperature_milli: None,
            code_api_key_env: None,
            chat_api_key_env: None,
            code_api_url: None,
            chat_api_url: None,
            max_tokens_code: None,
            max_tokens_chat: None,
            log_directory: None,
            config_path: None,
        }
    }
}

impl Config {
    /// Resolve a partial record into a complete one.
    ///
    /// This never fails: every absent field falls back to its default.
    pub fn from_patch(p: ConfigPatch) -> (c: Config)
        ensures
            c@ == spec_resolve(p@),
    {
        Config {
            code_model: match p.code_model {
                Some(v) => v,
                None => default_code_model(),
            },
            chat_model: match p.chat_model {
                Some(v) => v,
                None => default_chat_model(),
            },
            code_temperature_milli: match p.code_temperature_milli {
                Some(v) => v,
                None => default_code_temperature_milli(),
            },
            chat_temperature_milli: match p.chat_temperature_milli {
                Some(v) => v,
                None => default_chat_temperature_milli(),
            },
            code_api_key_env: match p.code_api_key_env {
                Some(v) => v,
                None => default_code_api_key_env(),
            },
            chat_api_key_env: match p.chat_api_key_env {
                Some(v) => v,
                None => default_chat_api_key_env(),
            },
            code_api_url: match p.code_api_url {
                Some(v) => v,
                None => default_code_api_url(),
            },
            chat_api_url: match p.chat_api_url {
                Some(v) => v,
                None => default_chat_api_url(),
            },
            max_tokens_code: match p.max_tokens_code {
                Some(v) => v,
                None => default_max_tokens_code(),
            },
            max_tokens_chat: match p.max_tokens_chat {
                Some(v) => v,
                None => default_max_tokens_chat(),
            },
            log_directory: match p.log_directory {
                Some(v) => v,
                None => default_log_directory(),
            },
            config_path: match p.config_path {
                Some(v) => v,
                None => default_config_path(),
            },
        }
    }
}

impl Default for Config {
    /// The all-defaults record.
    fn default() -> (c: Config)
        ensures
            c@ == spec_default_config(),
    {
        Config {
            code_model: default_code_model(),
            chat_model: default_chat_model(),
            code_temperature_milli: default_code_temperature_milli(),
            chat_temperature_milli: default_chat_temperature_milli(),
            code_api_key_env: default_code_api_key_env(),
            chat_api_key_env: default_chat_api_key_env(),
            code_api_url: default_code_api_url(),
            chat_api_url: default_chat_api_url(),
            max_tokens_code: default_max_tokens_code(),
            max_tokens_chat: default_max_tokens_chat(),
            log_directory: default_log_directory(),
            config_path: default_config_path(),
        }
    }
}

} // verus!

//! Configuration data structures

use vstd::prelude::*;
use crate::utils::chars::str_eq;

verus! {

/// TTS/STT provider backend
#[derive(Debug, Clone, Copy, PartialEq, Eq, Structural)]
pub enum Provider {
    /// Local sherpa-onnx model
    Local,
    /// Alibaba Cloud DashScope (Qwen) API
    Dashscope,
}

impl Default for Provider {
    fn default() -> (r: Self)
        ensures
            r == Provider::Local,
    {
        Provider::Local
    }
}

impl Provider {
    /// Whether this is the DashScope cloud provider.
    pub fn is_dashscope(&self) -> (b: bool)
        ensures
            b == (*self == Provider::Dashscope),
    {
        matches!(self, Provider::Dashscope)
    }
}

/// DashScope region preset
#[derive(Debug, Clone, Copy, PartialEq, Eq, Structural)]
pub enum ApiRegion {
    /// Singapore international endpoint
    Singapore,
    /// China (Beijing) endpoint
    Beijing,
    /// Fully custom `base_url`
    Custom,
}

impl Default for ApiRegion {
    fn default() -> (r: Self)
        ensures
            r == ApiRegion::Singapore,
    {
        ApiRegion::Singapore
    }
}

/// The default API base URL of a region.
pub open spec fn region_base_url(r: ApiRegion) -> Seq<char> {
    match r {
        ApiRegion::Singapore => "https://dashscope-intl.aliyuncs.com/api/v1"@,
        ApiRegion::Beijing => "https://dashscope.aliyuncs.com/api/v1"@,
        ApiRegion::Custom => ""@,
    }
}

/// The slug that scopes keys per region.
pub open spec fn region_slug(r: ApiRegion) -> Seq<char> {
    match r {
        ApiRegion::Singapore => "singapore"@,
        ApiRegion::Beijing => "beijing"@,
        ApiRegion::Custom => "custom"@,
    }
}

/// The environment variable that holds the API key by default.
pub open spec fn default_key_env() -> Seq<char> {
    "DASHSCOPE_API_KEY"@
}

impl ApiRegion {
    /// Default API base URL for this region
    pub fn base_url(&self) -> (s: &'static str)
        ensures
            s@ == region_base_url(*self),
    {
        match self {
            ApiRegion::Singapore => "https://dashscope-intl.aliyuncs.com/api/v1",
            ApiRegion::Beijing => "https://dashscope.aliyuncs.com/api/v1",
            ApiRegion::Custom => "",
        }
    }

    /// Slug used to scope keys per region (keyring/credential/file)
    pub fn slug(&self) -> (s: &'static str)
        ensures
            s@ == region_slug(*self),
    {
        match self {
            ApiRegion::Singapore => "singapore",
            ApiRegion::Beijing => "beijing",
            ApiRegion::Custom => "custom",
        }
    }

    /// Default environment variable that holds the API key for this region
    pub fn default_env(&self) -> (s: &'static str)
        ensures
            s@ == default_key_env(),
    {
        "DASHSCOPE_API_KEY"
    }
}

/// Where the API key should be read from
#[derive(Debug, Clone, Copy, PartialEq, Eq, Structural)]
pub enum KeySource {
    /// Try credential dir, then keyring, then file, then env
    Auto,
    /// systemd `$CREDENTIALS_DIRECTORY`
    Credential,
    /// Freedesktop Secret Service (GNOME Keyring / KWallet)
    Keyring,
    /// 0600 file
    File,
    /// Environment variable (dev only)
    Env,
}

impl Default for KeySource {
    fn default() -> (r: Self)
        ensures
            r == KeySource::Auto,
    {
        KeySource::Auto
    }
}

/// Cloud API (DashScope) configuration
#[derive(Debug, Clone)]
pub struct ApiConfig {
    /// Region preset
    pub region: ApiRegion,
    /// Optional explicit base URL (required when `region = "custom"`)
    pub base_url: String,
    /// Optional env var override; defaults to the region's variable
    pub api_key_env: String,
    /// Key resolution strategy
    pub key_source: KeySource,
    /// Optional explicit key file path
    pub key_file: String,
    /// HTTP request timeout in seconds
    pub timeout_secs: u64,
}

/// The default HTTP timeout in seconds.
pub fn default_timeout_secs() -> (r: u64)
    ensures
        r == 60,
{
    60
}

/// The default of boolean switches that are on unless configured off.
pub fn default_true() -> (r: bool)
    ensures
        r,
{
    true
}

/// The default cloud speech-recognition model.
pub fn default_asr_model() -> (r: String)
    ensures
        r@ == "qwen3-asr-flash"@,
{
    "qwen3-asr-flash".to_owned()
}

/// The default cloud speech-synthesis model.
pub fn default_tts_model() -> (r: String)
    ensures
        r@ == "qwen3-tts-flash"@,
{
    "qwen3-tts-flash".to_owned()
}

impl Default for ApiConfig {
    fn default() -> (r: Self)
        ensures
            r.region == ApiRegion::Singapore,
            r.base_url@ == Seq::<char>::empty(),
            r.api_key_env@ == Seq::<char>::empty(),
            r.key_source == KeySource::Auto,
            r.key_file@ == Seq::<char>::empty(),
            r.timeout_secs == 60,
    {
        ApiConfig {
            region: ApiRegion::default(),
            base_url: String::new(),
            api_key_env: String::new(),
            key_source: KeySource::default(),
            key_file: String::new(),
            timeout_secs: default_timeout_secs(),
        }
    }
}

/// The effective base URL: the explicit one, or else the region's.
pub open spec fn effective_base_url_of(api: ApiConfig) -> Seq<char> {
    if api.base_url@.len() != 0 {
        api.base_url@
    } else {
        region_base_url(api.region)
    }
}

/// The effective key variable: the explicit one, or else the region's.
pub open spec fn effective_env_of(api: ApiConfig) -> Seq<char> {
    if api.api_key_env@.len() != 0 {
        api.api_key_env@
    } else {
        default_key_env()
    }
}

impl ApiConfig {
    /// Resolve the effective base URL
    pub fn effective_base_url(&self) -> (s: String)
        ensures
            s@ == effective_base_url_of(*self),
    {
        if !self.base_url.as_str().is_empty() {
            self.base_url.clone()
        } else {
            self.region.base_url().to_owned()
        }
    }

    /// Resolve the effective API key environment variable name
    pub fn effective_env(&self) -> (s: String)
        ensures
            s@ == effective_env_of(*self),
    {
        if !self.api_key_env.as_str().is_empty() {
            self.api_key_env.clone()
        } else {
            self.region.default_env().to_owned()
        }
    }
}

/// TTS language configuration
#[derive(Debug, Clone)]
pub struct TtsLanguageConfig {
    /// Whether this language is enabled
    pub enabled: bool,
    /// Backend provider for this language
    pub provider: Provider,
    /// Local sherpa model ID (required when `provider = "local"`)
    pub model_id: String,
    /// Cloud model ID (e.g. "qwen3-tts-flash")
    pub api_model: String,
    /// Cloud voice name (e.g. "Cherry")
    pub voice: String,
    /// Cloud `language_type` (e.g. "English"); derived from the language code if empty
    pub language_type: String,
    /// Use SSE streaming PCM playback (cloud only)
    pub stream: bool,
}

/// TTS configuration section
#[derive(Debug, Clone)]
pub struct TtsConfig {
    /// Default language code (e.g., "en")
    pub default: String,
    /// Language-specific configurations, keyed by language code
    pub languages: Vec<(String, TtsLanguageConfig)>,
}

/// STT configuration section
#[derive(Debug, Clone)]
pub struct SttConfig {
    /// Backend provider
    pub provider: Provider,
    /// Whisper model ID (required when `provider = "local"`)
    pub model_id: String,
    /// Cloud model ID (e.g. "qwen3-asr-flash")
    pub api_model: String,
    /// Optional fixed language hint for the cloud ASR (empty = use requested language)
    pub api_language: String,
}

/// Application configuration
#[derive(Debug, Clone)]
pub struct AppConfig {
    pub tts: TtsConfig,
    pub stt: SttConfig,
    /// Cloud API provider settings (DashScope)
    pub api: ApiConfig,
}

/// The DashScope `language_type` for a normalized language code.
pub open spec fn language_type_of(lang: Seq<char>) -> Seq<char> {
    if lang == "zh"@ {
        "Chinese"@
    } else if lang == "en"@ {
        "English"@
    } else if lang == "fr"@ {
        "French"@
    } else if lang == "de"@ {
        "German"@
    } else if lang == "ru"@ {
        "Russian"@
    } else if lang == "it"@ {
        "Italian"@
    } else if lang == "es"@ {
        "Spanish"@
    } else if lang == "pt"@ {
        "Portuguese"@
    } else if lang == "ja"@ {
        "Japanese"@
    } else if lang == "ko"@ {
        "Korean"@
    } else {
        "English"@
    }
}

/// Map a normalized language code to a DashScope `language_type` value
pub fn language_type_for_code(lang: &str) -> (r: &'static str)
    ensures
        r@ == language_type_of(lang@),
{
    if str_eq(lang, "zh") {
        "Chinese"
    } else if str_eq(lang, "en") {
        "English"
    } else if str_eq(lang, "fr") {
        "French"
    } else if str_eq(lang, "de") {
        "German"
    } else if str_eq(lang, "ru") {
        "Russian"
    } else if str_eq(lang, "it") {
        "Italian"
    } else if str_eq(lang, "es") {
        "Spanish"
    } else if str_eq(lang, "pt") {
        "Portuguese"
    } else if str_eq(lang, "ja") {
        "Japanese"
    } else if str_eq(lang, "ko") {
        "Korean"
    } else {
        "English"
    }
}

/// The language codes that DashScope speaks under a name of their own.
pub open spec fn is_dashscope_language(lang: Seq<char>) -> bool {
    lang == "zh"@ || lang == "en"@ || lang == "fr"@ || lang == "de"@ || lang == "ru"@
        || lang == "it"@ || lang == "es"@ || lang == "pt"@ || lang == "ja"@ || lang == "ko"@
}

/// Each language DashScope speaks is sent under its own name.
pub proof fn law_language_type_names()
    ensures
        language_type_of("zh"@) == "Chinese"@,
        language_type_of("en"@) == "English"@,
        language_type_of("fr"@) == "French"@,
        language_type_of("de"@) == "German"@,
        language_type_of("ru"@) == "Russian"@,
        language_type_of("it"@) == "Italian"@,
        language_type_of("es"@) == "Spanish"@,
        language_type_of("pt"@) == "Portuguese"@,
        language_type_of("ja"@) == "Japanese"@,
        language_type_of("ko"@) == "Korean"@,
{
    reveal_strlit("zh");
    reveal_strlit("en");
    reveal_strlit("fr");
    reveal_strlit("de");
    reveal_strlit("ru");
    reveal_strlit("it");
    reveal_strlit("es");
    reveal_strlit("pt");
    reveal_strlit("ja");
    reveal_strlit("ko");
    assert("zh"@[0] == 'z' && "en"@[0] == 'e' && "fr"@[0] == 'f' && "de"@[0] == 'd' && "ru"@[0] == 'r');
    assert("it"@[0] == 'i' && "es"@[0] == 'e' && "pt"@[0] == 'p' && "ja"@[0] == 'j' && "ko"@[0] == 'k');
    assert("en"@[1] == 'n' && "es"@[1] == 's');
}

/// Distinct languages that DashScope speaks are sent under distinct names, and
/// a text is sent as English only when its language is English or one that
/// DashScope does not name.
pub proof fn law_language_type_distinct(a: Seq<char>, b: Seq<char>)
    ensures
        is_dashscope_language(a) && is_dashscope_language(b) && a != b ==> language_type_of(a)
            != language_type_of(b),
        language_type_of(a) == "English"@ <==> (a == "en"@ || !is_dashscope_language(a)),
{
    law_language_type_names();
    reveal_strlit("zh");
    reveal_strlit("en");
    reveal_strlit("fr");
    reveal_strlit("de");
    reveal_strlit("ru");
    reveal_strlit("it");
    reveal_strlit("es");
    reveal_strlit("pt");
    reveal_strlit("ja");
    reveal_strlit("ko");
    reveal_strlit("Chinese");
    reveal_strlit("English");
    reveal_strlit("French");
    reveal_strlit("German");
    reveal_strlit("Russian");
    reveal_strlit("Italian");
    reveal_strlit("Spanish");
    reveal_strlit("Portuguese");
    reveal_strlit("Japanese");
    reveal_strlit("Korean");
    assert("zh"@[0] == 'z' && "en"@[0] == 'e' && "fr"@[0] == 'f' && "de"@[0] == 'd' && "ru"@[0] == 'r');
    assert("it"@[0] == 'i' && "es"@[0] == 'e' && "pt"@[0] == 'p' && "ja"@[0] == 'j' && "ko"@[0] == 'k');
    assert("en"@[1] == 'n' && "es"@[1] == 's');
    assert("Chinese"@[0] == 'C' && "English"@[0] == 'E' && "French"@[0] == 'F' && "German"@[0] == 'G' && "Russian"@[0] == 'R');
    assert("Italian"@[0] == 'I' && "Spanish"@[0] == 'S' && "Portuguese"@[0] == 'P' && "Japanese"@[0] == 'J' && "Korean"@[0] == 'K');
}

} // verus!

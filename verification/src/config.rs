//! Configuration: the settings the service runs with, their defaults, the
//! OCR language string, and where the configuration file is looked for.
use vstd::prelude::*;
use vstd::string::StringExecFns;
use crate::paths::is_backslash;
use crate::text::{lacks, lemma_split_join, split, opt_view, join, join_strings, views};

verus! {

/// The whole configuration of the service.
#[derive(Debug, Clone)]
pub struct Config {
    pub vision_api: VisionApiConfig,
    pub ocr: OcrConfig,
    pub blocked_extensions: Vec<String>,
    pub read_media: ReadMediaConfig,
}

/// Settings of the `read_media` tool: the vision mode of a request that
/// names none.
#[derive(Debug, Clone)]
pub struct ReadMediaConfig {
    pub vision_default: String,
}

/// How to reach the vision API and what to ask it.
#[derive(Debug, Clone)]
pub struct VisionApiConfig {
    pub base_url: String,
    pub api_key: String,
    pub model: String,
    pub max_tokens: u32,
    pub timeout_seconds: u64,
    pub prompt: String,
}

/// OCR settings: engine choice, engine options and the confidence threshold
/// under which the vision API is consulted.
#[derive(Debug, Clone)]
pub struct OcrConfig {
    pub default_engine: String,
    pub engines: OcrEngines,
    pub confidence_threshold: u32,
}

/// Per-engine OCR options.
#[derive(Debug, Clone)]
pub struct OcrEngines {
    pub tesseract: TesseractConfig,
    pub paddle: PaddleConfig,
}

/// Options of the PaddleOCR engine: an explicit executable, and the
/// recognition language (`ch` when none is given).
#[derive(Debug, Clone)]
pub struct PaddleConfig {
    pub paddle_cmd: Option<String>,
    pub lang: Option<String>,
}

/// Options of the Tesseract engine.
#[derive(Debug, Clone)]
pub struct TesseractConfig {
    pub tesseract_cmd: Option<String>,
    pub languages: Vec<String>,
}

/// The OCR languages used when none are configured: simplified Chinese and English.
pub open spec fn default_languages_spec() -> Seq<Seq<char>> {
    seq!["chi_sim"@, "eng"@]
}

/// The prompt sent with an image when none is configured.
pub open spec fn default_prompt_spec() -> Seq<char> {
    "请详细描述这张图片的内容，包括文字、界面元素、布局等。用中文回答。"@
}

/// Default OCR engine choice: `"auto"`.
pub fn default_engine() -> (s: String)
    ensures
        s@ == "auto"@,
{
    String::from_str("auto")
}

/// Default confidence threshold: 60 (out of 100).
pub fn default_confidence_threshold() -> (t: u32)
    ensures
        t == 60,
{
    60
}

/// Default token limit of a vision answer: 10240.
pub fn default_max_tokens() -> (t: u32)
    ensures
        t == 10240,
{
    10240
}

/// Default request timeout: 30 seconds.
pub fn default_timeout() -> (t: u64)
    ensures
        t == 30,
{
    30
}

/// Default OCR languages: `chi_sim` and `eng`, in that order.
pub fn default_languages() -> (v: Vec<String>)
    ensures
        views(v@) == default_languages_spec(),
{
    let v = vec![String::from_str("chi_sim"), String::from_str("eng")];
    assert(views(v@) =~= default_languages_spec());
    v
}

/// Default prompt for the vision API.
pub fn default_prompt() -> (s: String)
    ensures
        s@ == default_prompt_spec(),
{
    String::from_str("请详细描述这张图片的内容，包括文字、界面元素、布局等。用中文回答。")
}

impl Default for TesseractConfig {
    /// No explicit executable, and the default languages.
    fn default() -> (c: Self)
        ensures
            c.tesseract_cmd is None,
            views(c.languages@) == default_languages_spec(),
    {
        TesseractConfig { tesseract_cmd: None, languages: default_languages() }
    }
}

impl Default for PaddleConfig {
    /// No explicit executable and no explicit language.
    fn default() -> (c: Self)
        ensures
            c.paddle_cmd is None,
            c.lang is None,
    {
        PaddleConfig { paddle_cmd: None, lang: None }
    }
}

impl Default for OcrEngines {
    /// The default Tesseract and PaddleOCR options.
    fn default() -> (e: Self)
        ensures
            e.tesseract.tesseract_cmd is None,
            views(e.tesseract.languages@) == default_languages_spec(),
            e.paddle.paddle_cmd is None,
            e.paddle.lang is None,
    {
        OcrEngines { tesseract: TesseractConfig::default(), paddle: PaddleConfig::default() }
    }
}

/// Default vision model: `mimo-v2.5`.
pub fn default_model() -> (s: String)
    ensures
        s@ == "mimo-v2.5"@,
{
    String::from_str("mimo-v2.5")
}

impl Default for VisionApiConfig {
    /// No endpoint and no key (so the vision API counts as not configured),
    /// the default model, token limit, timeout and prompt.
    fn default() -> (c: Self)
        ensures
            c.base_url@.len() == 0,
            c.api_key@.len() == 0,
            c.model@ == "mimo-v2.5"@,
            c.max_tokens == 10240,
            c.timeout_seconds == 30,
            c.prompt@ == default_prompt_spec(),
    {
        VisionApiConfig {
            base_url: String::new(),
            api_key: String::new(),
            model: default_model(),
            max_tokens: default_max_tokens(),
            timeout_seconds: default_timeout(),
            prompt: default_prompt(),
        }
    }
}

/// Default vision mode of a request: `"auto"`.
pub fn default_vision_mode() -> (s: String)
    ensures
        s@ == "auto"@,
{
    String::from_str("auto")
}

impl Default for ReadMediaConfig {
    /// The default vision mode, `auto`.
    fn default() -> (c: Self)
        ensures
            c.vision_default@ == "auto"@,
    {
        ReadMediaConfig { vision_default: default_vision_mode() }
    }
}

impl Config {
    /// The OCR language string handed to Tesseract: the configured languages
    /// joined with `+`.
    pub open spec fn languages_spec(&self) -> Seq<char> {
        join(views(self.ocr.engines.tesseract.languages@), "+"@)
    }

    /// The configured OCR languages joined with `+` (e.g. `chi_sim+eng`).
    pub fn languages_string(&self) -> (s: String)
        ensures
            s@ == self.languages_spec(),
    {
        join_strings(&self.ocr.engines.tesseract.languages, "+")
    }
}

/// Splitting the language string at `+` gives the configured languages back,
/// when there is at least one and none holds a `+`.
pub proof fn lemma_languages_round_trip(c: Config)
    requires
        c.ocr.engines.tesseract.languages@.len() > 0,
        forall|k: int|
            0 <= k < c.ocr.engines.tesseract.languages@.len() ==> lacks(
                #[trigger] c.ocr.engines.tesseract.languages@[k]@,
                '+',
            ),
    ensures
        split(c.languages_spec(), '+') == views(c.ocr.engines.tesseract.languages@),
{
    reveal_strlit("+");
    assert("+"@ =~= seq!['+']);
    let parts = views(c.ocr.engines.tesseract.languages@);
    assert forall|k: int| 0 <= k < parts.len() implies lacks(#[trigger] parts[k], '+') by {
        assert(parts[k] == c.ocr.engines.tesseract.languages@[k]@);
    }
    lemma_split_join(parts, '+');
}

/// Why no configuration file could be chosen.
#[derive(Debug, Clone, Copy, PartialEq, Eq)]
pub enum ConfigPathError {
    /// A home directory is known but neither the global nor the local file exists.
    NoConfigFound,
    /// No home directory is known and no path was given.
    NoHomeDirectory,
}

impl ConfigPathError {
    /// The text of the error.
    pub open spec fn message_spec(self) -> Seq<char> {
        match self {
            ConfigPathError::NoConfigFound =>
                "No config file found. Provide --config <path> or create ~/.config/media-mcp/config.json"@,
            ConfigPathError::NoHomeDirectory =>
                "Cannot determine home directory and no --config provided"@,
        }
    }

    /// The text of the error, as the service reports it.
    pub fn message(&self) -> (s: String)
        ensures
            s@ == self.message_spec(),
    {
        match self {
            ConfigPathError::NoConfigFound => String::from_str(
                "No config file found. Provide --config <path> or create ~/.config/media-mcp/config.json",
            ),
            ConfigPathError::NoHomeDirectory => String::from_str(
                "Cannot determine home directory and no --config provided",
            ),
        }
    }
}

/// Location of the global configuration file below the home directory.
pub open spec fn global_config_suffix() -> Seq<char> {
    ".config/media-mcp/config.json"@
}

/// Name of the project-local configuration file.
pub open spec fn local_config_name() -> Seq<char> {
    ".media-mcp.json"@
}

/// `base` begins a Windows verbatim path (two backslashes, `?`, a backslash).
pub open spec fn verbatim_start(base: Seq<char>) -> bool {
    base.len() >= 4 && is_backslash(base[0]) && is_backslash(base[1]) && base[2] == '?' && is_backslash(base[3])
}

/// What std may put between a base path and a relative path it is joined
/// with: nothing, a slash (Unix) or a backslash (Windows); nothing only after an empty
/// base, a base ending in a separator, or a bare Windows drive.
pub open spec fn join_separator(base: Seq<char>, sep: Seq<char>) -> bool {
    &&& sep.len() == 0 || sep == seq!['/'] || (sep.len() == 1 && is_backslash(sep[0]))
    &&& sep.len() == 0 ==> (base.len() == 0 || base.last() == '/' || is_backslash(base.last()) || (
    base.len() == 2 && base[1] == ':'))
}

/// `r` is `base`, a separator that std may put there, then `rel`.
pub open spec fn joined(base: Seq<char>, rel: Seq<char>, r: Seq<char>) -> bool {
    exists|sep: Seq<char>| join_separator(base, sep) && r == base + sep + rel
}

/// `PathBuf::from(base).join(rel)`, for a relative `rel`. Outside Windows
/// verbatim paths (which std rebuilds from their components) the result is
/// `base`, a separator when one is needed, then `rel`.
#[verifier::external_body]
fn path_join(base: &str, rel: &str) -> (r: String)
    requires
        rel@.len() > 0,
        rel@[0] == '.',
    ensures
        !verbatim_start(base@) ==> joined(base@, rel@, r@),
{
    std::path::Path::new(base).join(rel).to_string_lossy().to_string()
}

/// The path of the global configuration file below `home`: the home
/// directory, a separator when one is needed, then
/// `.config/media-mcp/config.json`.
pub fn global_config_path(home: &str) -> (r: String)
    ensures
        !verbatim_start(home@) ==> joined(home@, global_config_suffix(), r@),
{
    let rel = ".config/media-mcp/config.json";
    proof {
        reveal_strlit(".config/media-mcp/config.json");
    }
    path_join(home, rel)
}

/// Which configuration file is read: the one given, else the global one
/// (when a home directory is known and it exists), else the local one.
pub open spec fn resolve_config_path_spec(
    explicit: Option<Seq<char>>,
    global: Option<Seq<char>>,
    global_exists: bool,
    local_exists: bool,
) -> Result<Seq<char>, ConfigPathError> {
    match explicit {
        Some(p) => Ok(p),
        None => match global {
            None => Err(ConfigPathError::NoHomeDirectory),
            Some(g) => if global_exists {
                Ok(g)
            } else if local_exists {
                Ok(local_config_name())
            } else {
                Err(ConfigPathError::NoConfigFound)
            },
        },
    }
}

/// Chooses the configuration file. `global` is the global path when a home
/// directory is known; the two flags say whether the global and the local
/// file exist.
pub fn resolve_config_path(
    explicit: Option<&str>,
    global: Option<String>,
    global_exists: bool,
    local_exists: bool,
) -> (r: Result<String, ConfigPathError>)
    ensures
        match (r, resolve_config_path_spec(
            match explicit { Some(p) => Some(p@), None => None },
            opt_view(global),
            global_exists,
            local_exists,
        )) {
            (Ok(p), Ok(q)) => p@ == q,
            (Err(e), Err(f)) => e == f,
            _ => false,
        },
{
    match explicit {
        Some(p) => Ok(String::from_str(p)),
        None => match global {
            None => Err(ConfigPathError::NoHomeDirectory),
            Some(g) => if global_exists {
                Ok(g)
            } else if local_exists {
                Ok(String::from_str(".media-mcp.json"))
            } else {
                Err(ConfigPathError::NoConfigFound)
            },
        },
    }
}

} // verus!

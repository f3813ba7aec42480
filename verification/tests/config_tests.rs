use media_mcp::config::{
    default_confidence_threshold, default_engine, default_languages, default_max_tokens,
    default_prompt, default_timeout, global_config_path, resolve_config_path, Config,
    ConfigPathError, OcrConfig, OcrEngines, PaddleConfig, ReadMediaConfig, TesseractConfig, VisionApiConfig,
    default_model,
};

fn sample_config(languages: Vec<&str>) -> Config {
    Config {
        vision_api: VisionApiConfig {
            base_url: "https://example.com/anthropic".to_string(),
            api_key: "key".to_string(),
            model: "mimo-v2.5".to_string(),
            max_tokens: default_max_tokens(),
            timeout_seconds: default_timeout(),
            prompt: default_prompt(),
        },
        ocr: OcrConfig {
            default_engine: default_engine(),
            engines: OcrEngines {
                tesseract: TesseractConfig {
                    tesseract_cmd: None,
                    languages: languages.into_iter().map(|s| s.to_string()).collect(),
                },
                paddle: PaddleConfig::default(),
            },
            confidence_threshold: default_confidence_threshold(),
        },
        blocked_extensions: vec![".png".to_string()],
        read_media: ReadMediaConfig::default(),
    }
}

#[test]
fn defaults_match_documentation() {
    assert_eq!(default_engine(), "auto");
    assert_eq!(default_confidence_threshold(), 60);
    assert_eq!(default_max_tokens(), 10240);
    assert_eq!(default_timeout(), 30);
    assert_eq!(default_languages(), vec!["chi_sim".to_string(), "eng".to_string()]);
    assert_eq!(
        default_prompt(),
        "请详细描述这张图片的内容，包括文字、界面元素、布局等。用中文回答。"
    );
}

#[test]
fn tesseract_and_engines_defaults() {
    let t = TesseractConfig::default();
    assert!(t.tesseract_cmd.is_none());
    assert_eq!(t.languages, vec!["chi_sim".to_string(), "eng".to_string()]);
    let e = OcrEngines::default();
    assert!(e.tesseract.tesseract_cmd.is_none());
    assert_eq!(e.tesseract.languages.len(), 2);
    assert!(e.paddle.paddle_cmd.is_none());
    assert!(e.paddle.lang.is_none());
}

#[test]
fn languages_string_joins_with_plus() {
    assert_eq!(sample_config(vec!["chi_sim", "eng"]).languages_string(), "chi_sim+eng");
    assert_eq!(sample_config(vec!["eng"]).languages_string(), "eng");
    assert_eq!(sample_config(vec![]).languages_string(), "");
    assert_eq!(sample_config(vec!["a", "b", "c"]).languages_string(), "a+b+c");
}

#[test]
fn explicit_config_path_wins() {
    let r = resolve_config_path(Some("my.json"), Some("/home/u/.config/media-mcp/config.json".to_string()), true, true);
    assert_eq!(r, Ok("my.json".to_string()));
}

#[test]
fn global_then_local_config() {
    let g = Some("/home/u/.config/media-mcp/config.json".to_string());
    assert_eq!(
        resolve_config_path(None, g.clone(), true, true),
        Ok("/home/u/.config/media-mcp/config.json".to_string())
    );
    assert_eq!(resolve_config_path(None, g.clone(), false, true), Ok(".media-mcp.json".to_string()));
    assert_eq!(resolve_config_path(None, g, false, false), Err(ConfigPathError::NoConfigFound));
    assert_eq!(resolve_config_path(None, None, true, true), Err(ConfigPathError::NoHomeDirectory));
}

#[test]
fn config_path_error_messages() {
    assert_eq!(
        ConfigPathError::NoConfigFound.message(),
        "No config file found. Provide --config <path> or create ~/.config/media-mcp/config.json"
    );
    assert_eq!(
        ConfigPathError::NoHomeDirectory.message(),
        "Cannot determine home directory and no --config provided"
    );
}

#[test]
fn global_config_path_below_home() {
    let p = global_config_path("/home/u");
    assert_eq!(p, "/home/u/.config/media-mcp/config.json");
    let q = global_config_path("/home/u/");
    assert_eq!(q, "/home/u/.config/media-mcp/config.json");
}

#[test]
fn vision_api_defaults() {
    let v = VisionApiConfig::default();
    assert_eq!(v.base_url, "");
    assert_eq!(v.api_key, "");
    assert_eq!(v.model, "mimo-v2.5");
    assert_eq!(default_model(), "mimo-v2.5");
    assert_eq!(v.max_tokens, 10240);
    assert_eq!(v.timeout_seconds, 30);
    assert_eq!(v.prompt, default_prompt());
}

#[test]
fn languages_string_splits_back() {
    let c = sample_config(vec!["chi_sim", "eng", "jpn"]);
    let back: Vec<String> = c.languages_string().split('+').map(String::from).collect();
    assert_eq!(back, c.ocr.engines.tesseract.languages);
}

#[test]
fn global_config_path_starts_with_home() {
    let p = global_config_path("/srv/home");
    assert!(p.starts_with("/srv/home"));
    assert!(p.ends_with(".config/media-mcp/config.json"));
    assert_eq!(global_config_path(""), ".config/media-mcp/config.json");
}

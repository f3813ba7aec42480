use media_mcp::config::{
    default_prompt, Config, OcrConfig, OcrEngines, PaddleConfig, ReadMediaConfig, TesseractConfig, VisionApiConfig,
};
use media_mcp::handlers::{
    choose_engine, no_engine_observation, prepend_notice, after_ocr, finish_response, invalid_path_message, low_confidence_message, ocr_language,
    plan_ocr, supported_types, unix_path_error, vision_mode, windows_path_error, OcrObservation,
    OcrPlan,
};
use media_mcp::tools::metadata::build_metadata;
use media_mcp::tools::ocr::{EngineRegistry, OcrResult, RegisteredEngine};
use media_mcp::tools::vision::VisionResult;

fn config(api_key: &str) -> Config {
    Config {
        vision_api: VisionApiConfig {
            base_url: "https://example.com".to_string(),
            api_key: api_key.to_string(),
            model: "mimo-v2.5".to_string(),
            max_tokens: 10240,
            timeout_seconds: 30,
            prompt: default_prompt(),
        },
        ocr: OcrConfig {
            default_engine: "auto".to_string(),
            engines: OcrEngines {
                tesseract: TesseractConfig { tesseract_cmd: None, languages: vec!["chi_sim".to_string(), "eng".to_string()] },
                paddle: PaddleConfig::default(),
            },
            confidence_threshold: 60,
        },
        blocked_extensions: vec![],
        read_media: ReadMediaConfig::default(),
    }
}

fn scored(text: Option<&str>, below: bool, display: &str) -> OcrObservation {
    OcrObservation::Scored {
        text: text.map(|t| t.to_string()),
        warning: if text.is_none() { Some("OCR returned empty text".to_string()) } else { None },
        below_threshold: below,
        confidence_display: display.to_string(),
    }
}

#[test]
fn absolute_paths() {
    assert_eq!(unix_path_error("/a/b.png"), None);
    assert_eq!(unix_path_error("a/b.png"), Some("Path must be absolute: a/b.png".to_string()));
    assert_eq!(unix_path_error(""), Some("Path must be absolute: ".to_string()));
    assert_eq!(windows_path_error(r"C:\a.png"), None);
    assert_eq!(windows_path_error("d:/a.png"), None);
    assert_eq!(windows_path_error(r"\a.png"), Some(r"Path must be absolute (e.g. C:\...): \a.png".to_string()));
    assert_eq!(windows_path_error("é:x"), Some(r"Path must be absolute (e.g. C:\...): é:x".to_string()));
    assert_eq!(invalid_path_message("/x", "Permission denied"), "Invalid path '/x': Permission denied");
}

#[test]
fn request_defaults() {
    let c = config("k");
    assert_eq!(ocr_language(None, &c), "chi_sim+eng");
    assert_eq!(ocr_language(Some("eng".to_string()), &c), "eng");
    assert_eq!(vision_mode(None, &c.read_media.vision_default), "auto");
    assert_eq!(vision_mode(Some("skip".to_string()), &c.read_media.vision_default), "skip");
}

#[test]
fn configured_vision_default() {
    assert_eq!(vision_mode(None, "always"), "always");
    assert_eq!(vision_mode(Some("auto".to_string()), "skip"), "auto");
    assert_eq!(ReadMediaConfig::default().vision_default, "auto");
}

#[test]
fn ocr_plans() {
    assert_eq!(plan_ocr("application/pdf", "always"), OcrPlan::NotImage);
    assert_eq!(plan_ocr("image/png", "skip"), OcrPlan::Plain);
    assert_eq!(plan_ocr("image/png", "always"), OcrPlan::Plain);
    assert_eq!(plan_ocr("image/png", "auto"), OcrPlan::Scored);
    assert_eq!(plan_ocr("image/png", "whatever"), OcrPlan::Scored);
}

#[test]
fn auto_mode_falls_back_below_threshold() {
    let a = after_ocr("image/png", "auto", 60, scored(Some("blurry"), true, "42"));
    assert!(a.call_vision);
    assert_eq!(a.ocr_text.as_deref(), Some("blurry"));
    assert_eq!(a.warnings, vec!["OCR confidence (42/100) below threshold (60); falling back to Vision API".to_string()]);
    let a = after_ocr("image/png", "auto", 60, scored(Some("crisp text"), false, "91"));
    assert!(!a.call_vision);
    assert!(a.warnings.is_empty());
    let a = after_ocr("image/png", "auto", 60, scored(None, true, "0"));
    assert!(a.call_vision);
    assert_eq!(a.warnings.len(), 2);
    assert_eq!(a.warnings[0], "OCR returned empty text");
}

#[test]
fn skip_and_always_modes() {
    let plain = |t: &str| OcrObservation::Plain(OcrResult { text: Some(t.to_string()), warning: None });
    let a = after_ocr("image/png", "skip", 60, plain("x"));
    assert!(!a.call_vision);
    let a = after_ocr("image/png", "always", 60, plain("x"));
    assert!(a.call_vision);
    assert_eq!(a.ocr_text.as_deref(), Some("x"));
}

#[test]
fn non_images_get_a_warning_and_no_vision() {
    let a = after_ocr("application/pdf", "always", 60, OcrObservation::NotRun);
    assert!(!a.call_vision);
    assert!(a.ocr_text.is_none());
    assert_eq!(a.warnings, vec!["AI description not yet supported for application/pdf files. Only images are supported in v0.1.".to_string()]);
}

#[test]
fn response_collects_all_warnings() {
    let meta = build_metadata("/tmp/a.png", 1, Some((2, 3)));
    let a = after_ocr("image/png", "auto", 60, scored(Some("t"), true, "10"));
    let v = VisionResult { description: Some("A cat".to_string()), warning: Some("truncated".to_string()) };
    let r = finish_response(meta, a, Some(v));
    assert_eq!(r.file.name, "a.png");
    assert_eq!(r.ocr_text.as_deref(), Some("t"));
    assert_eq!(r.ai_description.as_deref(), Some("A cat"));
    assert_eq!(r.warnings.len(), 2);
    assert_eq!(r.warnings[1], "truncated");
    let meta = build_metadata("/tmp/a.png", 1, None);
    let a = after_ocr("image/png", "skip", 60, OcrObservation::Plain(OcrResult { text: None, warning: Some("w".to_string()) }));
    let r = finish_response(meta, a, None);
    assert!(r.ai_description.is_none());
    assert_eq!(r.warnings, vec!["w".to_string()]);
}

#[test]
fn low_confidence_text() {
    assert_eq!(low_confidence_message("0", 100), "OCR confidence (0/100) below threshold (100); falling back to Vision API");
}

#[test]
fn supported_types_report() {
    let c = config("k");
    let registry = EngineRegistry::new(&c.ocr);
    let s = supported_types(&c, &registry, |_e: &RegisteredEngine| false);
    assert_eq!(s.image_types, vec!["png", "jpg", "jpeg", "gif", "bmp", "webp", "svg", "ico", "tiff"]);
    assert_eq!(s.document_types, vec!["pdf"]);
    assert_eq!(s.video_types, vec!["mp4", "avi", "mkv", "mov", "webm"]);
    assert_eq!(s.audio_types, vec!["mp3", "wav", "flac", "aac", "ogg"]);
    assert!(!s.ocr_available);
    assert!(s.engines.is_empty());
    assert!(s.vision_api_configured);
    assert_eq!(s.vision_api_model, "mimo-v2.5");
    let c = config("");
    let registry = EngineRegistry::new(&c.ocr);
    let s = supported_types(&c, &registry, |e: &RegisteredEngine| e.name() == "tesseract");
    assert!(!s.vision_api_configured);
    assert!(s.ocr_available);
    assert_eq!(s.engines, vec!["tesseract"]);
    let s = supported_types(&c, &registry, |_e: &RegisteredEngine| true);
    assert_eq!(s.engines, vec!["paddle", "tesseract"]);
}

#[test]
fn engine_choice_and_unknown_names() {
    let c = config("k");
    let registry = EngineRegistry::new(&c.ocr);
    let (e, notice) = choose_engine(&registry, "auto", |_e: &RegisteredEngine| true);
    assert_eq!(e.map(|e| e.name()), Some("paddle"));
    assert!(notice.is_none());
    let (e, notice) = choose_engine(&registry, "tesseract", |_e: &RegisteredEngine| false);
    assert_eq!(e.map(|e| e.name()), Some("tesseract"));
    assert!(notice.is_none());
    let (e, notice) = choose_engine(&registry, "easyocr", |e: &RegisteredEngine| e.name() == "tesseract");
    assert_eq!(e.map(|e| e.name()), Some("tesseract"));
    assert_eq!(notice.as_deref(), Some("Unknown OCR engine 'easyocr'; falling back to automatic detection"));
    let (e, _) = choose_engine(&registry, "auto", |_e: &RegisteredEngine| false);
    assert!(e.is_none());
}

#[test]
fn no_engine_means_no_text_and_a_warning() {
    let msg = "No OCR engine available. Install Tesseract or PaddleOCR, or configure a Vision API.";
    match no_engine_observation(OcrPlan::Plain, 60) {
        OcrObservation::Plain(r) => {
            assert!(r.text.is_none());
            assert_eq!(r.warning.as_deref(), Some(msg));
        }
        _ => panic!("plain plan"),
    }
    let obs = no_engine_observation(OcrPlan::Scored, 60);
    let a = after_ocr("image/png", "auto", 60, obs);
    assert!(a.call_vision);
    assert!(a.ocr_text.is_none());
    assert_eq!(a.warnings[0], msg);
    assert_eq!(a.warnings[1], "OCR confidence (0/100) below threshold (60); falling back to Vision API");
    let a = after_ocr("image/png", "auto", 0, no_engine_observation(OcrPlan::Scored, 0));
    assert!(!a.call_vision);
}

#[test]
fn notice_comes_first() {
    let a = after_ocr("image/png", "auto", 60, scored(Some("t"), true, "5"));
    let a = prepend_notice(a, Some("n".to_string()));
    assert_eq!(a.warnings[0], "n");
    assert_eq!(a.warnings.len(), 2);
    assert!(a.call_vision);
    let a = prepend_notice(after_ocr("image/png", "skip", 60, scored_plain()), None);
    assert!(a.warnings.is_empty());
}

fn scored_plain() -> OcrObservation {
    OcrObservation::Plain(OcrResult { text: Some("x".to_string()), warning: None })
}

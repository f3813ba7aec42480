use media_mcp::config::{OcrConfig, OcrEngines};
use media_mcp::tools::ocr::paddle::{
    extract_paddle_text, paddle_decode, paddle_output_result, paddle_text_result, JsonValue,
    PaddleEngine, PaddleStage,
};
use media_mcp::tools::ocr::tesseract::{
    not_found_warning, parse_tsv, plain_result, tesseract_args, tsv_result, TesseractEngine,
};
use media_mcp::tools::ocr::{
    check_image, next_run_step, next_search_step, validate_image, RunStep, Candidate, EngineRegistry, ExecOutcome, Probe,
    RegisteredEngine, Search,
};

fn exited(success: bool, stdout: &str, stderr: &str) -> ExecOutcome {
    ExecOutcome::Exited {
        success,
        stdout: stdout.as_bytes().to_vec(),
        stderr: stderr.as_bytes().to_vec(),
    }
}

#[test]
fn test_engine_registry() {
    // Create a minimal OCR config for registry test
    let config = OcrConfig {
        default_engine: "auto".to_string(),
        engines: OcrEngines::default(),
        confidence_threshold: 60,
    };
    let registry = EngineRegistry::new(&config);
    // The engines are reported available, as on the system this test was written for.
    let engine = registry.get_engine("auto", |_e: &RegisteredEngine| true);
    assert!(engine.is_some(), "At least one OCR engine should be available");
}

#[test]
fn registry_selection_rules() {
    let config = OcrConfig {
        default_engine: "auto".to_string(),
        engines: OcrEngines::default(),
        confidence_threshold: 60,
    };
    let registry = EngineRegistry::new(&config);
    assert_eq!(registry.engines().len(), 2);
    assert!(registry.get_engine("auto", |_e: &RegisteredEngine| false).is_none());
    assert_eq!(registry.get_engine("tesseract", |_e: &RegisteredEngine| false).map(|e| e.name()), Some("tesseract"));
    assert_eq!(registry.get_engine("paddle", |_e: &RegisteredEngine| false).map(|e| e.name()), Some("paddle"));
    // A name no engine has falls back to automatic detection.
    assert_eq!(registry.get_engine("easyocr", |_e: &RegisteredEngine| true).map(|e| e.name()), Some("paddle"));
    assert!(registry.get_engine("easyocr", |_e: &RegisteredEngine| false).is_none());
    assert!(registry.has_engine_named("paddle"));
    assert!(!registry.has_engine_named("auto"));
    assert_eq!(registry.get_engine("auto", |_e: &RegisteredEngine| true).map(|e| e.name()), Some("paddle"));
    let only_tesseract = |e: &RegisteredEngine| e.name() == "tesseract";
    assert_eq!(registry.get_engine("auto", only_tesseract).map(|e| e.name()), Some("tesseract"));
    assert_eq!(registry.available_engines(|_e: &RegisteredEngine| true), vec!["paddle", "tesseract"]);
    assert_eq!(registry.available_engines(only_tesseract), vec!["tesseract"]);
    assert!(registry.available_engines(|_e: &RegisteredEngine| false).is_empty());
    // The auto choice heads the list of available engines.
    assert_eq!(
        registry.get_engine("auto", only_tesseract).map(|e| e.name()),
        registry.available_engines(only_tesseract).first().copied()
    );
}

#[test]
fn missing_file_is_rejected() {
    let r = validate_image(r"D:\nonexistent.png");
    assert_eq!(r, Err(r"File not found: D:\nonexistent.png".to_string()));
}

#[test]
fn existing_path_without_ocr_extension() {
    assert_eq!(validate_image("/"), Err("OCR not supported for . files".to_string()));
    assert_eq!(check_image(r"D:\test.doc", true, Some("doc".to_string())), Err("OCR not supported for .doc files".to_string()));
    assert_eq!(check_image("/x/a.PNG", true, Some("PNG".to_string())), Ok(()));
    assert_eq!(check_image("/x/a.tif", true, Some("tif".to_string())), Ok(()));
    assert_eq!(check_image("/x/a.gif", false, Some("gif".to_string())), Err("File not found: /x/a.gif".to_string()));
}

#[test]
fn tesseract_search_order() {
    let e = TesseractEngine::new(Some("/opt/tess".to_string()));
    let c = e.candidates();
    assert_eq!(c.len(), 4);
    assert!(matches!(&c[0].probe, Probe::PathExists(p) if p == "/opt/tess"));
    assert!(matches!(&c[1].probe, Probe::CommandSucceeds { program, arg } if program == "tesseract" && arg == "--version"));
    assert_eq!(c[2].exe, r"C:\Program Files\Tesseract-OCR\tesseract.exe");
    assert_eq!(c[3].exe, r"C:\Program Files (x86)\Tesseract-OCR\tesseract.exe");
    assert_eq!(TesseractEngine::new(None).candidates().len(), 3);
    assert_eq!(e.cmd().as_deref(), Some("/opt/tess"));
    assert_eq!(e.name(), "tesseract");
}

#[test]
fn search_steps_pick_first_yes() {
    let cands = vec![
        Candidate { probe: Probe::PathExists("a".to_string()), exe: "a".to_string() },
        Candidate { probe: Probe::PathExists("b".to_string()), exe: "b".to_string() },
    ];
    assert!(matches!(next_search_step(&cands, &vec![]), Search::Ask(0)));
    assert!(matches!(next_search_step(&cands, &vec![false]), Search::Ask(1)));
    assert!(matches!(next_search_step(&cands, &vec![false, true]), Search::Found(ref s) if s == "b"));
    assert!(matches!(next_search_step(&cands, &vec![true]), Search::Found(ref s) if s == "a"));
    assert!(matches!(next_search_step(&cands, &vec![false, false]), Search::Missing));
}

#[test]
fn tesseract_arguments() {
    assert_eq!(tesseract_args("/i.png", "chi_sim+eng", false), vec!["/i.png", "stdout", "-l", "chi_sim+eng", "--psm", "3"]);
    assert_eq!(tesseract_args("/i.png", "eng", true), vec!["/i.png", "stdout", "-l", "eng", "--psm", "3", "tsv"]);
    assert_eq!(not_found_warning(true), "Tesseract not found");
    assert_eq!(
        not_found_warning(false),
        "Tesseract not found in PATH or common install locations. Install from https://github.com/UB-Mannheim/tesseract/wiki"
    );
}

#[test]
fn plain_results() {
    let r = plain_result(ExecOutcome::SpawnFailed("Os { code: 2 }".to_string()));
    assert!(r.text.is_none());
    assert_eq!(r.warning.as_deref(), Some("Failed to execute tesseract: Os { code: 2 }"));
    let r = plain_result(exited(false, "", "  Error opening data file\n"));
    assert_eq!(r.warning.as_deref(), Some("Tesseract failed: Error opening data file"));
    let r = plain_result(exited(true, "  Hello\nWorld \n\n", ""));
    assert_eq!(r.text.as_deref(), Some("Hello\nWorld"));
    assert!(r.warning.is_none());
    let r = plain_result(exited(true, " \n\t ", ""));
    assert!(r.text.is_none());
    assert_eq!(r.warning.as_deref(), Some("OCR returned empty text"));
}

const TSV: &str = "level\tpage_num\tblock_num\tpar_num\tline_num\tword_num\tleft\ttop\twidth\theight\tconf\ttext\n\
1\t1\t0\t0\t0\t0\t0\t0\t100\t50\t-1\t\n\
5\t1\t1\t1\t1\t1\t10\t10\t30\t12\t96.5\tHello\n\
5\t1\t1\t1\t1\t2\t45\t10\t30\t12\t88\tWorld \n\
5\t1\t1\t1\t1\t3\t80\t10\t3\t12\t-1\t \n\
\n\
4\t1\t1\t1\t1\t0\t10\t10\t70\t12\t-1\t\n";

#[test]
fn tsv_words_and_confidences() {
    let (words, confs) = parse_tsv(TSV);
    assert_eq!(words, vec!["Hello", "World"]);
    assert_eq!(confs, vec!["96.5", "88", "-1"]);
    let r = tsv_result(exited(true, TSV, ""));
    assert_eq!(r.text.as_deref(), Some("Hello World"));
    assert!(r.warning.is_none());
    assert_eq!(r.confidence_fields, vec!["96.5", "88", "-1"]);
}

#[test]
fn tsv_without_words() {
    let r = tsv_result(exited(true, "level\tconf\n", ""));
    assert!(r.text.is_none());
    assert_eq!(r.warning.as_deref(), Some("OCR returned empty text"));
    assert!(r.confidence_fields.is_empty());
    let r = tsv_result(exited(false, "", "bad lang"));
    assert_eq!(r.warning.as_deref(), Some("Tesseract failed: bad lang"));
    let r = tsv_result(ExecOutcome::SpawnFailed("NotFound".to_string()));
    assert_eq!(r.warning.as_deref(), Some("Failed to execute tesseract: NotFound"));
}

fn entry(text: &str) -> JsonValue {
    JsonValue::Array(vec![
        JsonValue::Array(vec![JsonValue::Number("1".to_string())]),
        JsonValue::Array(vec![JsonValue::Str(text.to_string()), JsonValue::Number("0.98".to_string())]),
    ])
}

#[test]
fn paddle_engine_setup() {
    let p = PaddleEngine::new(None, None);
    assert_eq!(p.lang(), "ch");
    assert_eq!(p.name(), "paddle");
    assert_eq!(p.args("/i.png"), vec!["--image", "/i.png", "--lang", "ch", "--use_angle_cls", "true", "--use_gpu", "false"]);
    let c = PaddleEngine::new(Some("/bin/paddleocr".to_string()), Some("en".to_string())).candidates();
    assert_eq!(c.len(), 2);
    assert!(matches!(&c[1].probe, Probe::CommandSucceeds { program, arg } if program == "paddleocr" && arg == "--help"));
    assert_eq!(PaddleEngine::new(None, Some("en".to_string())).lang(), "en");
}

#[test]
fn paddle_text_extraction() {
    let data = JsonValue::Array(vec![entry("第一行"), JsonValue::Null, entry("second")]);
    assert_eq!(extract_paddle_text("ignored", Some(&data)), "第一行\nsecond");
    assert_eq!(extract_paddle_text("  raw text \n", None), "raw text");
    assert_eq!(extract_paddle_text("{}", Some(&JsonValue::Object(vec![]))), "");
    let r = paddle_text_result("[]", Some(&JsonValue::Array(vec![])));
    assert!(r.text.is_none());
    assert_eq!(r.warning.as_deref(), Some("PaddleOCR returned empty text"));
    let r = paddle_text_result("x", Some(&data));
    assert_eq!(r.text.as_deref(), Some("第一行\nsecond"));
}

#[test]
fn paddle_process_outcomes() {
    match paddle_decode(exited(true, "[1]", "")) {
        PaddleStage::Decoded(s) => assert_eq!(s, "[1]"),
        _ => panic!("expected decoded output"),
    }
    match paddle_decode(exited(false, "", " oops ")) {
        PaddleStage::Finished(r) => assert_eq!(r.warning.as_deref(), Some("PaddleOCR failed: oops")),
        _ => panic!("expected a finished run"),
    }
    match paddle_decode(ExecOutcome::SpawnFailed("E".to_string())) {
        PaddleStage::Finished(r) => assert_eq!(r.warning.as_deref(), Some("Failed to execute PaddleOCR: E")),
        _ => panic!("expected a finished run"),
    }
}

#[test]
fn extension_is_lowered_before_checking() {
    assert_eq!(check_image("/x/a.DOC", true, Some("DOC".to_string())), Err("OCR not supported for .doc files".to_string()));
    assert_eq!(check_image("/x/a", true, None), Err("OCR not supported for . files".to_string()));
}

#[test]
fn invalid_utf8_output_is_replaced() {
    let r = plain_result(ExecOutcome::Exited { success: true, stdout: vec![b'a', 0xFF, b'b'], stderr: vec![] });
    assert_eq!(r.text.as_deref(), Some("a\u{FFFD}b"));
}

#[test]
fn registry_follows_configured_paddle_options() {
    let mut engines = OcrEngines::default();
    engines.paddle.paddle_cmd = Some("/opt/paddleocr".to_string());
    engines.paddle.lang = Some("en".to_string());
    let config = OcrConfig { default_engine: "auto".to_string(), engines, confidence_threshold: 60 };
    let registry = EngineRegistry::new(&config);
    match &registry.engines()[0] {
        RegisteredEngine::Paddle(p) => {
            assert_eq!(p.cmd().as_deref(), Some("/opt/paddleocr"));
            assert_eq!(p.lang(), "en");
        }
        _ => panic!("PaddleOCR comes first"),
    }
}

#[test]
fn paddle_output_is_read_as_json() {
    let out = r#"[[[[1,2],[3,4]], ["第一行", 0.98]], [[[5,6]], ["second", 0.9]], "junk"]"#;
    let r = paddle_output_result(out);
    assert_eq!(r.text.as_deref(), Some("第一行\nsecond"));
    let r = paddle_output_result("  plain words \n");
    assert_eq!(r.text.as_deref(), Some("plain words"));
    let r = paddle_output_result("[]");
    assert_eq!(r.warning.as_deref(), Some("PaddleOCR returned empty text"));
    let r = paddle_output_result(r#"{"a": 1}"#);
    assert!(r.text.is_none());
}

#[test]
fn scored_text_is_its_own_trim() {
    let r = tsv_result(exited(true, TSV, ""));
    let t = r.text.unwrap();
    assert_eq!(t.trim(), t);
}

#[test]
fn backslash_paths_are_checked_by_their_extension() {
    // Whether or not the file exists, a .doc file is not read by OCR.
    let r = validate_image(r"D:\test.doc");
    assert!(r.is_err());
    let r = validate_image(r"C:\shots\missing.PNG");
    assert_eq!(r, Err(r"File not found: C:\shots\missing.PNG".to_string()));
}

#[test]
fn refused_image_starts_no_process() {
    let candidates = vec![
        Candidate { probe: Probe::PathExists("/usr/bin/tesseract".to_string()), exe: "/usr/bin/tesseract".to_string() },
        Candidate { probe: Probe::CommandSucceeds { program: "tesseract".to_string(), arg: "--version".to_string() }, exe: "tesseract".to_string() },
    ];
    let refused: Result<(), String> = Err("OCR not supported for .doc files".to_string());
    for answers in [vec![], vec![false], vec![true], vec![false, true]] {
        match next_run_step(&refused, &candidates, &answers) {
            RunStep::Refused(w) => assert_eq!(w, "OCR not supported for .doc files"),
            other => panic!("unexpected step {:?}", other),
        }
    }
    let accepted: Result<(), String> = Ok(());
    assert!(matches!(next_run_step(&accepted, &candidates, &vec![]), RunStep::Ask(0)));
    assert!(matches!(next_run_step(&accepted, &candidates, &vec![false]), RunStep::Ask(1)));
    match next_run_step(&accepted, &candidates, &vec![false, true]) {
        RunStep::Start(exe) => assert_eq!(exe, "tesseract"),
        other => panic!("unexpected step {:?}", other),
    }
    assert!(matches!(next_run_step(&accepted, &candidates, &vec![false, false]), RunStep::Missing));
}

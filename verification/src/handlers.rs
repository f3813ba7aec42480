//! The decisions of the two tools the service offers: `read_media` (path
//! check, OCR plan, fallback to the vision API, assembled answer) and
//! `list_supported_types`.
use vstd::prelude::*;
use vstd::string::StringExecFns;
use crate::config::Config;
use crate::text::{concat, concat3, has_prefix, opt_view, starts_with, str_chars, str_eq, u64_to_decimal, decimal, views};
use crate::tools::metadata::MediaMetadata;
use crate::tools::ocr::{
    EngineRegistry, OcrResult, RegisteredEngine, auto_pick, first_named, names_engine, names_where,
    str_views,
};
use crate::tools::vision::VisionResult;

verus! {

/// The arguments of `read_media`.
#[derive(Debug)]
pub struct ReadMediaRequest {
    /// Absolute path to the multimedia file.
    pub file_path: String,
    /// OCR language hint, e.g. 'chi_sim+eng'.
    pub language: Option<String>,
    /// Vision API mode: 'auto' (default, OCR-based fallback), 'always' (force
    /// Vision), 'skip' (OCR only).
    pub vision: Option<String>,
}

/// The answer of `read_media`.
#[derive(Debug)]
pub struct ReadMediaResponse {
    pub file: MediaMetadata,
    pub ocr_text: Option<String>,
    pub ai_description: Option<String>,
    pub warnings: Vec<String>,
}

/// A Unix path is absolute when it starts with `/`.
pub open spec fn unix_absolute(path: Seq<char>) -> bool {
    path.len() > 0 && path[0] == '/'
}

/// A Windows path is taken as absolute when it starts with an ASCII letter and `:`.
pub open spec fn windows_absolute(path: Seq<char>) -> bool {
    path.len() >= 2 && (('a' <= path[0] <= 'z') || ('A' <= path[0] <= 'Z')) && path[1] == ':'
}

/// The error for a relative path on Unix, or `None` for an absolute one.
pub fn unix_path_error(path: &str) -> (r: Option<String>)
    ensures
        unix_absolute(path@) ==> r is None,
        !unix_absolute(path@) ==> opt_view(r) == Some("Path must be absolute: "@ + path@),
{
    if starts_with(path, "/") {
        proof {
            reveal_strlit("/");
            assert(path@.subrange(0, 1)[0] == path@[0]);
        }
        None
    } else {
        proof {
            reveal_strlit("/");
            if path@.len() > 0 && path@[0] == '/' {
                assert(path@.subrange(0, 1) =~= "/"@);
            }
        }
        Some(concat("Path must be absolute: ", path))
    }
}

/// The error for a relative path on Windows, or `None` for an absolute one.
pub fn windows_path_error(path: &str) -> (r: Option<String>)
    ensures
        windows_absolute(path@) ==> r is None,
        !windows_absolute(path@) ==> opt_view(r) == Some(
            "Path must be absolute (e.g. C:\\...): "@ + path@,
        ),
{
    let v = str_chars(path);
    if v.len() >= 2 && (('a' <= v[0] && v[0] <= 'z') || ('A' <= v[0] && v[0] <= 'Z')) && v[1]
        == ':' {
        None
    } else {
        Some(concat("Path must be absolute (e.g. C:\\...): ", path))
    }
}

/// The error for a path that cannot be resolved.
pub fn invalid_path_message(path: &str, err: &str) -> (r: String)
    ensures
        r@ == "Invalid path '"@ + path@ + "': "@ + err@,
{
    let head = concat3("Invalid path '", path, "': ");
    concat(head.as_str(), err)
}

/// The OCR languages of a request: the hint, or the configured languages.
pub fn ocr_language(language: Option<String>, config: &Config) -> (r: String)
    ensures
        r@ == match opt_view(language) {
            Some(l) => l,
            None => config.languages_spec(),
        },
{
    match language {
        Some(l) => l,
        None => config.languages_string(),
    }
}

/// The vision mode of a request: the one asked for, or the configured
/// default (`read_media.vision_default`, itself `auto` unless set).
pub fn vision_mode(vision: Option<String>, default_mode: &str) -> (r: String)
    ensures
        r@ == match opt_view(vision) {
            Some(v) => v,
            None => default_mode@,
        },
{
    match vision {
        Some(v) => v,
        None => String::from_str(default_mode),
    }
}

/// The file is an image.
pub open spec fn is_image(mime: Seq<char>) -> bool {
    has_prefix(mime, "image/"@)
}

/// Which OCR run a file gets.
#[derive(Debug, Clone, Copy, PartialEq, Eq, Structural)]
pub enum OcrPlan {
    /// Not an image: no OCR.
    NotImage,
    /// Plain OCR, without confidence (modes `skip` and `always`).
    Plain,
    /// OCR with confidence scoring (every other mode).
    Scored,
}

/// The OCR run for a file of type `mime` in vision mode `mode`.
pub open spec fn ocr_plan_spec(mime: Seq<char>, mode: Seq<char>) -> OcrPlan {
    if !is_image(mime) {
        OcrPlan::NotImage
    } else if mode == "skip"@ || mode == "always"@ {
        OcrPlan::Plain
    } else {
        OcrPlan::Scored
    }
}

/// The OCR run for a file of type `mime` in vision mode `mode`.
pub fn plan_ocr(mime: &str, mode: &str) -> (r: OcrPlan)
    ensures
        r == ocr_plan_spec(mime@, mode@),
{
    if !starts_with(mime, "image/") {
        OcrPlan::NotImage
    } else if str_eq(mode, "skip") || str_eq(mode, "always") {
        OcrPlan::Plain
    } else {
        OcrPlan::Scored
    }
}

/// What the OCR run of a file gave.
#[derive(Debug)]
pub enum OcrObservation {
    /// No OCR ran (the file is not an image).
    NotRun,
    /// A plain run.
    Plain(OcrResult),
    /// A scored run: its text and warning, whether its average confidence
    /// fell below the threshold, and that average as shown (no decimals).
    Scored {
        text: Option<String>,
        warning: Option<String>,
        below_threshold: bool,
        confidence_display: String,
    },
}

/// The observation is of the planned kind.
pub open spec fn observation_fits(plan: OcrPlan, obs: OcrObservation) -> bool {
    match obs {
        OcrObservation::NotRun => plan == OcrPlan::NotImage,
        OcrObservation::Plain(_) => plan == OcrPlan::Plain,
        OcrObservation::Scored { .. } => plan == OcrPlan::Scored,
    }
}

/// The warning for a file that is not an image.
pub open spec fn not_image_warning(mime: Seq<char>) -> Seq<char> {
    "AI description not yet supported for "@ + mime + " files. Only images are supported in v0.1."@
}

/// The warning when OCR confidence is under the threshold.
pub open spec fn low_confidence_warning(display: Seq<char>, threshold: u32) -> Seq<char> {
    "OCR confidence ("@ + display + "/100) below threshold ("@ + decimal(threshold as nat)
        + "); falling back to Vision API"@
}

/// An optional warning as a sequence of zero or one warning.
pub open spec fn opt_seq(o: Option<String>) -> Seq<Seq<char>> {
    match o {
        Some(w) => seq![w@],
        None => Seq::empty(),
    }
}

/// The warnings after OCR, in order.
pub open spec fn after_ocr_warnings(mime: Seq<char>, threshold: u32, obs: OcrObservation) -> Seq<
    Seq<char>,
> {
    match obs {
        OcrObservation::NotRun => seq![not_image_warning(mime)],
        OcrObservation::Plain(r) => opt_seq(r.warning),
        OcrObservation::Scored { warning, below_threshold, confidence_display, .. } => opt_seq(
            warning,
        ) + if below_threshold {
            seq![low_confidence_warning(confidence_display@, threshold)]
        } else {
            Seq::empty()
        },
    }
}

/// The OCR text kept from an observation.
pub open spec fn observed_text(obs: OcrObservation) -> Option<Seq<char>> {
    match obs {
        OcrObservation::NotRun => None,
        OcrObservation::Plain(r) => opt_view(r.text),
        OcrObservation::Scored { text, .. } => opt_view(text),
    }
}

/// Whether the vision API is called: for images only, always in mode
/// `always`, never in mode `skip`, otherwise when OCR confidence is under the
/// threshold.
pub open spec fn calls_vision_spec(mime: Seq<char>, mode: Seq<char>, obs: OcrObservation) -> bool {
    is_image(mime) && (mode == "always"@ || (mode != "skip"@ && match obs {
        OcrObservation::Scored { below_threshold, .. } => below_threshold,
        _ => false,
    }))
}

/// The three vision modes: for an image, `skip` never calls the vision API,
/// `always` always does, and any other mode (`auto` by default) does exactly
/// when OCR confidence fell below the threshold; a file that is not an image
/// never gets a vision call.
pub proof fn lemma_vision_modes(mime: Seq<char>, mode: Seq<char>, obs: OcrObservation)
    requires
        observation_fits(ocr_plan_spec(mime, mode), obs),
    ensures
        !is_image(mime) ==> !calls_vision_spec(mime, mode, obs) && obs is NotRun,
        is_image(mime) && mode == "skip"@ ==> !calls_vision_spec(mime, mode, obs) && obs is Plain,
        is_image(mime) && mode == "always"@ ==> calls_vision_spec(mime, mode, obs) && obs is Plain,
        is_image(mime) && mode != "skip"@ && mode != "always"@ ==> (obs matches OcrObservation::Scored {
            below_threshold,
            ..
        } && calls_vision_spec(mime, mode, obs) == below_threshold),
{
    reveal_strlit("skip");
    reveal_strlit("always");
    assert("skip"@ != "always"@) by {
        assert("skip"@.len() != "always"@.len());
    }
}

/// The OCR text is returned whatever the confidence: a scored run keeps its
/// text alike when its confidence fell below the threshold and when it did
/// not, and a plain run keeps its text too.
pub proof fn lemma_ocr_text_kept(
    text: Option<String>,
    warning: Option<String>,
    confidence_display: String,
    plain: OcrResult,
)
    ensures
        observed_text(
            (OcrObservation::Scored { text, warning, below_threshold: true, confidence_display }),
        ) == opt_view(text),
        observed_text(
            (OcrObservation::Scored { text, warning, below_threshold: false, confidence_display }),
        ) == opt_view(text),
        observed_text((OcrObservation::Plain(plain))) == opt_view(plain.text),
        observed_text((OcrObservation::NotRun)) is None,
{
}

/// Where a `read_media` call stands after OCR.
#[derive(Debug)]
pub struct AfterOcr {
    pub ocr_text: Option<String>,
    pub warnings: Vec<String>,
    /// Whether the vision API is to be called.
    pub call_vision: bool,
}

/// The warning when OCR confidence is under the threshold.
pub fn low_confidence_message(display: &str, threshold: u32) -> (r: String)
    ensures
        r@ == low_confidence_warning(display@, threshold),
{
    let t = u64_to_decimal(threshold as u64);
    let head = concat3("OCR confidence (", display, "/100) below threshold (");
    concat3(head.as_str(), t.as_str(), "); falling back to Vision API")
}

/// After OCR: the text kept, the warnings so far, and whether the vision API is called.
pub fn after_ocr(mime: &str, mode: &str, threshold: u32, obs: OcrObservation) -> (r: AfterOcr)
    requires
        observation_fits(ocr_plan_spec(mime@, mode@), obs),
    ensures
        opt_view(r.ocr_text) == observed_text(obs),
        obs matches OcrObservation::Scored { text, .. } ==> opt_view(r.ocr_text) == opt_view(text),
        obs matches OcrObservation::Plain(p) ==> opt_view(r.ocr_text) == opt_view(p.text),
        obs is NotRun ==> r.ocr_text is None,
        views(r.warnings@) == after_ocr_warnings(mime@, threshold, obs),
        r.call_vision == calls_vision_spec(mime@, mode@, obs),
{
    let mut warnings: Vec<String> = Vec::new();
    match obs {
        OcrObservation::NotRun => {
            let w = concat3(
                "AI description not yet supported for ",
                mime,
                " files. Only images are supported in v0.1.",
            );
            warnings.push(w);
            assert(views(warnings@) =~= seq![not_image_warning(mime@)]);
            AfterOcr { ocr_text: None, warnings, call_vision: false }
        },
        OcrObservation::Plain(res) => {
            match res.warning {
                Some(w) => {
                    warnings.push(w);
                },
                None => {},
            }
            assert(views(warnings@) =~= opt_seq(res.warning));
            let call_vision = str_eq(mode, "always");
            AfterOcr { ocr_text: res.text, warnings, call_vision }
        },
        OcrObservation::Scored { text, warning, below_threshold, confidence_display } => {
            let ghost wv = opt_seq(warning);
            match warning {
                Some(w) => {
                    warnings.push(w);
                },
                None => {},
            }
            assert(views(warnings@) =~= wv);
            if below_threshold {
                let ghost before = views(warnings@);
                warnings.push(low_confidence_message(confidence_display.as_str(), threshold));
                assert(views(warnings@) =~= before.push(
                    low_confidence_warning(confidence_display@, threshold),
                ));
            }
            assert(views(warnings@) =~= wv + if below_threshold {
                seq![low_confidence_warning(confidence_display@, threshold)]
            } else {
                Seq::empty()
            });
            AfterOcr { ocr_text: text, warnings, call_vision: below_threshold }
        },
    }
}

/// The warning when the configured OCR engine is unknown.
pub open spec fn unknown_engine_warning(name: Seq<char>) -> Seq<char> {
    "Unknown OCR engine '"@ + name + "'; falling back to automatic detection"@
}

/// The warning when no OCR engine can be used.
pub open spec fn no_engine_warning() -> Seq<char> {
    "No OCR engine available. Install Tesseract or PaddleOCR, or configure a Vision API."@
}

/// The OCR engine for the configured name (see `EngineRegistry::get_engine`),
/// with a warning when the name is neither `auto` nor any engine's name, so
/// that automatic detection was used instead.
pub fn choose_engine<'a, F: Fn(&RegisteredEngine) -> bool>(
    registry: &'a EngineRegistry,
    configured: &str,
    is_available: F,
) -> (r: (Option<&'a RegisteredEngine>, Option<String>))
    requires
        forall|e: &RegisteredEngine| call_requires(is_available, (e,)),
    ensures
        names_engine(registry.engines_view(), configured@) ==> r.0 == Some(
            &registry.engines_view()[first_named(registry.engines_view(), configured@)->0],
        ),
        !names_engine(registry.engines_view(), configured@) ==> auto_pick(
            registry.engines_view(),
            is_available,
            r.0,
        ),
        opt_view(r.1) == if configured@ != "auto"@ && first_named(
            registry.engines_view(),
            configured@,
        ) is None {
            Some(unknown_engine_warning(configured@))
        } else {
            None
        },
{
    let known = str_eq(configured, "auto") || registry.has_engine_named(configured);
    let engine = registry.get_engine(configured, is_available);
    let notice = if known {
        None
    } else {
        let head = concat3("Unknown OCR engine '", configured, "'; falling back to automatic detection");
        Some(head)
    };
    (engine, notice)
}

/// What OCR yields when no engine can be used: no text and the
/// no-engine warning; for a scored run, an average confidence of 0 (shown as
/// `0`), which is below any positive threshold.
pub fn no_engine_observation(plan: OcrPlan, threshold: u32) -> (r: OcrObservation)
    requires
        plan != OcrPlan::NotImage,
    ensures
        observation_fits(plan, r),
        plan == OcrPlan::Plain ==> (r matches OcrObservation::Plain(res) && res.text is None
            && opt_view(res.warning) == Some(no_engine_warning())),
        plan == OcrPlan::Scored ==> (r matches OcrObservation::Scored {
            text,
            warning,
            below_threshold,
            confidence_display,
        } && text is None && opt_view(warning) == Some(no_engine_warning()) && below_threshold
            == (0 < threshold) && confidence_display@ == "0"@),
{
    let w = String::from_str(
        "No OCR engine available. Install Tesseract or PaddleOCR, or configure a Vision API.",
    );
    match plan {
        OcrPlan::Plain => OcrObservation::Plain(OcrResult::warn(w)),
        _ => OcrObservation::Scored {
            text: None,
            warning: Some(w),
            below_threshold: 0 < threshold,
            confidence_display: String::from_str("0"),
        },
    }
}

/// The warnings after OCR with `notice` (the engine choice's warning, if
/// any) put first.
pub fn prepend_notice(after: AfterOcr, notice: Option<String>) -> (r: AfterOcr)
    ensures
        opt_view(r.ocr_text) == opt_view(after.ocr_text),
        r.call_vision == after.call_vision,
        views(r.warnings@) == opt_seq(notice) + views(after.warnings@),
{
    let ghost before = views(after.warnings@);
    let mut warnings: Vec<String> = Vec::new();
    match notice {
        Some(n) => {
            warnings.push(n);
        },
        None => {},
    }
    assert(views(warnings@) =~= opt_seq(notice));
    let mut rest = after.warnings;
    let ghost first = views(warnings@);
    warnings.append(&mut rest);
    assert(views(warnings@) =~= first + before);
    AfterOcr { ocr_text: after.ocr_text, warnings, call_vision: after.call_vision }
}

/// The answer of `read_media`: the metadata, the OCR text, the description
/// (when the vision API was called) and every warning, OCR's first.
pub fn finish_response(file: MediaMetadata, after: AfterOcr, vision: Option<VisionResult>) -> (r:
    ReadMediaResponse)
    ensures
        r.file == file,
        opt_view(r.ocr_text) == opt_view(after.ocr_text),
        opt_view(r.ai_description) == match vision {
            Some(v) => opt_view(v.description),
            None => None,
        },
        views(r.warnings@) == views(after.warnings@) + match vision {
            Some(v) => opt_seq(v.warning),
            None => Seq::empty(),
        },
{
    let mut warnings = after.warnings;
    let ghost before = views(warnings@);
    let ai_description = match vision {
        Some(v) => {
            match v.warning {
                Some(w) => {
                    warnings.push(w);
                    assert(views(warnings@) =~= before + opt_seq(v.warning));
                },
                None => {
                    assert(views(warnings@) =~= before + opt_seq(v.warning));
                },
            }
            v.description
        },
        None => {
            assert(views(warnings@) =~= before + Seq::empty());
            None
        },
    };
    ReadMediaResponse { file, ocr_text: after.ocr_text, ai_description, warnings }
}

/// What `list_supported_types` reports.
#[derive(Debug)]
pub struct SupportedTypes {
    pub image_types: Vec<String>,
    pub document_types: Vec<String>,
    pub video_types: Vec<String>,
    pub audio_types: Vec<String>,
    /// The names of the OCR engines found available, in priority order.
    pub engines: Vec<&'static str>,
    pub ocr_available: bool,
    pub vision_api_configured: bool,
    pub vision_api_model: String,
}

/// The image types listed.
pub open spec fn image_types_spec() -> Seq<Seq<char>> {
    seq!["png"@, "jpg"@, "jpeg"@, "gif"@, "bmp"@, "webp"@, "svg"@, "ico"@, "tiff"@]
}

/// The video types listed.
pub open spec fn video_types_spec() -> Seq<Seq<char>> {
    seq!["mp4"@, "avi"@, "mkv"@, "mov"@, "webm"@]
}

/// The audio types listed.
pub open spec fn audio_types_spec() -> Seq<Seq<char>> {
    seq!["mp3"@, "wav"@, "flac"@, "aac"@, "ogg"@]
}

fn strings(a: &[&str]) -> (r: Vec<String>)
    ensures
        views(r@) == a@.map_values(|s: &str| s@),
{
    let mut r: Vec<String> = Vec::new();
    let mut i: usize = 0;
    while i < a.len()
        invariant
            i <= a@.len(),
            views(r@) == a@.take(i as int).map_values(|s: &str| s@),
        decreases a@.len() - i,
    {
        let ghost prev = views(r@);
        let item = String::from_str(a[i]);
        assert(item@ == a@[i as int]@);
        r.push(item);
        assert(views(r@) =~= prev.push(a@[i as int]@));
        assert(a@.take(i + 1).map_values(|s: &str| s@) =~= a@.take(i as int).map_values(
            |s: &str| s@,
        ).push(a@[i as int]@));
        i += 1;
    }
    assert(a@.take(a@.len() as int) =~= a@);
    r
}

/// The supported file types, the OCR engines that `is_available` accepts
/// (asked in priority order), whether any is, whether an API key is
/// configured, and the configured model.
pub fn supported_types<F: Fn(&RegisteredEngine) -> bool>(
    config: &Config,
    registry: &EngineRegistry,
    is_available: F,
) -> (r: SupportedTypes)
    requires
        forall|e: &RegisteredEngine| call_requires(is_available, (e,)),
    ensures
        views(r.image_types@) == image_types_spec(),
        views(r.document_types@) == seq!["pdf"@],
        views(r.video_types@) == video_types_spec(),
        views(r.audio_types@) == audio_types_spec(),
        exists|answers: Seq<bool>|
            {
                &&& answers.len() == registry.engines_view().len()
                &&& forall|i: int|
                    0 <= i < answers.len() ==> call_ensures(
                        is_available,
                        (&registry.engines_view()[i],),
                        #[trigger] answers[i],
                    )
                &&& str_views(r.engines@) == names_where(registry.engines_view(), answers)
            },
        r.ocr_available == (r.engines@.len() > 0),
        r.vision_api_configured == (config.vision_api.api_key@.len() > 0),
        r.vision_api_model@ == config.vision_api.model@,
{
    let engines = registry.available_engines(is_available);
    let ocr_available = engines.len() > 0;
    let images = strings(&["png", "jpg", "jpeg", "gif", "bmp", "webp", "svg", "ico", "tiff"]);
    let documents = strings(&["pdf"]);
    let videos = strings(&["mp4", "avi", "mkv", "mov", "webm"]);
    let audios = strings(&["mp3", "wav", "flac", "aac", "ogg"]);
    let r = SupportedTypes {
        image_types: images,
        document_types: documents,
        video_types: videos,
        audio_types: audios,
        engines,
        ocr_available,
        vision_api_configured: !config.vision_api.api_key.as_str().is_empty(),
        vision_api_model: config.vision_api.model.clone(),
    };
    assert(views(r.image_types@) =~= image_types_spec());
    assert(views(r.document_types@) =~= seq!["pdf"@]);
    assert(views(r.video_types@) =~= video_types_spec());
    assert(views(r.audio_types@) =~= audio_types_spec());
    r
}

} // verus!

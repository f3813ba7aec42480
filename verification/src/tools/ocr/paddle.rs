//! The PaddleOCR engine: where its executable is looked for, how it is run,
//! and what its JSON output yields.
use vstd::prelude::*;
use vstd::string::StringExecFns;
use super::{Candidate, ExecOutcome, OcrResult, Probe, ProbeView, candidates_view, decode_lossy, lossy_text};
use crate::text::{concat, join, join_strings, opt_view, trim, trim_str, views};

verus! {

/// The PaddleOCR engine.
#[derive(Debug)]
pub struct PaddleEngine {
    cmd: Option<String>,
    lang: String,
}

/// A JSON value, as the library reads it. Numbers are kept as written.
#[derive(Debug)]
pub enum JsonValue {
    Null,
    Bool(bool),
    Number(String),
    Str(String),
    Array(Vec<JsonValue>),
    Object(Vec<(String, JsonValue)>),
}

/// A JSON value as `serde_json` reads it.
#[verifier::external_type_specification]
#[verifier::external_body]
pub struct ExJsonValue(serde_json::Value);

/// What `serde_json` reads from a text, in the library's form (`None` when
/// the text is not JSON).
pub uninterp spec fn json_of(text: Seq<char>) -> Option<JsonValue>;

/// Reads a text as JSON (`serde_json::from_str::<serde_json::Value>`).
#[verifier::external_body]
fn parse_json(text: &str) -> (r: Option<JsonValue>)
    ensures
        r == json_of(text@),
{
    serde_json::from_str::<serde_json::Value>(text).ok().map(json_from_value)
}

/// A `serde_json::Value` in the library's form, variant for variant
/// (numbers as `serde_json` writes them).
#[verifier::external_body]
fn json_from_value(v: serde_json::Value) -> JsonValue {
    match v {
        serde_json::Value::Null => JsonValue::Null,
        serde_json::Value::Bool(b) => JsonValue::Bool(b),
        serde_json::Value::Number(n) => JsonValue::Number(n.to_string()),
        serde_json::Value::String(s) => JsonValue::Str(s),
        serde_json::Value::Array(a) => JsonValue::Array(a.into_iter().map(json_from_value).collect()),
        serde_json::Value::Object(o) => JsonValue::Object(o.into_iter().map(json_member).collect()),
    }
}

/// A member of a `serde_json` object in the library's form.
#[verifier::external_body]
fn json_member(m: (String, serde_json::Value)) -> (String, JsonValue) {
    (m.0, json_from_value(m.1))
}

/// The text of one PaddleOCR entry `[bbox, [text, confidence]]`: an array of
/// at least two items whose second item is an array of at least two items
/// whose first item is a string.
pub open spec fn entry_text(e: JsonValue) -> Option<Seq<char>> {
    match e {
        JsonValue::Array(inner) => if inner@.len() >= 2 {
            match inner@[1] {
                JsonValue::Array(tc) => if tc@.len() >= 2 {
                    match tc@[0] {
                        JsonValue::Str(t) => Some(t@),
                        _ => None,
                    }
                } else {
                    None
                },
                _ => None,
            }
        } else {
            None
        },
        _ => None,
    }
}

/// The texts of the entries that have one, in order.
pub open spec fn entry_texts(es: Seq<JsonValue>) -> Seq<Seq<char>>
    decreases es.len(),
{
    if es.len() == 0 {
        Seq::empty()
    } else {
        let prev = entry_texts(es.drop_last());
        match entry_text(es.last()) {
            Some(t) => prev.push(t),
            None => prev,
        }
    }
}

/// The text read from PaddleOCR's output: when the output is not JSON, the
/// output trimmed; when it is a JSON array, the entry texts one per line;
/// otherwise nothing.
pub open spec fn paddle_text_spec(output: Seq<char>, parsed: Option<JsonValue>) -> Seq<char> {
    match parsed {
        None => trim(output),
        Some(JsonValue::Array(es)) => join(entry_texts(es@), "\n"@),
        Some(_) => Seq::empty(),
    }
}

/// Where PaddleOCR is looked for, in order: the configured executable if it
/// exists, then `paddleocr` on the PATH if `paddleocr --help` succeeds.
pub open spec fn paddle_candidates_spec(cmd: Option<Seq<char>>) -> Seq<(ProbeView, Seq<char>)> {
    let first: Seq<(ProbeView, Seq<char>)> = match cmd {
        Some(c) => seq![(ProbeView::PathExists(c), c)],
        None => Seq::empty(),
    };
    first + seq![(ProbeView::CommandSucceeds("paddleocr"@, "--help"@), "paddleocr"@)]
}

/// A configured executable is tried first and is what runs when it exists;
/// and every candidate that asks whether a file exists runs that very file.
pub proof fn lemma_paddle_candidates_run_what_they_find(cmd: Option<Seq<char>>)
    ensures
        cmd matches Some(c) ==> paddle_candidates_spec(cmd)[0] == (ProbeView::PathExists(c), c),
        forall|k: int|
            0 <= k < paddle_candidates_spec(cmd).len() ==> ((#[trigger] paddle_candidates_spec(
                cmd,
            )[k]).0 matches ProbeView::PathExists(p) ==> paddle_candidates_spec(cmd)[k].1 == p),
{
}

/// The arguments PaddleOCR is run with: the image, the language, angle
/// classification on, GPU off.
pub open spec fn paddle_args_spec(file: Seq<char>, lang: Seq<char>) -> Seq<Seq<char>> {
    seq![
        "--image"@,
        file,
        "--lang"@,
        lang,
        "--use_angle_cls"@,
        "true"@,
        "--use_gpu"@,
        "false"@,
    ]
}

/// Where a PaddleOCR run stands once its process is done.
#[derive(Debug)]
pub enum PaddleStage {
    /// The run is over with this result.
    Finished(OcrResult),
    /// The process succeeded; its output, decoded, is to be read as JSON.
    Decoded(String),
}

impl PaddleEngine {
    /// The configured executable, by value.
    pub closed spec fn cmd_view(&self) -> Option<Seq<char>> {
        opt_view(self.cmd)
    }

    /// The recognition language, by value.
    pub closed spec fn lang_view(&self) -> Seq<char> {
        self.lang@
    }

    /// An engine that runs `cmd` when given and present, else looks for
    /// `paddleocr`; the language is `lang`, or `ch` when none is given.
    pub fn new(cmd: Option<String>, lang: Option<String>) -> (r: Self)
        ensures
            r.cmd_view() == opt_view(cmd),
            r.lang_view() == match opt_view(lang) {
                Some(l) => l,
                None => "ch"@,
            },
    {
        let lang = match lang {
            Some(l) => l,
            None => String::from_str("ch"),
        };
        PaddleEngine { cmd, lang }
    }

    /// The configured executable.
    pub fn cmd(&self) -> (r: &Option<String>)
        ensures
            opt_view(*r) == self.cmd_view(),
    {
        &self.cmd
    }

    /// The recognition language.
    pub fn lang(&self) -> (r: &String)
        ensures
            r@ == self.lang_view(),
    {
        &self.lang
    }

    /// The engine's name: `paddle`.
    pub fn name(&self) -> (r: &'static str)
        ensures
            r@ == "paddle"@,
    {
        "paddle"
    }

    /// Where to look for the executable, in order (see `next_search_step`).
    pub fn candidates(&self) -> (r: Vec<Candidate>)
        ensures
            candidates_view(r@) == paddle_candidates_spec(self.cmd_view()),
    {
        let mut r: Vec<Candidate> = Vec::new();
        match &self.cmd {
            Some(c) => {
                r.push(Candidate { probe: Probe::PathExists(c.clone()), exe: c.clone() });
            },
            None => {},
        }
        r.push(
            Candidate {
                probe: Probe::CommandSucceeds {
                    program: String::from_str("paddleocr"),
                    arg: String::from_str("--help"),
                },
                exe: String::from_str("paddleocr"),
            },
        );
        assert(candidates_view(r@) =~= paddle_candidates_spec(self.cmd_view()));
        r
    }

    /// The arguments to run PaddleOCR with on `file`.
    pub fn args(&self, file: &str) -> (r: Vec<String>)
        ensures
            views(r@) == paddle_args_spec(file@, self.lang_view()),
    {
        let mut r: Vec<String> = Vec::new();
        r.push(String::from_str("--image"));
        r.push(String::from_str(file));
        r.push(String::from_str("--lang"));
        r.push(self.lang.clone());
        r.push(String::from_str("--use_angle_cls"));
        r.push(String::from_str("true"));
        r.push(String::from_str("--use_gpu"));
        r.push(String::from_str("false"));
        assert(views(r@) =~= paddle_args_spec(file@, self.lang_view()));
        r
    }
}

/// The warning when no PaddleOCR executable is found.
pub fn not_found_warning() -> (r: String)
    ensures
        r@ == "PaddleOCR not found. Install with: pip install paddleocr"@,
{
    String::from_str("PaddleOCR not found. Install with: pip install paddleocr")
}

/// Where a PaddleOCR run stands after its process: over with a warning when
/// the process did not start or failed, else its output decoded.
pub fn paddle_decode(outcome: ExecOutcome) -> (r: PaddleStage)
    ensures
        match outcome {
            ExecOutcome::SpawnFailed(e) => r matches PaddleStage::Finished(res) && res.text is None
                && opt_view(res.warning) == Some("Failed to execute PaddleOCR: "@ + e@),
            ExecOutcome::Exited { success, stdout, stderr } => if success {
                r matches PaddleStage::Decoded(out) && out@ == lossy_text(stdout@)
            } else {
                r matches PaddleStage::Finished(res) && res.text is None && opt_view(res.warning)
                    == Some("PaddleOCR failed: "@ + trim(lossy_text(stderr@)))
            },
        },
{
    match outcome {
        ExecOutcome::SpawnFailed(e) => PaddleStage::Finished(
            OcrResult::warn(concat("Failed to execute PaddleOCR: ", e.as_str())),
        ),
        ExecOutcome::Exited { success, stdout, stderr } => {
            if success {
                PaddleStage::Decoded(decode_lossy(stdout.as_slice()))
            } else {
                let err = decode_lossy(stderr.as_slice());
                let t = trim_str(err.as_str());
                PaddleStage::Finished(OcrResult::warn(concat("PaddleOCR failed: ", t.as_str())))
            }
        },
    }
}

/// The text of one entry, if it has one.
fn entry_text_of(e: &JsonValue) -> (r: Option<String>)
    ensures
        opt_view(r) == entry_text(*e),
{
    match e {
        JsonValue::Array(inner) => {
            if inner.len() >= 2 {
                match &inner[1] {
                    JsonValue::Array(tc) => {
                        if tc.len() >= 2 {
                            match &tc[0] {
                                JsonValue::Str(t) => Some(t.clone()),
                                _ => None,
                            }
                        } else {
                            None
                        }
                    },
                    _ => None,
                }
            } else {
                None
            }
        },
        _ => None,
    }
}

/// Extract text from PaddleOCR JSON output. `parsed` is the output read as
/// JSON (`None` when it is not JSON).
pub fn extract_paddle_text(output: &str, parsed: Option<&JsonValue>) -> (r: String)
    ensures
        r@ == paddle_text_spec(
            output@,
            match parsed {
                Some(v) => Some(*v),
                None => None,
            },
        ),
{
    match parsed {
        None => trim_str(output),
        Some(JsonValue::Array(entries)) => {
            let mut texts: Vec<String> = Vec::new();
            let mut i: usize = 0;
            while i < entries.len()
                invariant
                    i <= entries@.len(),
                    views(texts@) == entry_texts(entries@.take(i as int)),
                decreases entries@.len() - i,
            {
                assert(entries@.take(i + 1).drop_last() =~= entries@.take(i as int));
                let ghost before = views(texts@);
                match entry_text_of(&entries[i]) {
                    Some(t) => {
                        texts.push(t);
                        assert(views(texts@) =~= before.push(texts@.last()@));
                    },
                    None => {},
                }
                i += 1;
            }
            assert(entries@.take(entries@.len() as int) =~= entries@);
            join_strings(&texts, "\n")
        },
        Some(_) => String::new(),
    }
}

/// What a PaddleOCR run yields from its decoded output: the extracted text,
/// or a warning when it is empty.
pub fn paddle_text_result(output: &str, parsed: Option<&JsonValue>) -> (r: OcrResult)
    ensures
        ({
            let t = paddle_text_spec(
                output@,
                match parsed {
                    Some(v) => Some(*v),
                    None => None,
                },
            );
            if t.len() == 0 {
                r.text is None && opt_view(r.warning) == Some("PaddleOCR returned empty text"@)
            } else {
                opt_view(r.text) == Some(t) && r.warning is None
            }
        }),
        r.is_settled(),
{
    let text = extract_paddle_text(output, parsed);
    if text.as_str().is_empty() {
        OcrResult::warn(String::from_str("PaddleOCR returned empty text"))
    } else {
        OcrResult { text: Some(text), warning: None }
    }
}

/// What a PaddleOCR run yields from its decoded output, read as JSON here:
/// the extracted text, or a warning when it is empty.
pub fn paddle_output_result(output: &str) -> (r: OcrResult)
    ensures
        ({
            let t = paddle_text_spec(output@, json_of(output@));
            if t.len() == 0 {
                r.text is None && opt_view(r.warning) == Some("PaddleOCR returned empty text"@)
            } else {
                opt_view(r.text) == Some(t) && r.warning is None
            }
        }),
        r.is_settled(),
{
    let parsed = parse_json(output);
    paddle_text_result(output, parsed.as_ref())
}

} // verus!

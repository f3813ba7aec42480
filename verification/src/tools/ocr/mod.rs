//! OCR: the result types, the check that a file can be read by OCR, the
//! search for an engine's executable, what an engine's run yields, and the
//! registry that picks an engine.
pub mod paddle;
pub mod tesseract;

use vstd::prelude::*;
use vstd::string::StringExecFns;
use crate::paths::{
    dotted_extension, dotted_tail, ext_in_path, lowered, path_tail, plain_tail, tail_extension, path_exists,
    path_extension, to_lowercase,
};
use crate::text::{concat, concat3, opt_view, str_eq};
use self::paddle::PaddleEngine;
use self::tesseract::TesseractEngine;

verus! {

/// What one OCR run yields: the text read, or a warning saying why there is none.
#[derive(Debug)]
pub struct OcrResult {
    pub text: Option<String>,
    pub warning: Option<String>,
}

impl OcrResult {
    /// Exactly one of text and warning is present.
    pub open spec fn is_settled(&self) -> bool {
        self.text is Some != self.warning is Some
    }

    /// No text, and the warning `w`.
    pub fn warn(w: String) -> (r: OcrResult)
        ensures
            r.text is None,
            r.warning == Some(w),
    {
        OcrResult { text: None, warning: Some(w) }
    }
}

/// Extensions (in lower case) of the files OCR can read.
pub open spec fn ocrable_extension(e: Seq<char>) -> bool {
    ||| e == "png"@
    ||| e == "jpg"@
    ||| e == "jpeg"@
    ||| e == "bmp"@
    ||| e == "tiff"@
    ||| e == "tif"@
    ||| e == "webp"@
}

/// The extension in lower case, or empty when there is none.
pub open spec fn lowered_extension(ext: Option<Seq<char>>) -> Seq<char> {
    match ext {
        Some(e) => lowered(e),
        None => Seq::empty(),
    }
}

/// The check of an image before OCR, given whether the file exists and its extension.
pub open spec fn check_image_spec(path: Seq<char>, exists: bool, ext: Option<Seq<char>>) -> Result<
    (),
    Seq<char>,
> {
    if !exists {
        Err("File not found: "@ + path)
    } else if !ocrable_extension(lowered_extension(ext)) {
        Err("OCR not supported for ."@ + lowered_extension(ext) + " files"@)
    } else {
        Ok(())
    }
}

/// An existing file with any of the extensions png, jpg, jpeg, bmp, tiff,
/// tif and webp passes the check, and one with gif or pdf, or with no
/// extension, is refused.
pub proof fn lemma_ocr_reads_listed_extensions(path: Seq<char>)
    ensures
        check_image_spec(path, true, Some("png"@)) == Ok::<(), Seq<char>>(()),
        check_image_spec(path, true, Some("jpg"@)) == Ok::<(), Seq<char>>(()),
        check_image_spec(path, true, Some("jpeg"@)) == Ok::<(), Seq<char>>(()),
        check_image_spec(path, true, Some("bmp"@)) == Ok::<(), Seq<char>>(()),
        check_image_spec(path, true, Some("tiff"@)) == Ok::<(), Seq<char>>(()),
        check_image_spec(path, true, Some("tif"@)) == Ok::<(), Seq<char>>(()),
        check_image_spec(path, true, Some("webp"@)) == Ok::<(), Seq<char>>(()),
        check_image_spec(path, true, Some("gif"@)) is Err,
        check_image_spec(path, true, Some("pdf"@)) is Err,
        check_image_spec(path, true, None) is Err,
{
    reveal_strlit("png");
    reveal_strlit("jpg");
    reveal_strlit("jpeg");
    reveal_strlit("bmp");
    reveal_strlit("tiff");
    reveal_strlit("tif");
    reveal_strlit("webp");
    reveal_strlit("gif");
    reveal_strlit("pdf");
    assert(lowered("png"@) =~= "png"@);
    assert(lowered("jpg"@) =~= "jpg"@);
    assert(lowered("jpeg"@) =~= "jpeg"@);
    assert(lowered("bmp"@) =~= "bmp"@);
    assert(lowered("tiff"@) =~= "tiff"@);
    assert(lowered("tif"@) =~= "tif"@);
    assert(lowered("webp"@) =~= "webp"@);
    assert(lowered("gif"@) =~= "gif"@);
    assert(lowered("pdf"@) =~= "pdf"@);
    assert("gif"@[0] != "png"@[0] && "gif"@[0] != "jpg"@[0] && "gif"@[0] != "bmp"@[0]
        && "gif"@[0] != "tif"@[0]);
    assert("pdf"@[1] != "png"@[1] && "pdf"@[0] != "jpg"@[0] && "pdf"@[0] != "bmp"@[0]
        && "pdf"@[0] != "tif"@[0]);
    assert(!ocrable_extension("gif"@));
    assert(!ocrable_extension("pdf"@));
}

/// The view of a check result.
pub open spec fn check_view(r: Result<(), String>) -> Result<(), Seq<char>> {
    match r {
        Ok(()) => Ok(()),
        Err(w) => Err(w@),
    }
}

/// Whether `e` (already in lower case) is an extension OCR can read.
pub fn is_ocrable_extension(e: &str) -> (r: bool)
    ensures
        r == ocrable_extension(e@),
{
    str_eq(e, "png") || str_eq(e, "jpg") || str_eq(e, "jpeg") || str_eq(e, "bmp") || str_eq(
        e,
        "tiff",
    ) || str_eq(e, "tif") || str_eq(e, "webp")
}

/// The check of an image before OCR: it must exist, and its extension, in
/// lower case, must be one OCR reads.
pub fn check_image(path: &str, exists: bool, ext: Option<String>) -> (r: Result<(), String>)
    ensures
        check_view(r) == check_image_spec(path@, exists, opt_view(ext)),
{
    if !exists {
        return Err(concat("File not found: ", path));
    }
    let lowered = match &ext {
        Some(e) => to_lowercase(e.as_str()),
        None => String::new(),
    };
    if !is_ocrable_extension(lowered.as_str()) {
        return Err(concat3("OCR not supported for .", lowered.as_str(), " files"));
    }
    Ok(())
}

/// Check if file exists and extension is supported for OCR.
pub fn validate_image(file_path: &str) -> (r: Result<(), String>)
    ensures
        exists|exists: bool, ext: Option<Seq<char>>|
            ext_in_path(file_path@, ext) && check_view(r) == check_image_spec(
                file_path@,
                exists,
                ext,
            ),
        plain_tail(file_path@) ==> exists|exists: bool|
            check_view(r) == check_image_spec(
                file_path@,
                exists,
                tail_extension(path_tail(file_path@)),
            ),
        dotted_tail(file_path@) ==> exists|exists: bool|
            check_view(r) == check_image_spec(
                file_path@,
                exists,
                Some(dotted_extension(file_path@)),
            ),
{
    let exists = path_exists(file_path);
    if !exists {
        let r = check_image(file_path, false, None);
        assert(check_view(r) == check_image_spec(file_path@, false, None));
        assert(check_view(r) == check_image_spec(
            file_path@,
            false,
            tail_extension(path_tail(file_path@)),
        ));
        assert(check_view(r) == check_image_spec(
            file_path@,
            false,
            Some(dotted_extension(file_path@)),
        ));
        return r;
    }
    let ext = path_extension(file_path);
    let ghost e = opt_view(ext);
    let r = check_image(file_path, true, ext);
    assert(check_view(r) == check_image_spec(file_path@, true, e));
    r
}

/// A question the caller answers while searching for an executable.
#[derive(Debug)]
pub enum Probe {
    /// Does a file exist at this path?
    PathExists(String),
    /// Does running `program arg` succeed?
    CommandSucceeds { program: String, arg: String },
}

/// A way to find an executable: if the probe is answered yes, `exe` is used.
#[derive(Debug)]
pub struct Candidate {
    pub probe: Probe,
    pub exe: String,
}

/// A probe, by value.
pub enum ProbeView {
    PathExists(Seq<char>),
    CommandSucceeds(Seq<char>, Seq<char>),
}

/// A candidate, by value: its probe and the executable it yields.
pub open spec fn candidate_view(c: Candidate) -> (ProbeView, Seq<char>) {
    (
        match c.probe {
            Probe::PathExists(p) => ProbeView::PathExists(p@),
            Probe::CommandSucceeds { program, arg } => ProbeView::CommandSucceeds(program@, arg@),
        },
        c.exe@,
    )
}

/// A sequence of candidates, by value.
pub open spec fn candidates_view(v: Seq<Candidate>) -> Seq<(ProbeView, Seq<char>)> {
    v.map_values(|c: Candidate| candidate_view(c))
}

/// The next step of a search for an executable.
#[derive(Debug)]
pub enum Search {
    /// Answer the probe of the candidate at this index.
    Ask(usize),
    /// The executable to run.
    Found(String),
    /// No candidate answered yes.
    Missing,
}

/// Given the answers to the probes asked so far (all but the last no), the
/// next step: the last candidate's executable if it was a yes, else the next
/// probe, else nothing found.
pub fn next_search_step(candidates: &Vec<Candidate>, answers: &Vec<bool>) -> (s: Search)
    requires
        answers@.len() <= candidates@.len(),
        forall|i: int| 0 <= i < answers@.len() - 1 ==> !answers@[i],
    ensures
        answers@.len() > 0 && answers@.last() ==> s == Search::Found(
            candidates@[answers@.len() - 1].exe,
        ),
        !(answers@.len() > 0 && answers@.last()) && answers@.len() < candidates@.len() ==> s
            == Search::Ask(answers@.len() as usize),
        !(answers@.len() > 0 && answers@.last()) && answers@.len() == candidates@.len() ==> s
            == Search::Missing,
{
    let n: usize = answers.len();
    if n > 0 && answers[n - 1] {
        Search::Found(candidates[n - 1].exe.clone())
    } else if n < candidates.len() {
        Search::Ask(n)
    } else {
        Search::Missing
    }
}

/// The next step of an OCR run of one image.
#[derive(Debug)]
pub enum RunStep {
    /// The image was refused: the run ends with this warning, and no process
    /// is started.
    Refused(String),
    /// Answer the probe of the candidate at this index.
    Ask(usize),
    /// No candidate answered yes: the run ends without starting a process.
    Missing,
    /// Start this executable on the image.
    Start(String),
}

/// The next step of an OCR run, given the image check (`validate_image`)
/// and the answers to the probes asked so far: a refused image ends the run
/// before any probe is asked or process started; otherwise the search for
/// the executable goes on (`next_search_step`) until one is found to start.
pub fn next_run_step(check: &Result<(), String>, candidates: &Vec<Candidate>, answers: &Vec<bool>) -> (s:
    RunStep)
    requires
        answers@.len() <= candidates@.len(),
        forall|i: int| 0 <= i < answers@.len() - 1 ==> !answers@[i],
    ensures
        *check matches Err(w) ==> s == RunStep::Refused(w),
        check is Ok && answers@.len() > 0 && answers@.last() ==> s == RunStep::Start(
            candidates@[answers@.len() - 1].exe,
        ),
        check is Ok && !(answers@.len() > 0 && answers@.last()) && answers@.len() < candidates@.len()
            ==> s == RunStep::Ask(answers@.len() as usize),
        check is Ok && !(answers@.len() > 0 && answers@.last()) && answers@.len()
            == candidates@.len() ==> s == RunStep::Missing,
{
    match check {
        Err(w) => RunStep::Refused(w.clone()),
        Ok(()) => match next_search_step(candidates, answers) {
            Search::Ask(i) => RunStep::Ask(i),
            Search::Found(exe) => RunStep::Start(exe),
            Search::Missing => RunStep::Missing,
        },
    }
}

/// How running an engine's executable went.
#[derive(Debug)]
pub enum ExecOutcome {
    /// The process could not be started; the error, as `{:?}` shows it.
    SpawnFailed(String),
    /// The process ran to its end.
    Exited { success: bool, stdout: Vec<u8>, stderr: Vec<u8> },
}

/// The text that `String::from_utf8_lossy` gives for some bytes (invalid
/// sequences replaced by U+FFFD).
pub uninterp spec fn lossy_text(bytes: Seq<u8>) -> Seq<char>;

/// Decodes process output as UTF-8, replacing invalid sequences (`String::from_utf8_lossy`).
#[verifier::external_body]
pub(crate) fn decode_lossy(bytes: &[u8]) -> (r: String)
    ensures
        r@ == lossy_text(bytes@),
{
    String::from_utf8_lossy(bytes).to_string()
}

/// An engine the registry knows.
#[derive(Debug)]
pub enum RegisteredEngine {
    Tesseract(TesseractEngine),
    Paddle(PaddleEngine),
}

impl RegisteredEngine {
    /// The engine's name: `tesseract` or `paddle`.
    pub open spec fn name_spec(&self) -> Seq<char> {
        match self {
            RegisteredEngine::Tesseract(_) => "tesseract"@,
            RegisteredEngine::Paddle(_) => "paddle"@,
        }
    }

    /// The engine's name.
    pub fn name(&self) -> (r: &'static str)
        ensures
            r@ == self.name_spec(),
    {
        match self {
            RegisteredEngine::Tesseract(_) => "tesseract",
            RegisteredEngine::Paddle(_) => "paddle",
        }
    }
}

/// The engines, in priority order.
pub struct EngineRegistry {
    engines: Vec<RegisteredEngine>,
}

/// Index of the first engine named `name`.
pub open spec fn first_named(engines: Seq<RegisteredEngine>, name: Seq<char>) -> Option<int> {
    if exists|i: int| 0 <= i < engines.len() && #[trigger] engines[i].name_spec() == name {
        Some(
            choose|i: int|
                0 <= i < engines.len() && #[trigger] engines[i].name_spec() == name && forall|j: int|
                    0 <= j < i ==> engines[j].name_spec() != name,
        )
    } else {
        None
    }
}

/// A copy of an optional string.
fn clone_opt(o: &Option<String>) -> (r: Option<String>)
    ensures
        opt_view(r) == opt_view(*o),
{
    match o {
        Some(c) => Some(c.clone()),
        None => None,
    }
}

/// The first engine with a yes answer heads the list of engines with a yes
/// answer; with no yes answer that list is empty. So `get_engine("auto")`
/// returns the first name of `available_engines` when availability does not
/// change between the two calls.
pub proof fn lemma_auto_heads_available(engines: Seq<RegisteredEngine>, answers: Seq<bool>)
    requires
        answers.len() == engines.len(),
    ensures
        forall|i: int|
            0 <= i < answers.len() && #[trigger] answers[i] && (forall|j: int|
                0 <= j < i ==> !answers[j]) ==> names_where(engines, answers).len() > 0
                && names_where(engines, answers)[0] == engines[i].name_spec(),
        (forall|j: int| 0 <= j < answers.len() ==> !answers[j]) ==> names_where(
            engines,
            answers,
        ).len() == 0,
    decreases engines.len(),
{
    if engines.len() > 0 {
        let de = engines.drop_last();
        let da = answers.drop_last();
        lemma_auto_heads_available(de, da);
        lemma_names_where_len(de, da);
        assert forall|i: int|
            0 <= i < answers.len() && #[trigger] answers[i] && (forall|j: int|
                0 <= j < i ==> !answers[j]) implies names_where(engines, answers).len() > 0
                && names_where(engines, answers)[0] == engines[i].name_spec() by {
            if i < answers.len() - 1 {
                assert(da[i]);
                assert(forall|j: int| 0 <= j < i ==> !da[j]);
                assert(de[i] == engines[i]);
            } else {
                assert(forall|j: int| 0 <= j < da.len() ==> !da[j]);
            }
        }
        if forall|j: int| 0 <= j < answers.len() ==> !answers[j] {
            assert(forall|j: int| 0 <= j < da.len() ==> !da[j]);
            assert(!answers[answers.len() - 1]);
        }
    }
}

proof fn lemma_names_where_len(engines: Seq<RegisteredEngine>, answers: Seq<bool>)
    ensures
        names_where(engines, answers).len() <= engines.len(),
    decreases engines.len(),
{
    if engines.len() > 0 {
        lemma_names_where_len(engines.drop_last(), answers.drop_last());
    }
}

/// `name` selects an engine by its name: it is not `auto` and some engine has it.
pub open spec fn names_engine(engines: Seq<RegisteredEngine>, name: Seq<char>) -> bool {
    name != "auto"@ && first_named(engines, name) is Some
}

/// `r` is the automatic choice among `engines`: the first engine that
/// `is_available` answered yes for, every engine before it answered no; or
/// nothing, every engine answered no.
pub open spec fn auto_pick<F: Fn(&RegisteredEngine) -> bool>(
    engines: Seq<RegisteredEngine>,
    is_available: F,
    r: Option<&RegisteredEngine>,
) -> bool {
    match r {
        Some(e) => exists|i: int|
            0 <= i < engines.len() && engines[i] == *e && call_ensures(
                is_available,
                (&engines[i],),
                true,
            ) && forall|j: int| 0 <= j < i ==> call_ensures(is_available, (&engines[j],), false),
        None => forall|j: int|
            0 <= j < engines.len() ==> call_ensures(is_available, (&engines[j],), false),
    }
}

/// An engine of that name with none of that name before it is the first of that name.
proof fn lemma_first_named(engines: Seq<RegisteredEngine>, name: Seq<char>, i: int)
    requires
        0 <= i < engines.len(),
        engines[i].name_spec() == name,
        forall|j: int| 0 <= j < i ==> engines[j].name_spec() != name,
    ensures
        first_named(engines, name) == Some(i),
{
    let p = |k: int|
        0 <= k < engines.len() && engines[k].name_spec() == name && forall|j: int|
            0 <= j < k ==> engines[j].name_spec() != name;
    assert(p(i));
    let k = choose|k: int|
        0 <= k < engines.len() && #[trigger] engines[k].name_spec() == name && forall|j: int|
            0 <= j < k ==> engines[j].name_spec() != name;
    assert(p(k));
    if k < i {
        assert(engines[k].name_spec() != name);
    } else if k > i {
        assert(engines[i].name_spec() != name);
    }
}

impl EngineRegistry {
    /// The registered engines, in priority order.
    pub closed spec fn engines_view(&self) -> Seq<RegisteredEngine> {
        self.engines@
    }

    /// The registry for an OCR configuration: PaddleOCR first, then
    /// Tesseract, each with its configured options.
    pub fn new(config: &crate::config::OcrConfig) -> (r: Self)
        ensures
            r.engines_view().len() == 2,
            r.engines_view()[0] matches RegisteredEngine::Paddle(p) && p.cmd_view() == opt_view(
                config.engines.paddle.paddle_cmd,
            ) && p.lang_view() == match opt_view(config.engines.paddle.lang) {
                Some(l) => l,
                None => "ch"@,
            },
            r.engines_view()[1] matches RegisteredEngine::Tesseract(t) && t.cmd_view() == opt_view(
                config.engines.tesseract.tesseract_cmd,
            ),
    {
        let paddle = PaddleEngine::new(
            clone_opt(&config.engines.paddle.paddle_cmd),
            clone_opt(&config.engines.paddle.lang),
        );
        let tesseract = TesseractEngine::new(clone_opt(&config.engines.tesseract.tesseract_cmd));
        let mut engines: Vec<RegisteredEngine> = Vec::new();
        engines.push(RegisteredEngine::Paddle(paddle));
        engines.push(RegisteredEngine::Tesseract(tesseract));
        EngineRegistry { engines }
    }

    /// The registered engines, in priority order.
    pub fn engines(&self) -> (r: &Vec<RegisteredEngine>)
        ensures
            r@ == self.engines_view(),
    {
        &self.engines
    }

    /// Whether some engine is named `name`.
    pub fn has_engine_named(&self, name: &str) -> (r: bool)
        ensures
            r == (first_named(self.engines_view(), name@) is Some),
    {
        let mut i: usize = 0;
        while i < self.engines.len()
            invariant
                i <= self.engines@.len(),
                forall|j: int| 0 <= j < i ==> self.engines@[j].name_spec() != name@,
            decreases self.engines@.len() - i,
        {
            if str_eq(self.engines[i].name(), name) {
                proof {
                    lemma_first_named(self.engines@, name@, i as int);
                }
                return true;
            }
            i += 1;
        }
        false
    }

    /// The first engine that `is_available` accepts, asked in priority order
    /// and no further than that engine.
    fn first_available<F: Fn(&RegisteredEngine) -> bool>(&self, is_available: F) -> (r: Option<
        &RegisteredEngine,
    >)
        requires
            forall|e: &RegisteredEngine| call_requires(is_available, (e,)),
        ensures
            auto_pick(self.engines_view(), is_available, r),
    {
        let mut i: usize = 0;
        while i < self.engines.len()
            invariant
                i <= self.engines@.len(),
                forall|e: &RegisteredEngine| call_requires(is_available, (e,)),
                forall|j: int|
                    0 <= j < i ==> call_ensures(is_available, (&self.engines@[j],), false),
            decreases self.engines@.len() - i,
        {
            let e = &self.engines[i];
            let ok = is_available(e);
            if ok {
                assert(call_ensures(is_available, (&self.engines@[i as int],), true));
                return Some(e);
            }
            i += 1;
        }
        None
    }

    /// The engine to use for `name`: the first engine of that name; for
    /// `auto`, and for a name no engine has, the first engine that
    /// `is_available` accepts (asked in priority order, no further than that
    /// engine).
    pub fn get_engine<F: Fn(&RegisteredEngine) -> bool>(&self, name: &str, is_available: F) -> (r:
        Option<&RegisteredEngine>)
        requires
            forall|e: &RegisteredEngine| call_requires(is_available, (e,)),
        ensures
            names_engine(self.engines_view(), name@) ==> r == Some(
                &self.engines_view()[first_named(self.engines_view(), name@)->0],
            ),
            !names_engine(self.engines_view(), name@) ==> auto_pick(
                self.engines_view(),
                is_available,
                r,
            ),
    {
        if !str_eq(name, "auto") {
            let mut i: usize = 0;
            while i < self.engines.len()
                invariant
                    i <= self.engines@.len(),
                    name@ != "auto"@,
                    forall|j: int| 0 <= j < i ==> self.engines@[j].name_spec() != name@,
                decreases self.engines@.len() - i,
            {
                let e = &self.engines[i];
                if str_eq(e.name(), name) {
                    proof {
                        lemma_first_named(self.engines@, name@, i as int);
                    }
                    return Some(e);
                }
                i += 1;
            }
            assert(first_named(self.engines@, name@) is None);
        }
        self.first_available(is_available)
    }

    /// The names of the engines that `is_available` accepts, in priority order.
    pub fn available_engines<F: Fn(&RegisteredEngine) -> bool>(&self, is_available: F) -> (r: Vec<
        &'static str,
    >)
        requires
            forall|e: &RegisteredEngine| call_requires(is_available, (e,)),
        ensures
            exists|answers: Seq<bool>|
                {
                    &&& answers.len() == self.engines_view().len()
                    &&& forall|i: int|
                        0 <= i < answers.len() ==> call_ensures(
                            is_available,
                            (&self.engines_view()[i],),
                            #[trigger] answers[i],
                        )
                    &&& str_views(r@) == names_where(self.engines_view(), answers)
                },
    {
        let mut out: Vec<&'static str> = Vec::new();
        let ghost mut answers: Seq<bool> = Seq::empty();
        let mut i: usize = 0;
        while i < self.engines.len()
            invariant
                i <= self.engines@.len(),
                answers.len() == i,
                forall|e: &RegisteredEngine| call_requires(is_available, (e,)),
                forall|j: int|
                    0 <= j < i ==> call_ensures(
                        is_available,
                        (&self.engines@[j],),
                        #[trigger] answers[j],
                    ),
                str_views(out@) == names_where(self.engines@.take(i as int), answers),
            decreases self.engines@.len() - i,
        {
            let e = &self.engines[i];
            let ok = is_available(e);
            if ok {
                out.push(e.name());
            }
            proof {
                let prev = answers;
                answers = answers.push(ok);
                assert(self.engines@.take(i + 1).drop_last() =~= self.engines@.take(i as int));
                assert(answers.drop_last() =~= prev);
                assert(str_views(out@) =~= names_where(self.engines@.take(i + 1), answers));
            }
            i += 1;
        }
        assert(self.engines@.take(self.engines@.len() as int) =~= self.engines@);
        assert(answers.len() == self.engines_view().len() && (forall|i: int|
            0 <= i < answers.len() ==> call_ensures(
                is_available,
                (&self.engines_view()[i],),
                #[trigger] answers[i],
            )) && str_views(out@) == names_where(self.engines_view(), answers));
        out
    }
}

/// The views of a sequence of string slices.
pub open spec fn str_views(v: Seq<&'static str>) -> Seq<Seq<char>> {
    v.map_values(|s: &'static str| s@)
}

/// The names of the engines whose answer is yes, in order.
pub open spec fn names_where(engines: Seq<RegisteredEngine>, answers: Seq<bool>) -> Seq<Seq<char>>
    decreases engines.len(),
{
    if engines.len() == 0 {
        Seq::empty()
    } else {
        let prev = names_where(engines.drop_last(), answers.drop_last());
        if answers.last() {
            prev.push(engines.last().name_spec())
        } else {
            prev
        }
    }
}

} // verus!

//! The Tesseract engine: where its executable is looked for, how it is run,
//! and what its plain and TSV outputs yield.
use vstd::prelude::*;
use vstd::string::StringExecFns;
use super::{Candidate, ExecOutcome, OcrResult, Probe, ProbeView, candidates_view, decode_lossy, lossy_text};
use crate::text::{
    is_white_space, lemma_join_starts_with_first, lemma_trim_unspaced, lemma_unspaced_not_blank, lemma_join_ends_with_last, lemma_unspaced_is_trimmed,
    unspaced_ends, trim_start, chars_to_string, concat, is_blank, join, join_strings, lines, lines_of, opt_view,
    parse_i32, parse_i32_spec, split, split_of, str_chars, trim, trim_bounds, trim_str, views,
    char_views,
};

verus! {

/// The Tesseract OCR engine, with an optional explicit executable.
#[derive(Debug)]
pub struct TesseractEngine {
    cmd: Option<String>,
}

/// The first standard Windows location of Tesseract.
pub open spec fn windows_location_1() -> Seq<char> {
    "C:\\Program Files\\Tesseract-OCR\\tesseract.exe"@
}

/// The second standard Windows location of Tesseract.
pub open spec fn windows_location_2() -> Seq<char> {
    "C:\\Program Files (x86)\\Tesseract-OCR\\tesseract.exe"@
}

/// Where Tesseract is looked for, in order: the configured executable if it
/// exists, `tesseract` on the PATH if `tesseract --version` succeeds, then
/// the two standard Windows locations.
pub open spec fn tesseract_candidates_spec(cmd: Option<Seq<char>>) -> Seq<(ProbeView, Seq<char>)> {
    let first: Seq<(ProbeView, Seq<char>)> = match cmd {
        Some(c) => seq![(ProbeView::PathExists(c), c)],
        None => Seq::empty(),
    };
    first + seq![
        (ProbeView::CommandSucceeds("tesseract"@, "--version"@), "tesseract"@),
        (ProbeView::PathExists(windows_location_1()), windows_location_1()),
        (ProbeView::PathExists(windows_location_2()), windows_location_2()),
    ]
}

/// A configured executable is tried first and is what runs when it exists;
/// and every candidate that asks whether a file exists runs that very file.
pub proof fn lemma_tesseract_candidates_run_what_they_find(cmd: Option<Seq<char>>)
    ensures
        cmd matches Some(c) ==> tesseract_candidates_spec(cmd)[0] == (ProbeView::PathExists(c), c),
        cmd is None ==> tesseract_candidates_spec(cmd)[0] == (
            ProbeView::CommandSucceeds("tesseract"@, "--version"@),
            "tesseract"@,
        ),
        forall|k: int|
            0 <= k < tesseract_candidates_spec(cmd).len() ==> ((#[trigger] tesseract_candidates_spec(
                cmd,
            )[k]).0 matches ProbeView::PathExists(p) ==> tesseract_candidates_spec(cmd)[k].1 == p),
{
}

/// The arguments Tesseract is run with: the image, output to stdout, the
/// languages, page segmentation mode 3, and `tsv` for scored output.
pub open spec fn tesseract_args_spec(file: Seq<char>, lang: Seq<char>, tsv: bool) -> Seq<Seq<char>> {
    let base = seq![file, "stdout"@, "-l"@, lang, "--psm"@, "3"@];
    if tsv {
        base.push("tsv"@)
    } else {
        base
    }
}

/// The warning when no Tesseract executable is found (the scored run has a shorter one).
pub open spec fn not_found_spec(tsv: bool) -> Seq<char> {
    if tsv {
        "Tesseract not found"@
    } else {
        "Tesseract not found in PATH or common install locations. Install from https://github.com/UB-Mannheim/tesseract/wiki"@
    }
}

/// The result of a plain run, by value: text and warning.
pub open spec fn plain_result_spec(o: ExecOutcome) -> (Option<Seq<char>>, Option<Seq<char>>) {
    match o {
        ExecOutcome::SpawnFailed(e) => (None, Some("Failed to execute tesseract: "@ + e@)),
        ExecOutcome::Exited { success, stdout, stderr } => if !success {
            (None, Some("Tesseract failed: "@ + trim(lossy_text(stderr@))))
        } else {
            let t = trim(lossy_text(stdout@));
            if t.len() == 0 {
                (None, Some("OCR returned empty text"@))
            } else {
                (Some(t), None)
            }
        },
    }
}

/// A word row of Tesseract's TSV output: a non-blank line of at least twelve
/// tab-separated fields whose first field parses as level 5. It yields the
/// confidence field (the eleventh) and the trimmed word (the twelfth).
pub open spec fn tsv_row(line: Seq<char>) -> Option<(Seq<char>, Seq<char>)> {
    if is_blank(line) {
        None
    } else {
        let cols = split(line, '\t');
        if cols.len() < 12 {
            None
        } else if parse_i32_spec(cols[0]) == Some(5i32) {
            Some((cols[10], trim(cols[11])))
        } else {
            None
        }
    }
}

/// The word rows among `ls`, in order.
pub open spec fn tsv_rows(ls: Seq<Seq<char>>) -> Seq<(Seq<char>, Seq<char>)>
    decreases ls.len(),
{
    if ls.len() == 0 {
        Seq::empty()
    } else {
        let prev = tsv_rows(ls.drop_last());
        match tsv_row(ls.last()) {
            Some(r) => prev.push(r),
            None => prev,
        }
    }
}

/// The non-empty words of the rows, in order.
pub open spec fn row_words(rows: Seq<(Seq<char>, Seq<char>)>) -> Seq<Seq<char>>
    decreases rows.len(),
{
    if rows.len() == 0 {
        Seq::empty()
    } else {
        let prev = row_words(rows.drop_last());
        if rows.last().1.len() > 0 {
            prev.push(rows.last().1)
        } else {
            prev
        }
    }
}

/// No word is lost: when every row holds a non-empty word (one character
/// is enough), the words are exactly the rows' words, in order.
pub proof fn lemma_every_word_kept(rows: Seq<(Seq<char>, Seq<char>)>)
    requires
        forall|k: int| 0 <= k < rows.len() ==> (#[trigger] rows[k]).1.len() > 0,
    ensures
        row_words(rows) == rows.map_values(|r: (Seq<char>, Seq<char>)| r.1),
    decreases rows.len(),
{
    if rows.len() > 0 {
        assert forall|k: int| 0 <= k < rows.drop_last().len() implies (
        #[trigger] rows.drop_last()[k]).1.len() > 0 by {
            assert(rows.drop_last()[k] == rows[k]);
        }
        lemma_every_word_kept(rows.drop_last());
        assert(rows[rows.len() - 1].1.len() > 0);
        assert(row_words(rows) =~= rows.map_values(|r: (Seq<char>, Seq<char>)| r.1));
    } else {
        assert(row_words(rows) =~= rows.map_values(|r: (Seq<char>, Seq<char>)| r.1));
    }
}

/// The confidence fields of the rows, in order.
pub open spec fn row_confidences(rows: Seq<(Seq<char>, Seq<char>)>) -> Seq<Seq<char>> {
    rows.map_values(|r: (Seq<char>, Seq<char>)| r.0)
}

/// The lines of a TSV text after its header line.
pub open spec fn tsv_body(s: Seq<char>) -> Seq<Seq<char>> {
    let ls = lines(s);
    if ls.len() == 0 {
        ls
    } else {
        ls.subrange(1, ls.len() as int)
    }
}

/// What a scored (TSV) run yields, with the confidence fields of its words.
#[derive(Debug)]
pub struct TsvOcrResult {
    pub text: Option<String>,
    pub warning: Option<String>,
    /// The confidence field of each word row, as written (empty when there is no text).
    pub confidence_fields: Vec<String>,
}

/// The result of a scored run, by value: text, warning and confidence fields.
pub open spec fn tsv_result_spec(o: ExecOutcome) -> (
    Option<Seq<char>>,
    Option<Seq<char>>,
    Seq<Seq<char>>,
) {
    match o {
        ExecOutcome::SpawnFailed(e) => (
            None,
            Some("Failed to execute tesseract: "@ + e@),
            Seq::empty(),
        ),
        ExecOutcome::Exited { success, stdout, stderr } => if !success {
            (None, Some("Tesseract failed: "@ + trim(lossy_text(stderr@))), Seq::empty())
        } else {
            let rows = tsv_rows(tsv_body(lossy_text(stdout@)));
            let full = join(row_words(rows), " "@);
            if is_blank(full) {
                (None, Some("OCR returned empty text"@), Seq::empty())
            } else {
                (Some(full), None, row_confidences(rows))
            }
        },
    }
}

/// A scored run without text reports no confidences, so its average
/// confidence is zero and the vision fallback is considered.
pub proof fn lemma_no_text_no_confidences(o: ExecOutcome)
    ensures
        tsv_result_spec(o).0 is None ==> tsv_result_spec(o).2.len() == 0,
        tsv_result_spec(o).0 is None <==> tsv_result_spec(o).1 is Some,
{
}

/// Every row of `tsv_rows(ls)` holds a trimmed word.
proof fn lemma_rows_trimmed(ls: Seq<Seq<char>>)
    ensures
        forall|k: int|
            0 <= k < tsv_rows(ls).len() ==> unspaced_ends(#[trigger] tsv_rows(ls)[k].1),
    decreases ls.len(),
{
    if ls.len() > 0 {
        lemma_rows_trimmed(ls.drop_last());
        let prev = tsv_rows(ls.drop_last());
        match tsv_row(ls.last()) {
            Some(r) => {
                if !is_blank(ls.last()) {
                    lemma_trim_unspaced(split(ls.last(), '\t')[11]);
                }
                assert forall|k: int| 0 <= k < tsv_rows(ls).len() implies unspaced_ends(
                    #[trigger] tsv_rows(ls)[k].1,
                ) by {
                    if k < prev.len() {
                        assert(tsv_rows(ls)[k] == prev[k]);
                    }
                }
            },
            None => {},
        }
    }
}

/// The words taken from rows with trimmed words are non-empty and unspaced.
proof fn lemma_row_words_unspaced_rows(rows: Seq<(Seq<char>, Seq<char>)>)
    requires
        forall|k: int| 0 <= k < rows.len() ==> unspaced_ends(#[trigger] rows[k].1),
    ensures
        forall|k: int|
            0 <= k < row_words(rows).len() ==> (#[trigger] row_words(rows)[k]).len() > 0
                && unspaced_ends(row_words(rows)[k]),
    decreases rows.len(),
{
    if rows.len() > 0 {
        assert forall|k: int| 0 <= k < rows.drop_last().len() implies unspaced_ends(
            #[trigger] rows.drop_last()[k].1,
        ) by {
            assert(rows.drop_last()[k] == rows[k]);
        }
        lemma_row_words_unspaced_rows(rows.drop_last());
        assert(unspaced_ends(rows[rows.len() - 1].1));
        let prev = row_words(rows.drop_last());
        assert forall|k: int| 0 <= k < row_words(rows).len() implies (#[trigger] row_words(
            rows,
        )[k]).len() > 0 && unspaced_ends(row_words(rows)[k]) by {
            if k < prev.len() {
                assert(row_words(rows)[k] == prev[k]);
            }
        }
    }
}

/// A scored run that succeeded has text exactly when some word row holds a
/// non-empty word.
pub proof fn lemma_text_iff_words(o: ExecOutcome)
    requires
        o matches ExecOutcome::Exited { success, .. } && success,
    ensures
        match o {
            ExecOutcome::Exited { stdout, .. } => tsv_result_spec(o).0 is Some <==> row_words(
                tsv_rows(tsv_body(lossy_text(stdout@))),
            ).len() > 0,
            _ => true,
        },
{
    match o {
        ExecOutcome::Exited { stdout, .. } => {
            let ls = tsv_body(lossy_text(stdout@));
            let words = row_words(tsv_rows(ls));
            if words.len() > 0 {
                lemma_rows_trimmed(ls);
                lemma_row_words_unspaced_rows(tsv_rows(ls));
                assert(words[0].len() > 0 && unspaced_ends(words[0]));
                lemma_join_starts_with_first(words, " "@);
                lemma_unspaced_not_blank(join(words, " "@));
            } else {
                assert(join(words, " "@) =~= Seq::<char>::empty());
                assert(trim_start(Seq::<char>::empty()) =~= Seq::<char>::empty());
            }
        },
        _ => {},
    }
}

/// The text of a scored run is never empty and is its own trim: its words
/// are trimmed and joined by single spaces.
pub proof fn lemma_scored_text_trimmed(o: ExecOutcome)
    ensures
        tsv_result_spec(o).0 matches Some(t) ==> t.len() > 0 && trim(t) == t,
{
    match o {
        ExecOutcome::Exited { success, stdout, .. } => {
            if success {
                let ls = tsv_body(lossy_text(stdout@));
                let words = row_words(tsv_rows(ls));
                if words.len() > 0 {
                    lemma_rows_trimmed(ls);
                    lemma_row_words_unspaced_rows(tsv_rows(ls));
                    assert(words[0].len() > 0 && unspaced_ends(words[0]));
                    assert(words.last().len() > 0 && unspaced_ends(words.last()));
                    lemma_join_starts_with_first(words, " "@);
                    lemma_join_ends_with_last(words, " "@);
                    lemma_unspaced_is_trimmed(join(words, " "@));
                } else {
                    assert(join(words, " "@) =~= Seq::<char>::empty());
                    assert(trim_start(Seq::<char>::empty()) =~= Seq::<char>::empty());
                }
            }
        },
        _ => {},
    }
}

impl TsvOcrResult {
    /// Exactly one of text and warning is present.
    pub open spec fn is_settled(&self) -> bool {
        self.text is Some != self.warning is Some
    }
}

impl TesseractEngine {
    /// The configured executable, by value.
    pub closed spec fn cmd_view(&self) -> Option<Seq<char>> {
        opt_view(self.cmd)
    }

    /// An engine that runs `cmd` when given and present, else looks for Tesseract.
    pub fn new(cmd: Option<String>) -> (r: Self)
        ensures
            r.cmd_view() == opt_view(cmd),
    {
        TesseractEngine { cmd }
    }

    /// The configured executable.
    pub fn cmd(&self) -> (r: &Option<String>)
        ensures
            opt_view(*r) == self.cmd_view(),
    {
        &self.cmd
    }

    /// The engine's name: `tesseract`.
    pub fn name(&self) -> (r: &'static str)
        ensures
            r@ == "tesseract"@,
    {
        "tesseract"
    }

    /// Where to look for the executable, in order (see `next_search_step`).
    pub fn candidates(&self) -> (r: Vec<Candidate>)
        ensures
            candidates_view(r@) == tesseract_candidates_spec(self.cmd_view()),
    {
        let mut r: Vec<Candidate> = Vec::new();
        match &self.cmd {
            Some(c) => {
                r.push(Candidate { probe: Probe::PathExists(c.clone()), exe: c.clone() });
            },
            None => {},
        }
        r.push(
            Candidate {
                probe: Probe::CommandSucceeds {
                    program: String::from_str("tesseract"),
                    arg: String::from_str("--version"),
                },
                exe: String::from_str("tesseract"),
            },
        );
        r.push(
            Candidate {
                probe: Probe::PathExists(
                    String::from_str("C:\\Program Files\\Tesseract-OCR\\tesseract.exe"),
                ),
                exe: String::from_str("C:\\Program Files\\Tesseract-OCR\\tesseract.exe"),
            },
        );
        r.push(
            Candidate {
                probe: Probe::PathExists(
                    String::from_str("C:\\Program Files (x86)\\Tesseract-OCR\\tesseract.exe"),
                ),
                exe: String::from_str("C:\\Program Files (x86)\\Tesseract-OCR\\tesseract.exe"),
            },
        );
        assert(candidates_view(r@) =~= tesseract_candidates_spec(self.cmd_view()));
        r
    }
}

/// The arguments to run Tesseract with on `file` in languages `lang`.
pub fn tesseract_args(file: &str, lang: &str, tsv: bool) -> (r: Vec<String>)
    ensures
        views(r@) == tesseract_args_spec(file@, lang@, tsv),
{
    let mut r: Vec<String> = Vec::new();
    r.push(String::from_str(file));
    r.push(String::from_str("stdout"));
    r.push(String::from_str("-l"));
    r.push(String::from_str(lang));
    r.push(String::from_str("--psm"));
    r.push(String::from_str("3"));
    if tsv {
        r.push(String::from_str("tsv"));
    }
    assert(views(r@) =~= tesseract_args_spec(file@, lang@, tsv));
    r
}

/// The warning when no Tesseract executable is found.
pub fn not_found_warning(tsv: bool) -> (r: String)
    ensures
        r@ == not_found_spec(tsv),
{
    if tsv {
        String::from_str("Tesseract not found")
    } else {
        String::from_str(
            "Tesseract not found in PATH or common install locations. Install from https://github.com/UB-Mannheim/tesseract/wiki",
        )
    }
}

/// The warning for a Tesseract process that failed, from its error output.
fn failure_warning(stderr: &[u8]) -> (r: String)
    ensures
        r@ == "Tesseract failed: "@ + trim(lossy_text(stderr@)),
{
    let err = decode_lossy(stderr);
    let t = trim_str(err.as_str());
    concat("Tesseract failed: ", t.as_str())
}

/// What a plain Tesseract run yields: the trimmed output, or a warning when
/// the process did not start, failed, or printed only white space.
pub fn plain_result(outcome: ExecOutcome) -> (r: OcrResult)
    ensures
        (opt_view(r.text), opt_view(r.warning)) == plain_result_spec(outcome),
        r.is_settled(),
{
    match outcome {
        ExecOutcome::SpawnFailed(e) => OcrResult::warn(
            concat("Failed to execute tesseract: ", e.as_str()),
        ),
        ExecOutcome::Exited { success, stdout, stderr } => {
            if !success {
                return OcrResult::warn(failure_warning(stderr.as_slice()));
            }
            let out = decode_lossy(stdout.as_slice());
            let t = trim_str(out.as_str());
            if t.as_str().is_empty() {
                OcrResult::warn(String::from_str("OCR returned empty text"))
            } else {
                OcrResult { text: Some(t), warning: None }
            }
        },
    }
}

/// The word row of one TSV line, if it is one.
pub fn tsv_row_of(line: &Vec<char>) -> (r: Option<(String, String)>)
    ensures
        match r {
            Some((c, w)) => tsv_row(line@) == Some((c@, w@)),
            None => tsv_row(line@) is None,
        },
{
    let (lo, hi) = trim_bounds(line);
    if lo == hi {
        return None;
    }
    let cols = split_of(line.as_slice(), '\t');
    if cols.len() < 12 {
        return None;
    }
    let level = parse_i32(cols[0].as_slice());
    match level {
        Some(5) => {
            let conf = chars_to_string(&cols[10], 0, cols[10].len());
            let (wlo, whi) = trim_bounds(&cols[11]);
            let word = chars_to_string(&cols[11], wlo, whi);
            assert(cols[10]@.subrange(0, cols[10]@.len() as int) =~= cols[10]@);
            assert(char_views(cols@)[10] == cols@[10]@);
            assert(char_views(cols@)[11] == cols@[11]@);
            assert(char_views(cols@)[0] == cols@[0]@);
            Some((conf, word))
        },
        _ => {
            assert(char_views(cols@)[0] == cols@[0]@);
            None
        },
    }
}

/// The words and confidence fields of the word rows of a TSV text (its first
/// line is a header).
pub fn parse_tsv(tsv: &str) -> (r: (Vec<String>, Vec<String>))
    ensures
        views(r.0@) == row_words(tsv_rows(tsv_body(tsv@))),
        views(r.1@) == row_confidences(tsv_rows(tsv_body(tsv@))),
{
    let chars = str_chars(tsv);
    let ls = lines_of(chars.as_slice());
    let mut words: Vec<String> = Vec::new();
    let mut confs: Vec<String> = Vec::new();
    if ls.len() == 0 {
        assert(views(words@) =~= row_words(tsv_rows(tsv_body(tsv@))));
        assert(views(confs@) =~= row_confidences(tsv_rows(tsv_body(tsv@))));
        return (words, confs);
    }
    let ghost body = tsv_body(tsv@);
    assert(body =~= char_views(ls@).subrange(1, ls@.len() as int));
    let mut i: usize = 1;
    while i < ls.len()
        invariant
            1 <= i <= ls@.len(),
            body == char_views(ls@).subrange(1, ls@.len() as int),
            views(words@) == row_words(tsv_rows(body.take(i - 1))),
            views(confs@) == row_confidences(tsv_rows(body.take(i - 1))),
        decreases ls@.len() - i,
    {
        let ghost before = tsv_rows(body.take(i - 1));
        assert(body.take(i as int).drop_last() =~= body.take(i - 1));
        assert(body.take(i as int).last() == ls@[i as int]@);
        match tsv_row_of(&ls[i]) {
            Some((c, w)) => {
                let ghost rows = tsv_rows(body.take(i as int));
                assert(rows == before.push((c@, w@)));
                assert(rows.drop_last() =~= before);
                let ghost old_confs = views(confs@);
                confs.push(c);
                assert(views(confs@) =~= old_confs.push(c@));
                assert(row_confidences(rows) =~= row_confidences(before).push(c@));
                if !w.as_str().is_empty() {
                    words.push(w);
                    assert(views(words@) =~= row_words(rows));
                } else {
                    assert(views(words@) =~= row_words(rows));
                }
            },
            None => {
                assert(tsv_rows(body.take(i as int)) == before);
            },
        }
        i += 1;
    }
    assert(body.take(ls@.len() - 1) =~= body);
    (words, confs)
}

/// What a scored Tesseract run yields: the words of its word rows joined by
/// spaces, with their confidence fields, or a warning when the process did
/// not start, failed, or recognised no word.
pub fn tsv_result(outcome: ExecOutcome) -> (r: TsvOcrResult)
    ensures
        (opt_view(r.text), opt_view(r.warning), views(r.confidence_fields@)) == tsv_result_spec(
            outcome,
        ),
        r.is_settled(),
{
    match outcome {
        ExecOutcome::SpawnFailed(e) => {
            let r = TsvOcrResult {
                text: None,
                warning: Some(concat("Failed to execute tesseract: ", e.as_str())),
                confidence_fields: Vec::new(),
            };
            assert(views(r.confidence_fields@) =~= Seq::empty());
            r
        },
        ExecOutcome::Exited { success, stdout, stderr } => {
            if !success {
                let r = TsvOcrResult {
                    text: None,
                    warning: Some(failure_warning(stderr.as_slice())),
                    confidence_fields: Vec::new(),
                };
                assert(views(r.confidence_fields@) =~= Seq::empty());
                return r;
            }
            let out = decode_lossy(stdout.as_slice());
            let (words, confs) = parse_tsv(out.as_str());
            let full = join_strings(&words, " ");
            let t = trim_str(full.as_str());
            if t.as_str().is_empty() {
                let r = TsvOcrResult {
                    text: None,
                    warning: Some(String::from_str("OCR returned empty text")),
                    confidence_fields: Vec::new(),
                };
                assert(views(r.confidence_fields@) =~= Seq::empty());
                r
            } else {
                TsvOcrResult { text: Some(full), warning: None, confidence_fields: confs }
            }
        },
    }
}

} // verus!

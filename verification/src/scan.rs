use vstd::prelude::*;
use crate::edit::{SourceEdit, EditView, edits_view, edits_ok, reconcile_spec, reconcile_checked, lemma_reconcile_pair};
use crate::lang::Lang;
use crate::review::{ReviewAction, review_action, spec_review_action, line_of_offset, spec_line_of};

verus! {

/// Arguments of an ad-hoc pattern run: one structural pattern, optionally a
/// rewrite template of the same language, and the walk's configuration.
pub struct RunArg {
    /// Structural pattern to match.
    pub pattern: String,
    /// Template to replace the matched region with.
    pub rewrite: Option<String>,
    /// Print the parsed pattern's tree representation before running.
    pub debug_query: bool,
    /// The language of the pattern query.
    pub lang: Lang,
    /// Review each match interactively instead of only reporting.
    pub interactive: bool,
    /// The path whose descendant files are to be explored.
    pub path: String,
    /// Include hidden files in the search.
    pub hidden: bool,
}

/// Arguments of a config-rule run: rules come from a configuration file
/// instead of the command line.
pub struct ScanArg {
    /// Path to the rule configuration, a file or a folder.
    pub config: Option<String>,
    /// Include hidden files in the search.
    pub hidden: bool,
    /// Review each match interactively instead of only reporting.
    pub interactive: bool,
    /// When to color the report.
    pub color: String,
    /// How to style the report.
    pub report_style: String,
    /// The path whose descendant files are to be explored.
    pub path: String,
}

/// Whether a scan of `source` with `pattern` can run at all: the source
/// decodes as UTF-8, the pattern compiles for the language, and the parser
/// accepts the text. Both engine calls below succeed under exactly this
/// condition.
pub uninterp spec fn scan_ok(lang: Lang, pattern: Seq<char>, source: Seq<u8>) -> bool;

/// The byte spans, against the original source, of every match the engine
/// finds for `pattern` in `source`, in the tree's traversal order.
pub uninterp spec fn match_spans(lang: Lang, pattern: Seq<char>, source: Seq<u8>) -> Seq<
    (usize, usize),
>;

/// The edits the engine produces when every match of `pattern` in `source`
/// is replaced per the `rewrite` template, all positions read against the
/// original source.
pub uninterp spec fn rewrite_edits(
    lang: Lang,
    pattern: Seq<char>,
    rewrite: Seq<char>,
    source: Seq<u8>,
) -> Seq<EditView>;

/// The batch report for one file: its match spans when the scan runs and
/// finds at least one, and nothing otherwise. This is also when a session
/// exists in interactive mode.
pub open spec fn spec_scan_report(lang: Lang, pattern: Seq<char>, source: Seq<u8>) -> Option<
    Seq<(usize, usize)>,
> {
    if scan_ok(lang, pattern, source) && match_spans(lang, pattern, source).len() > 0 {
        Some(match_spans(lang, pattern, source))
    } else {
        None
    }
}

/// A file with zero matches yields no report and no session: nothing is
/// ever printed for it, and with no session the review loop can never
/// write it.
pub proof fn lemma_no_match_no_report(lang: Lang, pattern: Seq<char>, source: Seq<u8>)
    ensures
        match_spans(lang, pattern, source).len() == 0 ==> spec_scan_report(
            lang,
            pattern,
            source,
        ) is None,
{
}

#[verifier::external_type_specification]
#[verifier::external_body]
pub struct ExSupportLang(ast_grep_language::SupportLang);

/// Relies on ast_grep_language::SupportLang: the engine language that
/// stands for each library language.
#[verifier::external_body]
fn support_lang(lang: Lang) -> ast_grep_language::SupportLang {
    match lang {
        Lang::C => ast_grep_language::SupportLang::C,
        Lang::Go => ast_grep_language::SupportLang::Go,
        Lang::JavaScript => ast_grep_language::SupportLang::JavaScript,
        Lang::Python => ast_grep_language::SupportLang::Python,
        Lang::Rust => ast_grep_language::SupportLang::Rust,
        Lang::TypeScript => ast_grep_language::SupportLang::TypeScript,
    }
}

/// Relies on ast_grep_core::Pattern::try_new, AstGrep::try_new and
/// Node::find_all: compiles the pattern, parses the source and hands back
/// each match's byte range, a pure function of the arguments.
#[verifier::external_body]
fn engine_find_spans(lang: Lang, pattern: &str, source: &Vec<u8>) -> (r: Option<
    Vec<(usize, usize)>,
>)
    ensures
        r is Some <==> scan_ok(lang, pattern@, source@),
        r matches Some(v) ==> v@ == match_spans(lang, pattern@, source@),
{
    let text = std::str::from_utf8(source).ok()?;
    let sl = support_lang(lang);
    let pat = ast_grep_core::Pattern::try_new(pattern, sl).ok()?;
    let grep = ast_grep_core::AstGrep::try_new(text, sl).ok()?;
    Some(grep.root().find_all(&pat).map(|m| (m.range().start, m.range().end)).collect())
}

/// Relies on ast_grep_core::Pattern::try_new, AstGrep::try_new and
/// Node::replace_all: compiles the pattern, parses the source and hands
/// back the engine's edits for the rewrite template, a pure function of
/// the arguments.
#[verifier::external_body]
fn engine_rewrite_edits(lang: Lang, pattern: &str, rewrite: &str, source: &Vec<u8>) -> (r: Option<
    Vec<SourceEdit>,
>)
    ensures
        r is Some <==> scan_ok(lang, pattern@, source@),
        r matches Some(v) ==> edits_view(v@) == rewrite_edits(lang, pattern@, rewrite@, source@),
{
    let text = std::str::from_utf8(source).ok()?;
    let sl = support_lang(lang);
    let pat = ast_grep_core::Pattern::try_new(pattern, sl).ok()?;
    let grep = ast_grep_core::AstGrep::try_new(text, sl).ok()?;
    let edits = grep.root().replace_all(&pat, rewrite);
    Some(edits.into_iter().map(|e| SourceEdit {
        position: e.position,
        deleted_length: e.deleted_length,
        inserted_text: e.inserted_text,
    }).collect())
}

/// Relies on num_cpus::get: the number of available logical cores, which
/// is documented to be at least one.
#[verifier::external_body]
fn available_cores() -> (n: usize)
    ensures
        n >= 1,
{
    num_cpus::get()
}

/// Caps a worker count at twelve, to bound resource contention: exactly
/// the smaller of the drawn core count and twelve.
pub fn cap_threads(c: usize) -> (n: usize)
    ensures
        n == if c < 12 {
            c as int
        } else {
            12int
        },
{
    if c < 12 {
        c
    } else {
        12
    }
}

/// The walker's worker budget: exactly the available cores capped at
/// twelve. The core count depends on the machine, so of the budget itself
/// only the bound holds on every outcome; the cap's exact value is
/// `cap_threads`'s contract.
pub fn thread_count() -> (n: usize)
    ensures
        1 <= n <= 12,
{
    cap_threads(available_cores())
}

/// Whether the scan can run at all for this language, pattern and source
/// text: tells a pattern that does not compile (or text the scan cannot
/// read) apart from a file that merely has no matches.
pub fn scan_runs(lang: Lang, pattern: &str, source: &Vec<u8>) -> (r: bool)
    ensures
        r == scan_ok(lang, pattern@, source@),
{
    engine_find_spans(lang, pattern, source).is_some()
}

/// Scans one file's content in batch mode: the matched spans when there is
/// at least one match, and nothing — no report — when there is none or the
/// scan cannot run.
pub fn match_one_file(lang: Lang, pattern: &str, source: &Vec<u8>) -> (r: Option<
    Vec<(usize, usize)>,
>)
    ensures
        match r {
            Some(spans) => Some(spans@) == spec_scan_report(lang, pattern@, source@),
            None => spec_scan_report(lang, pattern@, source@) is None,
        },
{
    match engine_find_spans(lang, pattern, source) {
        None => None,
        Some(spans) => {
            if spans.len() == 0 {
                None
            } else {
                Some(spans)
            }
        },
    }
}

/// One file's pending matches, handed from a parallel worker to the
/// serial consumer. The worker retains nothing after the handoff.
pub struct MatchSession {
    /// Each match's byte span against the original source.
    pub spans: Vec<(usize, usize)>,
}

/// The worker side of an interactive run: yields a session exactly when
/// the file has at least one match, so files without one are never
/// handed over for a decision.
pub fn filter_file_interactive(lang: Lang, pattern: &str, source: &Vec<u8>) -> (r: Option<
    MatchSession,
>)
    ensures
        match r {
            Some(s) => Some(s.spans@) == spec_scan_report(lang, pattern@, source@),
            None => spec_scan_report(lang, pattern@, source@) is None,
        },
{
    match match_one_file(lang, pattern, source) {
        None => None,
        Some(spans) => Some(MatchSession { spans }),
    }
}

/// Replaces every match of `pattern` in `source` per the `rewrite`
/// template: the engine's edits are validated — ascending, non-overlapping,
/// within bounds — and reconciled against the original source. `None`
/// exactly when the scan cannot run or the edits fail that validation.
pub fn apply_rewrite(lang: Lang, pattern: &str, rewrite: &str, source: &Vec<u8>) -> (r: Option<
    Vec<u8>,
>)
    ensures
        match r {
            Some(v) => scan_ok(lang, pattern@, source@) && edits_ok(
                source@.len() as int,
                rewrite_edits(lang, pattern@, rewrite@, source@),
            ) && v@ == reconcile_spec(source@, rewrite_edits(lang, pattern@, rewrite@, source@)),
            None => !scan_ok(lang, pattern@, source@) || !edits_ok(
                source@.len() as int,
                rewrite_edits(lang, pattern@, rewrite@, source@),
            ),
        },
{
    match engine_rewrite_edits(lang, pattern, rewrite, source) {
        None => None,
        Some(edits) => reconcile_checked(source, &edits),
    }
}

/// How one reviewed session ends.
pub enum SessionOutcome {
    /// Nothing to apply or nothing accepted: take the next session.
    Continue,
    /// Overwrite the session's file with this content.
    Write(Vec<u8>),
    /// Open the external editor at this zero-based line, then move on.
    OpenEditorAt(usize),
    /// End the whole run, abandoning the sessions still in flight.
    Quit,
    /// The accept-all decision, whose behaviour is not implemented.
    FatalUnimplemented,
    /// Accept was chosen but the engine's edits failed validation:
    /// overlapping or out-of-order edits must fault, not corrupt the file.
    FatalBadEdits,
}

/// Reviews one ad-hoc session: without a rewrite template the matches are
/// only acknowledged and nothing can be written; with one, the response
/// decides between writing the reconciled content, leaving the file alone,
/// deferring to the editor at the first match's start line, quitting, or
/// the unimplemented accept-all fault.
pub fn run_one_interaction(
    lang: Lang,
    pattern: &str,
    rewrite: Option<&str>,
    source: &Vec<u8>,
    session: &MatchSession,
    response: char,
) -> (o: SessionOutcome)
    requires
        session.spans@.len() > 0,
    ensures
        rewrite is None ==> o is Continue,
        rewrite matches Some(rw) ==> {
            let action = spec_review_action(
                true,
                response,
                spec_line_of(source@, session.spans@[0].0 as int) as usize,
            );
            let edits = rewrite_edits(lang, pattern@, rw@, source@);
            match o {
                SessionOutcome::Continue => action == ReviewAction::Continue,
                SessionOutcome::Write(v) => action == ReviewAction::WriteFile && scan_ok(
                    lang,
                    pattern@,
                    source@,
                ) && edits_ok(source@.len() as int, edits) && v@ == reconcile_spec(source@, edits),
                SessionOutcome::OpenEditorAt(p) => action == ReviewAction::OpenEditorAt(p),
                SessionOutcome::Quit => action == ReviewAction::Quit,
                SessionOutcome::FatalUnimplemented => action == ReviewAction::FatalUnimplemented,
                SessionOutcome::FatalBadEdits => action == ReviewAction::WriteFile && (!scan_ok(
                    lang,
                    pattern@,
                    source@,
                ) || !edits_ok(source@.len() as int, edits)),
            }
        },
{
    let first_line: usize = line_of_offset(source, session.spans[0].0);
    match rewrite {
        None => SessionOutcome::Continue,
        Some(rw) => {
            match review_action(true, response, first_line) {
                ReviewAction::Continue => SessionOutcome::Continue,
                ReviewAction::WriteFile => {
                    match apply_rewrite(lang, pattern, rw, source) {
                        Some(v) => SessionOutcome::Write(v),
                        None => SessionOutcome::FatalBadEdits,
                    }
                },
                ReviewAction::OpenEditorAt(p) => SessionOutcome::OpenEditorAt(p),
                ReviewAction::Quit => SessionOutcome::Quit,
                ReviewAction::FatalUnimplemented => SessionOutcome::FatalUnimplemented,
            }
        },
    }
}

/// The zero-match gate of the rule path: a rule's matches become a session
/// exactly when there is at least one, so a rule that matched nothing is
/// neither reported nor reviewed.
pub fn rule_session(spans: Vec<(usize, usize)>) -> (r: Option<MatchSession>)
    ensures
        match r {
            Some(s) => spans@.len() > 0 && s.spans@ == spans@,
            None => spans@.len() == 0,
        },
{
    if spans.len() == 0 {
        None
    } else {
        Some(MatchSession { spans })
    }
}

/// Reviews one config-rule session, whose matches and fixer edits come
/// from the engine's opaque rule object: without fixer edits the matches
/// are only acknowledged and nothing can be written; with them, the
/// response decides as in the ad-hoc path, and an accepted session's edits
/// are validated and reconciled against the original source, faulting
/// rather than writing when they overlap.
pub fn run_rule_interaction(
    source: &Vec<u8>,
    session: &MatchSession,
    edits: Option<&Vec<SourceEdit>>,
    response: char,
) -> (o: SessionOutcome)
    requires
        session.spans@.len() > 0,
    ensures
        edits is None ==> o is Continue,
        edits matches Some(es) ==> {
            let action = spec_review_action(
                true,
                response,
                spec_line_of(source@, session.spans@[0].0 as int) as usize,
            );
            match o {
                SessionOutcome::Continue => action == ReviewAction::Continue,
                SessionOutcome::Write(v) => action == ReviewAction::WriteFile && edits_ok(
                    source@.len() as int,
                    edits_view(es@),
                ) && v@ == reconcile_spec(source@, edits_view(es@)),
                SessionOutcome::OpenEditorAt(p) => action == ReviewAction::OpenEditorAt(p),
                SessionOutcome::Quit => action == ReviewAction::Quit,
                SessionOutcome::FatalUnimplemented => action == ReviewAction::FatalUnimplemented,
                SessionOutcome::FatalBadEdits => action == ReviewAction::WriteFile && !edits_ok(
                    source@.len() as int,
                    edits_view(es@),
                ),
            }
        },
{
    let first_line: usize = line_of_offset(source, session.spans[0].0);
    match edits {
        None => SessionOutcome::Continue,
        Some(es) => {
            match review_action(true, response, first_line) {
                ReviewAction::Continue => SessionOutcome::Continue,
                ReviewAction::WriteFile => {
                    match reconcile_checked(source, es) {
                        Some(v) => SessionOutcome::Write(v),
                        None => SessionOutcome::FatalBadEdits,
                    }
                },
                ReviewAction::OpenEditorAt(p) => SessionOutcome::OpenEditorAt(p),
                ReviewAction::Quit => SessionOutcome::Quit,
                ReviewAction::FatalUnimplemented => SessionOutcome::FatalUnimplemented,
            }
        },
    }
}

/// One accepted session applies every engine edit in a single reconciled
/// pass: when the engine hands exactly two validated edits, accepting is
/// the one decision that writes, and the single written content holds both
/// replacements, each offset read against the original source.
pub proof fn lemma_accept_replaces_both(
    lang: Lang,
    pattern: Seq<char>,
    rewrite: Seq<char>,
    source: Seq<u8>,
    e1: EditView,
    e2: EditView,
    line: usize,
)
    requires
        rewrite_edits(lang, pattern, rewrite, source) == seq![e1, e2],
        edits_ok(source.len() as int, seq![e1, e2]),
    ensures
        spec_review_action(true, 'y', line) == ReviewAction::WriteFile,
        reconcile_spec(source, rewrite_edits(lang, pattern, rewrite, source))
            == source.subrange(0, e1.position)
                + e1.inserted_text
                + source.subrange(e1.end(), e2.position)
                + e2.inserted_text
                + source.subrange(e2.end(), source.len() as int),
{
    lemma_reconcile_pair(source, e1, e2);
}

} // verus!

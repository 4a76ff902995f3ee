use vstd::prelude::*;
use vstd::string::StringExecFns;
use crate::interpret::{interpret_runbook, spec_runbook, Mismatch};
use crate::node::Node;
use crate::runbook::{Runbook, RunbookV, Steps};
use crate::yaml::{parse_yaml_tree, yaml_parse_of, ParseFail, SourceMark};

verus! {

/// A zero-based place in a document.
#[derive(Clone, Copy, PartialEq, Eq, Structural, Debug)]
pub struct Position {
    pub line: u32,
    pub character: u32,
}

/// The span a diagnostic highlights: always exactly one character wide.
#[derive(Clone, Copy, PartialEq, Eq, Structural, Debug)]
pub struct Span {
    pub start: Position,
    pub end: Position,
}

/// How serious a finding is.
#[derive(Clone, Copy, PartialEq, Eq, Structural, Debug)]
pub enum Severity {
    Error,
    Warning,
}

/// One finding about a document, ready to publish to an editor.
#[derive(Clone, PartialEq, Eq, Debug)]
pub struct Diagnostic {
    pub range: Span,
    pub severity: Severity,
    pub source: String,
    pub message: String,
}

/// A diagnostic as mathematics.
pub struct DiagView {
    pub start_line: int,
    pub start_character: int,
    pub end_line: int,
    pub end_character: int,
    pub severity: Severity,
    pub source: Seq<char>,
    pub message: Seq<char>,
}

/// Mathematical image of one diagnostic.
pub open spec fn diag_view(d: Diagnostic) -> DiagView {
    DiagView {
        start_line: d.range.start.line as int,
        start_character: d.range.start.character as int,
        end_line: d.range.end.line as int,
        end_character: d.range.end.character as int,
        severity: d.severity,
        source: d.source@,
        message: d.message@,
    }
}

/// Mathematical image of a diagnostic list.
pub open spec fn diag_views(ds: Seq<Diagnostic>) -> Seq<DiagView> {
    ds.map_values(|d: Diagnostic| diag_view(d))
}

/// The fixed name this service signs its diagnostics with.
pub open spec fn source_name() -> Seq<char> {
    "runn-yaml-ls"@
}

/// The fixed warning for a schema-valid document with no steps.
pub open spec fn no_steps_message() -> Seq<char> {
    "No steps defined in runbook"@
}

/// An error message, framing the underlying failure description.
pub open spec fn error_message(desc: Seq<char>) -> Seq<char> {
    "YAML parse error: "@ + desc
}

/// The description of each structural mismatch.
pub open spec fn mismatch_text(m: Mismatch) -> Seq<char> {
    match m {
        Mismatch::RootNotMapping => "invalid runbook: the document root must be a mapping"@,
        Mismatch::KeyNotText => "invalid runbook: top-level keys must be strings"@,
        Mismatch::Desc => "invalid runbook: `desc` must be a string"@,
        Mismatch::Labels => "invalid runbook: `labels` must be a sequence of strings"@,
        Mismatch::Runners => "invalid runbook: `runners` must be a mapping with string keys"@,
        Mismatch::HostRules => "invalid runbook: `hostRules` must be a mapping with string keys"@,
        Mismatch::Vars => "invalid runbook: `vars` must be a mapping with string keys"@,
        Mismatch::Needs => "invalid runbook: `needs` must be a mapping with string keys"@,
        Mismatch::Secrets => "invalid runbook: `secrets` must be a sequence of strings"@,
        Mismatch::Interval => "invalid runbook: `interval` must be a string"@,
        Mismatch::If => "invalid runbook: `if` must be a string"@,
        Mismatch::SkipTest => "invalid runbook: `skipTest` must be a boolean"@,
        Mismatch::Force => "invalid runbook: `force` must be a boolean"@,
        Mismatch::Trace => "invalid runbook: `trace` must be a boolean"@,
        Mismatch::StepsShape => "invalid runbook: `steps` must be a mapping or a sequence"@,
        Mismatch::StepsEntry => "invalid runbook: `steps` must map string names to mapping bodies"@,
        Mismatch::StepNotMapping => "invalid runbook: every step must be a mapping"@,
        Mismatch::LoopShape => "invalid runbook: `loop` must be a count or a mapping"@,
        Mismatch::LoopBadCount => "invalid runbook: a bare `loop` value must be a non-negative integer count"@,
        Mismatch::LoopKeyNotText => "invalid runbook: `loop` keys must be strings"@,
        Mismatch::LoopCountMissing => "invalid runbook: a `loop` mapping must define `count`"@,
        Mismatch::LoopUntil => "invalid runbook: `loop.until` must be a string"@,
        Mismatch::LoopInterval => "invalid runbook: `loop.interval` must be a string"@,
        Mismatch::LoopMinInterval => "invalid runbook: `loop.min_interval` must be a number"@,
        Mismatch::LoopMaxInterval => "invalid runbook: `loop.max_interval` must be a number"@,
        Mismatch::ConcurrencyNotText => "invalid runbook: a single `concurrency` key must be a string"@,
        Mismatch::ConcurrencyItemNotText => "invalid runbook: `concurrency` keys must be strings"@,
        Mismatch::ConcurrencyShape => "invalid runbook: `concurrency` must be a key or a sequence of keys"@,
    }
}

/// A reported line, clamped to zero when the position type cannot hold it.
pub open spec fn clamp_line(l: usize) -> int {
    if l <= u32::MAX {
        l as int
    } else {
        0
    }
}

/// A reported column, clamped to zero when the position type cannot hold
/// it together with the one-character span end that follows it.
pub open spec fn clamp_column(c: usize) -> int {
    if c < u32::MAX {
        c as int
    } else {
        0
    }
}

/// The line a failure is anchored to: the mark's, or the document start.
pub open spec fn mark_line_of(mark: Option<SourceMark>) -> int {
    match mark {
        Some(sm) => clamp_line(sm.line),
        None => 0,
    }
}

/// The column a failure is anchored to: the mark's, or the document start.
pub open spec fn mark_column_of(mark: Option<SourceMark>) -> int {
    match mark {
        Some(sm) => clamp_column(sm.column),
        None => 0,
    }
}

/// One error diagnostic at the given place, spanning one character.
pub open spec fn error_diag(line: int, character: int, desc: Seq<char>) -> DiagView {
    DiagView {
        start_line: line,
        start_character: character,
        end_line: line,
        end_character: character + 1,
        severity: Severity::Error,
        source: source_name(),
        message: error_message(desc),
    }
}

/// The one warning diagnostic, anchored to the document start.
pub open spec fn warning_diag() -> DiagView {
    DiagView {
        start_line: 0,
        start_character: 0,
        end_line: 0,
        end_character: 1,
        severity: Severity::Warning,
        source: source_name(),
        message: no_steps_message(),
    }
}

/// What validating a document yields, as a function of what the parser
/// made of its text: no diagnostic for a valid runbook with steps, one
/// warning for a valid runbook without steps, one located error for
/// anything else.
pub open spec fn spec_validate(o: Result<Node, ParseFail>) -> Seq<DiagView> {
    match o {
        Err(pf) => seq![
            error_diag(mark_line_of(pf.mark), mark_column_of(pf.mark), pf.message@),
        ],
        Ok(n) => match spec_runbook(n) {
            Err(m) => seq![error_diag(0, 0, mismatch_text(m))],
            Ok(rv) => if rv.has_steps() {
                Seq::<DiagView>::empty()
            } else {
                seq![warning_diag()]
            },
        },
    }
}

/// Why a document is not a runbook: its text was not YAML, or its tree
/// did not match the grammar.
#[derive(Debug, PartialEq, Eq)]
pub enum ParseError {
    Malformed(ParseFail),
    Invalid(Mismatch),
}

/// Reads one document text as a runbook: the typed value on success, and
/// the reason on failure.
pub fn parse_yaml(text: &str) -> (r: Result<Runbook, ParseError>)
    ensures
        match r {
            Ok(rb) => yaml_parse_of(text@) matches Ok(n) && spec_runbook(n) == Ok::<
                RunbookV,
                Mismatch,
            >(rb@),
            Err(ParseError::Malformed(pf)) => yaml_parse_of(text@) == Err::<Node, ParseFail>(pf),
            Err(ParseError::Invalid(m)) => yaml_parse_of(text@) matches Ok(n) && spec_runbook(n)
                == Err::<RunbookV, Mismatch>(m),
        },
{
    match parse_yaml_tree(text) {
        Ok(node) => match interpret_runbook(node) {
            Ok(rb) => Ok(rb),
            Err(m) => Err(ParseError::Invalid(m)),
        },
        Err(pf) => Err(ParseError::Malformed(pf)),
    }
}

/// The description of a mismatch, as running text.
fn mismatch_message(m: Mismatch) -> (r: String)
    ensures
        r@ == mismatch_text(m),
{
    match m {
        Mismatch::RootNotMapping => "invalid runbook: the document root must be a mapping".to_owned(),
        Mismatch::KeyNotText => "invalid runbook: top-level keys must be strings".to_owned(),
        Mismatch::Desc => "invalid runbook: `desc` must be a string".to_owned(),
        Mismatch::Labels => "invalid runbook: `labels` must be a sequence of strings".to_owned(),
        Mismatch::Runners => "invalid runbook: `runners` must be a mapping with string keys".to_owned(),
        Mismatch::HostRules => "invalid runbook: `hostRules` must be a mapping with string keys".to_owned(),
        Mismatch::Vars => "invalid runbook: `vars` must be a mapping with string keys".to_owned(),
        Mismatch::Needs => "invalid runbook: `needs` must be a mapping with string keys".to_owned(),
        Mismatch::Secrets => "invalid runbook: `secrets` must be a sequence of strings".to_owned(),
        Mismatch::Interval => "invalid runbook: `interval` must be a string".to_owned(),
        Mismatch::If => "invalid runbook: `if` must be a string".to_owned(),
        Mismatch::SkipTest => "invalid runbook: `skipTest` must be a boolean".to_owned(),
        Mismatch::Force => "invalid runbook: `force` must be a boolean".to_owned(),
        Mismatch::Trace => "invalid runbook: `trace` must be a boolean".to_owned(),
        Mismatch::StepsShape => "invalid runbook: `steps` must be a mapping or a sequence".to_owned(),
        Mismatch::StepsEntry => "invalid runbook: `steps` must map string names to mapping bodies".to_owned(),
        Mismatch::StepNotMapping => "invalid runbook: every step must be a mapping".to_owned(),
        Mismatch::LoopShape => "invalid runbook: `loop` must be a count or a mapping".to_owned(),
        Mismatch::LoopBadCount => "invalid runbook: a bare `loop` value must be a non-negative integer count".to_owned(),
        Mismatch::LoopKeyNotText => "invalid runbook: `loop` keys must be strings".to_owned(),
        Mismatch::LoopCountMissing => "invalid runbook: a `loop` mapping must define `count`".to_owned(),
        Mismatch::LoopUntil => "invalid runbook: `loop.until` must be a string".to_owned(),
        Mismatch::LoopInterval => "invalid runbook: `loop.interval` must be a string".to_owned(),
        Mismatch::LoopMinInterval => "invalid runbook: `loop.min_interval` must be a number".to_owned(),
        Mismatch::LoopMaxInterval => "invalid runbook: `loop.max_interval` must be a number".to_owned(),
        Mismatch::ConcurrencyNotText => "invalid runbook: a single `concurrency` key must be a string".to_owned(),
        Mismatch::ConcurrencyItemNotText => "invalid runbook: `concurrency` keys must be strings".to_owned(),
        Mismatch::ConcurrencyShape => "invalid runbook: `concurrency` must be a key or a sequence of keys".to_owned(),
    }
}

/// A reported line, clamped as `clamp_line` says.
fn clamp_line_u32(l: usize) -> (r: u32)
    ensures
        r as int == clamp_line(l),
{
    if l <= u32::MAX as usize {
        l as u32
    } else {
        0
    }
}

/// A reported column, clamped as `clamp_column` says.
fn clamp_column_u32(c: usize) -> (r: u32)
    ensures
        r as int == clamp_column(c),
        r < u32::MAX,
{
    if c < u32::MAX as usize {
        c as u32
    } else {
        0
    }
}

/// One error diagnostic at the given place.
fn error_diagnostic(line: u32, character: u32, desc: &str) -> (d: Diagnostic)
    requires
        character < u32::MAX,
    ensures
        diag_view(d) == error_diag(line as int, character as int, desc@),
{
    Diagnostic {
        range: Span {
            start: Position { line, character },
            end: Position { line, character: character + 1 },
        },
        severity: Severity::Error,
        source: "runn-yaml-ls".to_owned(),
        message: "YAML parse error: ".to_owned().concat(desc),
    }
}

/// The one warning diagnostic.
fn warning_diagnostic() -> (d: Diagnostic)
    ensures
        diag_view(d) == warning_diag(),
{
    Diagnostic {
        range: Span {
            start: Position { line: 0, character: 0 },
            end: Position { line: 0, character: 1 },
        },
        severity: Severity::Warning,
        source: "runn-yaml-ls".to_owned(),
        message: "No steps defined in runbook".to_owned(),
    }
}

/// Turns what the parser made of a document into the diagnostic list
/// that is published, exactly as `spec_validate` describes — whatever
/// the parse outcome was.
pub fn diagnostics_of(o: Result<Node, ParseFail>) -> (r: Vec<Diagnostic>)
    ensures
        diag_views(r@) == spec_validate(o),
{
    let ghost go = o;
    let mut out: Vec<Diagnostic> = Vec::new();
    match o {
        Err(pf) => {
            let line: u32;
            let character: u32;
            match &pf.mark {
                Some(sm) => {
                    line = clamp_line_u32(sm.line);
                    character = clamp_column_u32(sm.column);
                },
                None => {
                    line = 0;
                    character = 0;
                },
            }
            let d = error_diagnostic(line, character, pf.message.as_str());
            out.push(d);
            proof {
                assert(diag_views(out@) =~= spec_validate(go));
            }
        },
        Ok(node) => {
            match interpret_runbook(node) {
                Err(m) => {
                    let msg = mismatch_message(m);
                    let d = error_diagnostic(0, 0, msg.as_str());
                    out.push(d);
                    proof {
                        assert(diag_views(out@) =~= spec_validate(go));
                    }
                },
                Ok(rb) => {
                    let empty: bool = match &rb.steps {
                        None => true,
                        Some(Steps::AsMap(entries)) => entries.len() == 0,
                        Some(Steps::AsList(items)) => items.len() == 0,
                    };
                    if empty {
                        out.push(warning_diagnostic());
                    }
                    proof {
                        assert(diag_views(out@) =~= spec_validate(go));
                    }
                },
            }
        },
    }
    out
}

/// Validates one document text and returns the diagnostics to publish:
/// the whole pipeline, from raw text to position-annotated findings.
pub fn validate(text: &str) -> (r: Vec<Diagnostic>)
    ensures
        diag_views(r@) == spec_validate(yaml_parse_of(text@)),
{
    let parsed = parse_yaml_tree(text);
    diagnostics_of(parsed)
}

} // verus!

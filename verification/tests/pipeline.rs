use runn_yaml_ls::diagnostics::{diagnostics_of, validate, Position, Severity};
use runn_yaml_ls::node::Node;
use runn_yaml_ls::yaml::{ParseFail, SourceMark};

#[test]
fn no_steps_key_warns_at_document_start() {
    let diags = validate("desc: x\n");
    assert_eq!(diags.len(), 1);
    let d = &diags[0];
    assert_eq!(d.severity, Severity::Warning);
    assert_eq!(d.message, "No steps defined in runbook");
    assert_eq!(d.source, "runn-yaml-ls");
    assert_eq!(d.range.start, Position { line: 0, character: 0 });
    assert_eq!(d.range.end, Position { line: 0, character: 1 });
}

#[test]
fn steps_as_list_is_clean() {
    let diags = validate("steps:\n  - foo: bar\n");
    assert!(diags.is_empty());
}

#[test]
fn steps_as_mapping_is_clean() {
    let diags = validate("steps:\n  first:\n    cmd: ls\n");
    assert!(diags.is_empty());
}

#[test]
fn null_steps_counts_as_absent() {
    let diags = validate("steps:\n");
    assert_eq!(diags.len(), 1);
    assert_eq!(diags[0].severity, Severity::Warning);
    assert_eq!(diags[0].message, "No steps defined in runbook");
}

#[test]
fn empty_steps_mapping_warns() {
    let diags = validate("steps: {}\n");
    assert_eq!(diags.len(), 1);
    assert_eq!(diags[0].severity, Severity::Warning);
}

#[test]
fn empty_steps_sequence_warns() {
    let diags = validate("steps: []\n");
    assert_eq!(diags.len(), 1);
    assert_eq!(diags[0].severity, Severity::Warning);
}

#[test]
fn malformed_yaml_gives_one_error() {
    let diags = validate("steps: [1, 2\n");
    assert_eq!(diags.len(), 1);
    let d = &diags[0];
    assert_eq!(d.severity, Severity::Error);
    assert!(d.message.starts_with("YAML parse error: "));
    assert!(d.message.len() > "YAML parse error: ".len());
}

#[test]
fn malformed_yaml_mark_is_not_default() {
    let diags = validate("steps: [1, 2\n");
    assert_eq!(diags.len(), 1);
    let d = &diags[0];
    assert!((d.range.start.line, d.range.start.character) != (0, 0));
    assert_eq!(d.range.end.line, d.range.start.line);
    assert_eq!(d.range.end.character, d.range.start.character + 1);
}

#[test]
fn validate_is_idempotent() {
    for text in ["desc: x\n", "steps:\n  - foo: bar\n", "steps: [1, 2\n", "labels: 3\n"] {
        let first = validate(text);
        let second = validate(text);
        assert_eq!(first, second);
    }
}

#[test]
fn mark_is_carried_into_the_error_diagnostic() {
    let fail = ParseFail {
        message: "boom".to_string(),
        mark: Some(SourceMark { line: 7, column: 3 }),
    };
    let diags = diagnostics_of(Err(fail));
    assert_eq!(diags.len(), 1);
    let d = &diags[0];
    assert_eq!(d.severity, Severity::Error);
    assert_eq!(d.message, "YAML parse error: boom");
    assert_eq!(d.range.start, Position { line: 7, character: 3 });
    assert_eq!(d.range.end, Position { line: 7, character: 4 });
}

#[test]
fn missing_mark_falls_back_to_document_start() {
    let fail = ParseFail { message: "boom".to_string(), mark: None };
    let diags = diagnostics_of(Err(fail));
    assert_eq!(diags.len(), 1);
    assert_eq!(diags[0].range.start, Position { line: 0, character: 0 });
    assert_eq!(diags[0].range.end, Position { line: 0, character: 1 });
}

#[test]
fn unrepresentable_mark_is_clamped_to_zero() {
    let fail = ParseFail {
        message: "boom".to_string(),
        mark: Some(SourceMark { line: (u32::MAX as usize) + 1, column: usize::MAX }),
    };
    let diags = diagnostics_of(Err(fail));
    assert_eq!(diags.len(), 1);
    assert_eq!(diags[0].range.start, Position { line: 0, character: 0 });
}

#[test]
fn tree_with_steps_passes_diagnostics_directly() {
    let node = Node::Mapping(vec![(
        Node::Text("steps".to_string()),
        Node::Sequence(vec![Node::Mapping(vec![])]),
    )]);
    let diags = diagnostics_of(Ok(node));
    assert!(diags.is_empty());
}

#[test]
fn unknown_fields_are_ignored() {
    let diags = validate("bogus: anything\nsteps:\n  - run: echo\n");
    assert!(diags.is_empty());
}

#[test]
fn duplicate_keys_are_a_parse_error() {
    let diags = validate("desc: a\ndesc: b\n");
    assert_eq!(diags.len(), 1);
    assert_eq!(diags[0].severity, Severity::Error);
}

#[test]
fn scalar_document_is_a_structural_error() {
    let diags = validate("just text\n");
    assert_eq!(diags.len(), 1);
    let d = &diags[0];
    assert_eq!(d.severity, Severity::Error);
    assert!(d.message.contains("document root must be a mapping"));
    assert_eq!(d.range.start, Position { line: 0, character: 0 });
}

#[test]
fn sequence_document_is_a_structural_error() {
    let diags = validate("- a\n- b\n");
    assert_eq!(diags.len(), 1);
    assert!(diags[0].message.contains("document root must be a mapping"));
}

#[test]
fn non_string_top_level_key_is_rejected() {
    let diags = validate("5: x\nsteps: []\n");
    assert_eq!(diags.len(), 1);
    assert!(diags[0].message.contains("top-level keys must be strings"));
}

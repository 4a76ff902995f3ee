use runn_yaml_ls::diagnostics::{parse_yaml, validate, ParseError, Severity};
use runn_yaml_ls::interpret::{interpret_runbook, Mismatch};
use runn_yaml_ls::node::Node;
use runn_yaml_ls::runbook::{Concurrency, Loop, Steps};

fn expect_mismatch(text: &str, fragment: &str) {
    let diags = validate(text);
    assert_eq!(diags.len(), 1, "expected one diagnostic for {:?}", text);
    assert_eq!(diags[0].severity, Severity::Error);
    assert!(
        diags[0].message.contains(fragment),
        "message {:?} does not mention {:?}",
        diags[0].message,
        fragment
    );
}

#[test]
fn structured_loop_is_parsed_through_the_mapping_alternative() {
    let rb = parse_yaml("loop: {count: 3, until: \"true\"}\n").unwrap();
    match rb.loop_ {
        Some(Loop::Mapping { count, until, interval, min_interval, max_interval }) => {
            assert_eq!(count, Node::UInt(3));
            assert_eq!(until, Some("true".to_string()));
            assert_eq!(interval, None);
            assert_eq!(min_interval, None);
            assert_eq!(max_interval, None);
        },
        other => panic!("expected the structured loop alternative, got {:?}", other),
    }
}

#[test]
fn structured_loop_raises_no_loop_diagnostic() {
    let diags = validate("loop: {count: 3, until: \"true\"}\n");
    assert_eq!(diags.len(), 1);
    assert_eq!(diags[0].severity, Severity::Warning);
    assert_eq!(diags[0].message, "No steps defined in runbook");
}

#[test]
fn scalar_loop_is_a_count() {
    let rb = parse_yaml("loop: 3\nsteps: [{a: 1}]\n").unwrap();
    assert_eq!(rb.loop_, Some(Loop::Scalar(3)));
}

#[test]
fn concurrency_single_string_selects_single() {
    let rb = parse_yaml("concurrency: group-a\n").unwrap();
    assert_eq!(rb.concurrency, Some(Concurrency::Single("group-a".to_string())));
}

#[test]
fn concurrency_sequence_selects_multiple() {
    let rb = parse_yaml("concurrency:\n  - a\n  - b\n").unwrap();
    assert_eq!(
        rb.concurrency,
        Some(Concurrency::Multiple(vec!["a".to_string(), "b".to_string()]))
    );
}

#[test]
fn scalar_fields_and_defaults_are_filled() {
    let text = "desc: a runbook\nlabels:\n  - one\n  - two\nvars:\n  greeting: hello\nsecrets:\n  - token\ndebug: true\ninterval: 2s\nif: always\nskipTest: true\ntrace: true\nsteps:\n  - run: echo\n";
    let rb = parse_yaml(text).unwrap();
    assert_eq!(rb.desc, "a runbook");
    assert_eq!(rb.labels, vec!["one".to_string(), "two".to_string()]);
    assert_eq!(rb.vars, vec![("greeting".to_string(), Node::Text("hello".to_string()))]);
    assert_eq!(rb.secrets, vec!["token".to_string()]);
    assert_eq!(rb.debug, Node::Bool(true));
    assert_eq!(rb.interval, Some("2s".to_string()));
    assert_eq!(rb.if_, Some("always".to_string()));
    assert!(rb.skip_test);
    assert!(!rb.force);
    assert!(rb.trace);
    assert!(rb.runners.is_empty());
    assert!(rb.host_rules.is_empty());
    assert!(rb.needs.is_empty());
    assert_eq!(rb.loop_, None);
    assert_eq!(rb.concurrency, None);
}

#[test]
fn absent_fields_take_their_defaults() {
    let rb = parse_yaml("steps:\n  - run: echo\n").unwrap();
    assert_eq!(rb.desc, "");
    assert!(rb.labels.is_empty());
    assert!(rb.vars.is_empty());
    assert!(rb.secrets.is_empty());
    assert_eq!(rb.debug, Node::Null);
    assert_eq!(rb.interval, None);
    assert_eq!(rb.if_, None);
    assert!(!rb.skip_test);
    assert!(!rb.force);
    assert!(!rb.trace);
}

#[test]
fn steps_mapping_bodies_are_kept() {
    let rb = parse_yaml("steps:\n  first:\n    cmd: ls\n").unwrap();
    match rb.steps {
        Some(Steps::AsMap(entries)) => {
            assert_eq!(entries.len(), 1);
            assert_eq!(entries[0].0, "first");
            assert_eq!(
                entries[0].1,
                Node::Mapping(vec![(Node::Text("cmd".to_string()), Node::Text("ls".to_string()))])
            );
        },
        other => panic!("expected the mapping steps alternative, got {:?}", other),
    }
}

#[test]
fn desc_must_be_a_string() {
    expect_mismatch("desc: [1]\n", "`desc` must be a string");
}

#[test]
fn labels_must_be_a_string_list() {
    expect_mismatch("labels: x\n", "`labels` must be a sequence of strings");
    expect_mismatch("labels:\n  - 1\n", "`labels` must be a sequence of strings");
}

#[test]
fn runners_must_be_a_mapping() {
    expect_mismatch("runners: 5\n", "`runners` must be a mapping");
}

#[test]
fn host_rules_must_be_a_mapping() {
    expect_mismatch("hostRules: [a]\n", "`hostRules` must be a mapping");
}

#[test]
fn needs_must_be_a_mapping() {
    expect_mismatch("needs: x\n", "`needs` must be a mapping");
}

#[test]
fn secrets_must_be_a_string_list() {
    expect_mismatch("secrets:\n  - 1\n", "`secrets` must be a sequence of strings");
}

#[test]
fn interval_must_be_a_string() {
    expect_mismatch("interval: [x]\n", "`interval` must be a string");
}

#[test]
fn if_must_be_a_string() {
    expect_mismatch("if: 5\n", "`if` must be a string");
}

#[test]
fn flags_must_be_booleans() {
    expect_mismatch("skipTest: 1\n", "`skipTest` must be a boolean");
    expect_mismatch("force: x\n", "`force` must be a boolean");
    expect_mismatch("trace: [1]\n", "`trace` must be a boolean");
}

#[test]
fn steps_must_be_mapping_or_sequence() {
    expect_mismatch("steps: 5\n", "`steps` must be a mapping or a sequence");
}

#[test]
fn step_bodies_in_a_list_must_be_mappings() {
    expect_mismatch("steps:\n  - 5\n", "every step must be a mapping");
}

#[test]
fn step_bodies_in_a_mapping_must_be_mappings() {
    expect_mismatch("steps:\n  foo: bar\n", "`steps` must map string names to mapping bodies");
}

#[test]
fn bare_loop_must_be_a_count() {
    expect_mismatch("loop: true\n", "non-negative integer count");
    expect_mismatch("loop: -1\n", "non-negative integer count");
    expect_mismatch("loop: 2.5\n", "non-negative integer count");
    expect_mismatch("loop: 4294967296\n", "non-negative integer count");
}

#[test]
fn loop_sequence_matches_neither_alternative() {
    expect_mismatch("loop: [1]\n", "`loop` must be a count or a mapping");
}

#[test]
fn loop_mapping_requires_count() {
    expect_mismatch("loop: {until: x}\n", "must define `count`");
}

#[test]
fn loop_until_must_be_a_string() {
    expect_mismatch("loop: {count: 1, until: 5}\n", "`loop.until` must be a string");
}

#[test]
fn loop_bounds_must_be_numbers() {
    expect_mismatch("loop: {count: 1, min_interval: x}\n", "`loop.min_interval` must be a number");
    expect_mismatch("loop: {count: 1, max_interval: [1]}\n", "`loop.max_interval` must be a number");
}

#[test]
fn loop_bounds_accept_floats() {
    let rb = parse_yaml("loop: {count: 1, min_interval: 0.5, max_interval: 2}\n").unwrap();
    match rb.loop_ {
        Some(Loop::Mapping { min_interval, max_interval, .. }) => {
            assert_eq!(min_interval, Some(Node::Float));
            assert_eq!(max_interval, Some(Node::UInt(2)));
        },
        other => panic!("expected the structured loop alternative, got {:?}", other),
    }
}

#[test]
fn single_concurrency_key_must_be_a_string() {
    expect_mismatch("concurrency: 5\n", "a single `concurrency` key must be a string");
}

#[test]
fn concurrency_sequence_items_must_be_strings() {
    expect_mismatch("concurrency:\n  - 5\n", "`concurrency` keys must be strings");
}

#[test]
fn concurrency_mapping_matches_neither_alternative() {
    expect_mismatch("concurrency: {a: b}\n", "`concurrency` must be a key or a sequence of keys");
}

#[test]
fn parse_yaml_reports_the_failure_kind() {
    match parse_yaml("steps: [1, 2\n") {
        Err(ParseError::Malformed(fail)) => {
            assert!(!fail.message.is_empty());
            assert!(fail.mark.is_some());
        },
        other => panic!("expected a malformed-input failure, got {:?}", other),
    }
    match parse_yaml("desc: [1]\n") {
        Err(ParseError::Invalid(m)) => assert_eq!(m, Mismatch::Desc),
        other => panic!("expected a structural failure, got {:?}", other),
    }
}

#[test]
fn interpret_runbook_rejects_non_mapping_roots() {
    assert_eq!(interpret_runbook(Node::Null), Err(Mismatch::RootNotMapping));
    assert_eq!(
        interpret_runbook(Node::Sequence(vec![])),
        Err(Mismatch::RootNotMapping)
    );
}

#[test]
fn interpret_runbook_keeps_the_first_occurrence() {
    let tree = Node::Mapping(vec![
        (Node::Text("desc".to_string()), Node::Text("first".to_string())),
        (Node::Text("desc".to_string()), Node::Text("second".to_string())),
    ]);
    let rb = interpret_runbook(tree).unwrap();
    assert_eq!(rb.desc, "first");
}

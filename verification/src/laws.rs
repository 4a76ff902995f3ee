use vstd::prelude::*;
use crate::diagnostics::{
    error_message, no_steps_message, spec_validate, DiagView,
};
use crate::interpret::{
    all_step_entries, all_text, named_of, slots_fold, slots_init, slots_step, spec_concurrency,
    spec_runbook, spec_steps, texts_of, Mismatch, SlotsV,
};
use crate::node::Node;
use crate::runbook::{ConcurrencyV, RunbookV, StepsV};
use crate::yaml::{yaml_parse_of, ParseFail, SourceMark};

verus! {

/// A document that parses to a runbook with at least one step, in either
/// step shape, yields no diagnostic at all.
pub proof fn lemma_valid_with_steps_is_clean(o: Result<Node, ParseFail>, rv: RunbookV)
    requires
        o matches Ok(n) && spec_runbook(n) == Ok::<RunbookV, Mismatch>(rv),
        rv.has_steps(),
    ensures
        spec_validate(o) == Seq::<DiagView>::empty(),
{
}

/// A document that parses to a runbook with no steps — the field absent,
/// null, or an empty collection — yields exactly one warning, anchored
/// to the document start, with the fixed missing-steps message.
pub proof fn lemma_valid_without_steps_warns(o: Result<Node, ParseFail>, rv: RunbookV)
    requires
        o matches Ok(n) && spec_runbook(n) == Ok::<RunbookV, Mismatch>(rv),
        !rv.has_steps(),
    ensures
        spec_validate(o).len() == 1,
        spec_validate(o)[0].severity is Warning,
        spec_validate(o)[0].message == no_steps_message(),
        spec_validate(o)[0].start_line == 0,
        spec_validate(o)[0].start_character == 0,
{
}

/// Text that the parser rejects yields exactly one error diagnostic, and
/// its message frames the parser's own failure description.
pub proof fn lemma_malformed_errors(o: Result<Node, ParseFail>, pf: ParseFail)
    requires
        o == Err::<Node, ParseFail>(pf),
    ensures
        spec_validate(o).len() == 1,
        spec_validate(o)[0].severity is Error,
        spec_validate(o)[0].message == error_message(pf.message@),
{
}

/// A tree that does not match the grammar yields exactly one error
/// diagnostic, anchored to the document start.
pub proof fn lemma_mismatch_errors(o: Result<Node, ParseFail>, n: Node, m: Mismatch)
    requires
        o == Ok::<Node, ParseFail>(n),
        spec_runbook(n) == Err::<RunbookV, Mismatch>(m),
    ensures
        spec_validate(o).len() == 1,
        spec_validate(o)[0].severity is Error,
        spec_validate(o)[0].start_line == 0,
        spec_validate(o)[0].start_character == 0,
{
}

/// Validation is a pure function of the document text: the same text
/// always yields the same diagnostic list, so validating twice changes
/// nothing.
pub proof fn lemma_validate_deterministic(t1: Seq<char>, t2: Seq<char>)
    requires
        t1 == t2,
    ensures
        spec_validate(yaml_parse_of(t1)) == spec_validate(yaml_parse_of(t2)),
{
}

/// When the parser reports a representable mark for a failure, the error
/// diagnostic starts exactly at that mark, and ends one character later
/// on the same line.
pub proof fn lemma_location_fidelity(o: Result<Node, ParseFail>, pf: ParseFail, sm: SourceMark)
    requires
        o == Err::<Node, ParseFail>(pf),
        pf.mark == Some(sm),
        sm.line <= u32::MAX,
        sm.column < u32::MAX,
    ensures
        spec_validate(o)[0].start_line == sm.line,
        spec_validate(o)[0].start_character == sm.column,
        spec_validate(o)[0].end_line == sm.line,
        spec_validate(o)[0].end_character == sm.column + 1,
{
}

/// A concurrency field written as a single string takes the single-key
/// interpretation, never the multiple-key one.
pub proof fn lemma_concurrency_single(s: String)
    ensures
        spec_concurrency(Node::Text(s)) == Ok::<Option<ConcurrencyV>, Mismatch>(
            Some(ConcurrencyV::Single(s@)),
        ),
{
}

/// A concurrency field written as a sequence of strings takes the
/// multiple-key interpretation.
pub proof fn lemma_concurrency_multiple(items: Vec<Node>)
    requires
        all_text(items@),
    ensures
        spec_concurrency(Node::Sequence(items)) == Ok::<Option<ConcurrencyV>, Mismatch>(
            Some(ConcurrencyV::Multiple(texts_of(items@))),
        ),
{
}

/// The step slot only ever holds well-formed step collections: every
/// step body in it is a mapping.
spec fn slot_steps_wf(s: SlotsV) -> bool {
    match s.steps {
        Some(Some(sv)) => sv.wf(),
        _ => true,
    }
}

/// What the grammar accepts as a step collection is well formed.
proof fn lemma_spec_steps_wf(v: Node, t: Option<StepsV>)
    requires
        spec_steps(v) == Ok::<Option<StepsV>, Mismatch>(t),
    ensures
        t matches Some(sv) ==> sv.wf(),
{
    match v {
        Node::Mapping(es) => {
            assert(all_step_entries(es@));
            assert forall|i: int| 0 <= i < named_of(es@).len() implies
                (#[trigger] named_of(es@)[i]).1 is Mapping by {
                assert(es@[i].1 is Mapping);
            }
        },
        _ => {},
    }
}

/// Walking entries preserves the step slot's well-formedness.
proof fn lemma_fold_steps_wf(s: SlotsV, es: Seq<(Node, Node)>)
    requires
        slot_steps_wf(s),
    ensures
        slots_fold(s, es) matches Ok(s2) ==> slot_steps_wf(s2),
    decreases es.len(),
{
    if es.len() > 0 {
        match slots_step(s, es[0].0, es[0].1) {
            Ok(s2) => {
                if !slot_steps_wf(s2) {
                    lemma_spec_steps_wf(es[0].1, s2.steps->Some_0);
                }
                lemma_fold_steps_wf(s2, es.drop_first());
            },
            Err(_) => {},
        }
    }
}

/// Whichever shape a parsed runbook's steps take, every step body is
/// itself a mapping: an arbitrary scalar or sequence in a step's
/// position never passes the grammar.
pub proof fn lemma_steps_well_formed(n: Node, rv: RunbookV)
    requires
        spec_runbook(n) == Ok::<RunbookV, Mismatch>(rv),
    ensures
        rv.steps matches Some(sv) ==> sv.wf(),
{
    let es = n->Mapping_0;
    lemma_fold_steps_wf(slots_init(), es@);
}

} // verus!

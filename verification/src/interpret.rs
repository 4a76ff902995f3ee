use vstd::prelude::*;
use crate::node::Node;
use crate::runbook::{
    named_nodes_view, opt_concurrency_view, opt_loop_view, opt_steps_view, opt_string_view,
    strings_view,
    Concurrency, ConcurrencyV, Loop, LoopV, Runbook, RunbookV, Steps, StepsV,
};

verus! {

/// The first structural mismatch found while matching a tree against the
/// runbook grammar. Each variant names the field (or the place) that did
/// not have a permitted shape.
#[derive(Clone, Copy, PartialEq, Eq, Structural, Debug)]
pub enum Mismatch {
    RootNotMapping,
    KeyNotText,
    Desc,
    Labels,
    Runners,
    HostRules,
    Vars,
    Needs,
    Secrets,
    Interval,
    If,
    SkipTest,
    Force,
    Trace,
    StepsShape,
    StepsEntry,
    StepNotMapping,
    LoopShape,
    LoopBadCount,
    LoopKeyNotText,
    LoopCountMissing,
    LoopUntil,
    LoopInterval,
    LoopMinInterval,
    LoopMaxInterval,
    ConcurrencyNotText,
    ConcurrencyItemNotText,
    ConcurrencyShape,
}

/// The fields the grammar knows at the top level of a runbook, each
/// under its one external spelling; anything else is ignored.
#[derive(Clone, Copy, PartialEq, Eq, Structural, Debug)]
pub enum FieldId {
    Desc,
    Labels,
    Runners,
    HostRules,
    Vars,
    Needs,
    Secrets,
    Debug,
    Interval,
    If,
    SkipTest,
    Force,
    Trace,
    Steps,
    Loop,
    Concurrency,
    Unknown,
}

/// Which top-level field a key names, by its external spelling.
pub open spec fn field_id_of(s: Seq<char>) -> FieldId {
    if s == "desc"@ {
        FieldId::Desc
    } else if s == "labels"@ {
        FieldId::Labels
    } else if s == "runners"@ {
        FieldId::Runners
    } else if s == "hostRules"@ {
        FieldId::HostRules
    } else if s == "vars"@ {
        FieldId::Vars
    } else if s == "needs"@ {
        FieldId::Needs
    } else if s == "secrets"@ {
        FieldId::Secrets
    } else if s == "debug"@ {
        FieldId::Debug
    } else if s == "interval"@ {
        FieldId::Interval
    } else if s == "if"@ {
        FieldId::If
    } else if s == "skipTest"@ {
        FieldId::SkipTest
    } else if s == "force"@ {
        FieldId::Force
    } else if s == "trace"@ {
        FieldId::Trace
    } else if s == "steps"@ {
        FieldId::Steps
    } else if s == "loop"@ {
        FieldId::Loop
    } else if s == "concurrency"@ {
        FieldId::Concurrency
    } else {
        FieldId::Unknown
    }
}

/// The fields the grammar knows inside a structured loop mapping.
#[derive(Clone, Copy, PartialEq, Eq, Structural, Debug)]
pub enum LoopFieldId {
    Count,
    Until,
    Interval,
    MinInterval,
    MaxInterval,
    Unknown,
}

/// Which loop field a key names, by its external spelling.
pub open spec fn loop_field_id_of(s: Seq<char>) -> LoopFieldId {
    if s == "count"@ {
        LoopFieldId::Count
    } else if s == "until"@ {
        LoopFieldId::Until
    } else if s == "interval"@ {
        LoopFieldId::Interval
    } else if s == "min_interval"@ {
        LoopFieldId::MinInterval
    } else if s == "max_interval"@ {
        LoopFieldId::MaxInterval
    } else {
        LoopFieldId::Unknown
    }
}

/// Every item of the sequence is a text node.
pub open spec fn all_text(items: Seq<Node>) -> bool {
    forall|i: int| 0 <= i < items.len() ==> (#[trigger] items[i]) is Text
}

/// The character sequences of a sequence of text nodes.
pub open spec fn texts_of(items: Seq<Node>) -> Seq<Seq<char>> {
    items.map_values(|n: Node| n->Text_0@)
}

/// Every entry of the mapping has a text key.
pub open spec fn all_text_keys(es: Seq<(Node, Node)>) -> bool {
    forall|i: int| 0 <= i < es.len() ==> (#[trigger] es[i]).0 is Text
}

/// The entries of a mapping with text keys, keys as character sequences.
pub open spec fn named_of(es: Seq<(Node, Node)>) -> Seq<(Seq<char>, Node)> {
    es.map_values(|p: (Node, Node)| (p.0->Text_0@, p.1))
}

/// Every entry maps a text key to a mapping body.
pub open spec fn all_step_entries(es: Seq<(Node, Node)>) -> bool {
    forall|i: int| 0 <= i < es.len()
        ==> ((#[trigger] es[i]).0 is Text && es[i].1 is Mapping)
}

/// Every item of the sequence is a mapping.
pub open spec fn all_mappings(items: Seq<Node>) -> bool {
    forall|i: int| 0 <= i < items.len() ==> (#[trigger] items[i]) is Mapping
}

/// A field that must be a string.
pub open spec fn spec_text(v: Node, m: Mismatch) -> Result<Seq<char>, Mismatch> {
    match v {
        Node::Text(s) => Ok(s@),
        _ => Err(m),
    }
}

/// An optional field that, when not null, must be a string.
pub open spec fn spec_opt_text(v: Node, m: Mismatch) -> Result<Option<Seq<char>>, Mismatch> {
    match v {
        Node::Null => Ok(None),
        Node::Text(s) => Ok(Some(s@)),
        _ => Err(m),
    }
}

/// An optional field that, when not null, must be a number.
pub open spec fn spec_opt_number(v: Node, m: Mismatch) -> Result<Option<Node>, Mismatch> {
    if v is Null {
        Ok(None)
    } else if v.is_number() {
        Ok(Some(v))
    } else {
        Err(m)
    }
}

/// A field that must be a boolean.
pub open spec fn spec_bool(v: Node, m: Mismatch) -> Result<bool, Mismatch> {
    match v {
        Node::Bool(b) => Ok(b),
        _ => Err(m),
    }
}

/// A field that must be a sequence of strings.
pub open spec fn spec_text_list(v: Node, m: Mismatch) -> Result<Seq<Seq<char>>, Mismatch> {
    match v {
        Node::Sequence(items) => if all_text(items@) {
            Ok(texts_of(items@))
        } else {
            Err(m)
        },
        _ => Err(m),
    }
}

/// A field that must be a mapping with string keys; the values stay open.
pub open spec fn spec_str_map(v: Node, m: Mismatch) -> Result<Seq<(Seq<char>, Node)>, Mismatch> {
    match v {
        Node::Mapping(es) => if all_text_keys(es@) {
            Ok(named_of(es@))
        } else {
            Err(m)
        },
        _ => Err(m),
    }
}

/// The steps field: a mapping from names to mapping bodies is tried
/// first, then a sequence of mapping bodies; null counts as absent, and
/// any other kind matches neither alternative.
pub open spec fn spec_steps(v: Node) -> Result<Option<StepsV>, Mismatch> {
    match v {
        Node::Null => Ok(None),
        Node::Mapping(es) => if all_step_entries(es@) {
            Ok(Some(StepsV::AsMap(named_of(es@))))
        } else {
            Err(Mismatch::StepsEntry)
        },
        Node::Sequence(items) => if all_mappings(items@) {
            Ok(Some(StepsV::AsList(items@)))
        } else {
            Err(Mismatch::StepNotMapping)
        },
        _ => Err(Mismatch::StepsShape),
    }
}

/// The slots the structured loop alternative fills while its entries are
/// walked in order; a slot already filled ignores later duplicates.
pub struct LoopSlotsV {
    pub count: Option<Node>,
    pub until: Option<Option<Seq<char>>>,
    pub interval: Option<Option<Seq<char>>>,
    pub min_interval: Option<Option<Node>>,
    pub max_interval: Option<Option<Node>>,
}

/// No loop field seen yet.
pub open spec fn loop_slots_init() -> LoopSlotsV {
    LoopSlotsV { count: None, until: None, interval: None, min_interval: None, max_interval: None }
}

/// One entry of a structured loop mapping, applied to the slots.
pub open spec fn loop_step(s: LoopSlotsV, k: Node, v: Node) -> Result<LoopSlotsV, Mismatch> {
    match k {
        Node::Text(key) => match loop_field_id_of(key@) {
            LoopFieldId::Count => if s.count is Some {
                Ok(s)
            } else {
                Ok(LoopSlotsV { count: Some(v), ..s })
            },
            LoopFieldId::Until => if s.until is Some {
                Ok(s)
            } else {
                match spec_opt_text(v, Mismatch::LoopUntil) {
                    Ok(t) => Ok(LoopSlotsV { until: Some(t), ..s }),
                    Err(m) => Err(m),
                }
            },
            LoopFieldId::Interval => if s.interval is Some {
                Ok(s)
            } else {
                match spec_opt_text(v, Mismatch::LoopInterval) {
                    Ok(t) => Ok(LoopSlotsV { interval: Some(t), ..s }),
                    Err(m) => Err(m),
                }
            },
            LoopFieldId::MinInterval => if s.min_interval is Some {
                Ok(s)
            } else {
                match spec_opt_number(v, Mismatch::LoopMinInterval) {
                    Ok(n) => Ok(LoopSlotsV { min_interval: Some(n), ..s }),
                    Err(m) => Err(m),
                }
            },
            LoopFieldId::MaxInterval => if s.max_interval is Some {
                Ok(s)
            } else {
                match spec_opt_number(v, Mismatch::LoopMaxInterval) {
                    Ok(n) => Ok(LoopSlotsV { max_interval: Some(n), ..s }),
                    Err(m) => Err(m),
                }
            },
            LoopFieldId::Unknown => Ok(s),
        },
        _ => Err(Mismatch::LoopKeyNotText),
    }
}

/// The loop mapping's entries, walked front to back.
pub open spec fn loop_fold(s: LoopSlotsV, es: Seq<(Node, Node)>) -> Result<LoopSlotsV, Mismatch>
    decreases es.len(),
{
    if es.len() <= 0 {
        Ok(s)
    } else {
        match loop_step(s, es[0].0, es[0].1) {
            Ok(s2) => loop_fold(s2, es.drop_first()),
            Err(m) => Err(m),
        }
    }
}

/// An unfilled slot falls back to "no value".
pub open spec fn opt_flatten<A>(o: Option<Option<A>>) -> Option<A> {
    match o {
        Some(x) => x,
        None => None,
    }
}

/// The loop field: a bare scalar is tried first and must then be a count
/// fitting a `u32`; a mapping is interpreted as the structured
/// alternative and must define `count`; anything else matches neither.
pub open spec fn spec_loop(v: Node) -> Result<Option<LoopV>, Mismatch> {
    match v {
        Node::Null => Ok(None),
        Node::UInt(u) => if u <= u32::MAX {
            Ok(Some(LoopV::Scalar(u as u32)))
        } else {
            Err(Mismatch::LoopBadCount)
        },
        Node::Bool(_) => Err(Mismatch::LoopBadCount),
        Node::NegInt(_) => Err(Mismatch::LoopBadCount),
        Node::Float => Err(Mismatch::LoopBadCount),
        Node::Text(_) => Err(Mismatch::LoopBadCount),
        Node::Mapping(es) => match loop_fold(loop_slots_init(), es@) {
            Ok(s) => match s.count {
                Some(c) => Ok(Some(LoopV::Mapping {
                    count: c,
                    until: opt_flatten(s.until),
                    interval: opt_flatten(s.interval),
                    min_interval: opt_flatten(s.min_interval),
                    max_interval: opt_flatten(s.max_interval),
                })),
                None => Err(Mismatch::LoopCountMissing),
            },
            Err(m) => Err(m),
        },
        _ => Err(Mismatch::LoopShape),
    }
}

/// The concurrency field: a scalar is tried first and must then be a
/// string; a sequence must hold strings; anything else matches neither.
pub open spec fn spec_concurrency(v: Node) -> Result<Option<ConcurrencyV>, Mismatch> {
    match v {
        Node::Null => Ok(None),
        Node::Text(s) => Ok(Some(ConcurrencyV::Single(s@))),
        Node::Bool(_) => Err(Mismatch::ConcurrencyNotText),
        Node::UInt(_) => Err(Mismatch::ConcurrencyNotText),
        Node::NegInt(_) => Err(Mismatch::ConcurrencyNotText),
        Node::Float => Err(Mismatch::ConcurrencyNotText),
        Node::Sequence(items) => if all_text(items@) {
            Ok(Some(ConcurrencyV::Multiple(texts_of(items@))))
        } else {
            Err(Mismatch::ConcurrencyItemNotText)
        },
        _ => Err(Mismatch::ConcurrencyShape),
    }
}

/// The slots the top-level grammar fills while a document's entries are
/// walked in order; the first occurrence of a field wins and later
/// duplicates are ignored.
pub struct SlotsV {
    pub desc: Option<Seq<char>>,
    pub labels: Option<Seq<Seq<char>>>,
    pub runners: Option<Seq<(Seq<char>, Node)>>,
    pub host_rules: Option<Seq<(Seq<char>, Node)>>,
    pub vars: Option<Seq<(Seq<char>, Node)>>,
    pub needs: Option<Seq<(Seq<char>, Node)>>,
    pub secrets: Option<Seq<Seq<char>>>,
    pub debug: Option<Node>,
    pub interval: Option<Option<Seq<char>>>,
    pub if_: Option<Option<Seq<char>>>,
    pub skip_test: Option<bool>,
    pub force: Option<bool>,
    pub trace: Option<bool>,
    pub steps: Option<Option<StepsV>>,
    pub loop_: Option<Option<LoopV>>,
    pub concurrency: Option<Option<ConcurrencyV>>,
}

/// No field seen yet.
pub open spec fn slots_init() -> SlotsV {
    SlotsV {
        desc: None,
        labels: None,
        runners: None,
        host_rules: None,
        vars: None,
        needs: None,
        secrets: None,
        debug: None,
        interval: None,
        if_: None,
        skip_test: None,
        force: None,
        trace: None,
        steps: None,
        loop_: None,
        concurrency: None,
    }
}

/// One top-level entry, applied to the slots: the key must be a string;
/// a known field must have one of its permitted shapes; an unknown field
/// is ignored.
pub open spec fn slots_step(s: SlotsV, k: Node, v: Node) -> Result<SlotsV, Mismatch> {
    match k {
        Node::Text(key) => match field_id_of(key@) {
            FieldId::Desc => if s.desc is Some {
                Ok(s)
            } else {
                match spec_text(v, Mismatch::Desc) {
                    Ok(t) => Ok(SlotsV { desc: Some(t), ..s }),
                    Err(m) => Err(m),
                }
            },
            FieldId::Labels => if s.labels is Some {
                Ok(s)
            } else {
                match spec_text_list(v, Mismatch::Labels) {
                    Ok(t) => Ok(SlotsV { labels: Some(t), ..s }),
                    Err(m) => Err(m),
                }
            },
            FieldId::Runners => if s.runners is Some {
                Ok(s)
            } else {
                match spec_str_map(v, Mismatch::Runners) {
                    Ok(t) => Ok(SlotsV { runners: Some(t), ..s }),
                    Err(m) => Err(m),
                }
            },
            FieldId::HostRules => if s.host_rules is Some {
                Ok(s)
            } else {
                match spec_str_map(v, Mismatch::HostRules) {
                    Ok(t) => Ok(SlotsV { host_rules: Some(t), ..s }),
                    Err(m) => Err(m),
                }
            },
            FieldId::Vars => if s.vars is Some {
                Ok(s)
            } else {
                match spec_str_map(v, Mismatch::Vars) {
                    Ok(t) => Ok(SlotsV { vars: Some(t), ..s }),
                    Err(m) => Err(m),
                }
            },
            FieldId::Needs => if s.needs is Some {
                Ok(s)
            } else {
                match spec_str_map(v, Mismatch::Needs) {
                    Ok(t) => Ok(SlotsV { needs: Some(t), ..s }),
                    Err(m) => Err(m),
                }
            },
            FieldId::Secrets => if s.secrets is Some {
                Ok(s)
            } else {
                match spec_text_list(v, Mismatch::Secrets) {
                    Ok(t) => Ok(SlotsV { secrets: Some(t), ..s }),
                    Err(m) => Err(m),
                }
            },
            FieldId::Debug => if s.debug is Some {
                Ok(s)
            } else {
                Ok(SlotsV { debug: Some(v), ..s })
            },
            FieldId::Interval => if s.interval is Some {
                Ok(s)
            } else {
                match spec_opt_text(v, Mismatch::Interval) {
                    Ok(t) => Ok(SlotsV { interval: Some(t), ..s }),
                    Err(m) => Err(m),
                }
            },
            FieldId::If => if s.if_ is Some {
                Ok(s)
            } else {
                match spec_opt_text(v, Mismatch::If) {
                    Ok(t) => Ok(SlotsV { if_: Some(t), ..s }),
                    Err(m) => Err(m),
                }
            },
            FieldId::SkipTest => if s.skip_test is Some {
                Ok(s)
            } else {
                match spec_bool(v, Mismatch::SkipTest) {
                    Ok(b) => Ok(SlotsV { skip_test: Some(b), ..s }),
                    Err(m) => Err(m),
                }
            },
            FieldId::Force => if s.force is Some {
                Ok(s)
            } else {
                match spec_bool(v, Mismatch::Force) {
                    Ok(b) => Ok(SlotsV { force: Some(b), ..s }),
                    Err(m) => Err(m),
                }
            },
            FieldId::Trace => if s.trace is Some {
                Ok(s)
            } else {
                match spec_bool(v, Mismatch::Trace) {
                    Ok(b) => Ok(SlotsV { trace: Some(b), ..s }),
                    Err(m) => Err(m),
                }
            },
            FieldId::Steps => if s.steps is Some {
                Ok(s)
            } else {
                match spec_steps(v) {
                    Ok(t) => Ok(SlotsV { steps: Some(t), ..s }),
                    Err(m) => Err(m),
                }
            },
            FieldId::Loop => if s.loop_ is Some {
                Ok(s)
            } else {
                match spec_loop(v) {
                    Ok(t) => Ok(SlotsV { loop_: Some(t), ..s }),
                    Err(m) => Err(m),
                }
            },
            FieldId::Concurrency => if s.concurrency is Some {
                Ok(s)
            } else {
                match spec_concurrency(v) {
                    Ok(t) => Ok(SlotsV { concurrency: Some(t), ..s }),
                    Err(m) => Err(m),
                }
            },
            FieldId::Unknown => Ok(s),
        },
        _ => Err(Mismatch::KeyNotText),
    }
}

/// A document's entries, walked front to back; the walk stops at the
/// first structural mismatch.
pub open spec fn slots_fold(s: SlotsV, es: Seq<(Node, Node)>) -> Result<SlotsV, Mismatch>
    decreases es.len(),
{
    if es.len() <= 0 {
        Ok(s)
    } else {
        match slots_step(s, es[0].0, es[0].1) {
            Ok(s2) => slots_fold(s2, es.drop_first()),
            Err(m) => Err(m),
        }
    }
}

/// The runbook that filled slots make, absent fields taking their
/// documented defaults.
pub open spec fn spec_finish(s: SlotsV) -> RunbookV {
    RunbookV {
        desc: match s.desc {
            Some(d) => d,
            None => Seq::<char>::empty(),
        },
        labels: match s.labels {
            Some(l) => l,
            None => Seq::<Seq<char>>::empty(),
        },
        runners: match s.runners {
            Some(r) => r,
            None => Seq::<(Seq<char>, Node)>::empty(),
        },
        host_rules: match s.host_rules {
            Some(r) => r,
            None => Seq::<(Seq<char>, Node)>::empty(),
        },
        vars: match s.vars {
            Some(r) => r,
            None => Seq::<(Seq<char>, Node)>::empty(),
        },
        needs: match s.needs {
            Some(r) => r,
            None => Seq::<(Seq<char>, Node)>::empty(),
        },
        secrets: match s.secrets {
            Some(l) => l,
            None => Seq::<Seq<char>>::empty(),
        },
        debug: match s.debug {
            Some(n) => n,
            None => Node::Null,
        },
        interval: opt_flatten(s.interval),
        if_: opt_flatten(s.if_),
        skip_test: match s.skip_test {
            Some(b) => b,
            None => false,
        },
        force: match s.force {
            Some(b) => b,
            None => false,
        },
        trace: match s.trace {
            Some(b) => b,
            None => false,
        },
        steps: opt_flatten(s.steps),
        loop_: opt_flatten(s.loop_),
        concurrency: opt_flatten(s.concurrency),
    }
}

/// What the grammar makes of an arbitrary tree: the typed runbook it
/// describes, or the first structural mismatch.
pub open spec fn spec_runbook(n: Node) -> Result<RunbookV, Mismatch> {
    match n {
        Node::Mapping(es) => match slots_fold(slots_init(), es@) {
            Ok(s) => Ok(spec_finish(s)),
            Err(m) => Err(m),
        },
        _ => Err(Mismatch::RootNotMapping),
    }
}

/// Which top-level field a key names, decided on the running text.
fn field_id(key: &String) -> (r: FieldId)
    ensures
        r == field_id_of(key@),
{
    if *key == "desc".to_owned() {
        FieldId::Desc
    } else if *key == "labels".to_owned() {
        FieldId::Labels
    } else if *key == "runners".to_owned() {
        FieldId::Runners
    } else if *key == "hostRules".to_owned() {
        FieldId::HostRules
    } else if *key == "vars".to_owned() {
        FieldId::Vars
    } else if *key == "needs".to_owned() {
        FieldId::Needs
    } else if *key == "secrets".to_owned() {
        FieldId::Secrets
    } else if *key == "debug".to_owned() {
        FieldId::Debug
    } else if *key == "interval".to_owned() {
        FieldId::Interval
    } else if *key == "if".to_owned() {
        FieldId::If
    } else if *key == "skipTest".to_owned() {
        FieldId::SkipTest
    } else if *key == "force".to_owned() {
        FieldId::Force
    } else if *key == "trace".to_owned() {
        FieldId::Trace
    } else if *key == "steps".to_owned() {
        FieldId::Steps
    } else if *key == "loop".to_owned() {
        FieldId::Loop
    } else if *key == "concurrency".to_owned() {
        FieldId::Concurrency
    } else {
        FieldId::Unknown
    }
}

/// Which loop field a key names, decided on the running text.
fn loop_field_id(key: &String) -> (r: LoopFieldId)
    ensures
        r == loop_field_id_of(key@),
{
    if *key == "count".to_owned() {
        LoopFieldId::Count
    } else if *key == "until".to_owned() {
        LoopFieldId::Until
    } else if *key == "interval".to_owned() {
        LoopFieldId::Interval
    } else if *key == "min_interval".to_owned() {
        LoopFieldId::MinInterval
    } else if *key == "max_interval".to_owned() {
        LoopFieldId::MaxInterval
    } else {
        LoopFieldId::Unknown
    }
}

/// A field that must be a string.
fn take_text(v: Node, m: Mismatch) -> (r: Result<String, Mismatch>)
    ensures
        match r {
            Ok(t) => spec_text(v, m) == Ok::<Seq<char>, Mismatch>(t@),
            Err(e) => spec_text(v, m) == Err::<Seq<char>, Mismatch>(e),
        },
{
    match v {
        Node::Text(s) => Ok(s),
        _ => Err(m),
    }
}

/// An optional field that, when not null, must be a string.
fn take_opt_text(v: Node, m: Mismatch) -> (r: Result<Option<String>, Mismatch>)
    ensures
        match r {
            Ok(t) => spec_opt_text(v, m) == Ok::<Option<Seq<char>>, Mismatch>(opt_string_view(t)),
            Err(e) => spec_opt_text(v, m) == Err::<Option<Seq<char>>, Mismatch>(e),
        },
{
    match v {
        Node::Null => Ok(None),
        Node::Text(s) => Ok(Some(s)),
        _ => Err(m),
    }
}

/// An optional field that, when not null, must be a number.
fn take_opt_number(v: Node, m: Mismatch) -> (r: Result<Option<Node>, Mismatch>)
    ensures
        match r {
            Ok(t) => spec_opt_number(v, m) == Ok::<Option<Node>, Mismatch>(t),
            Err(e) => spec_opt_number(v, m) == Err::<Option<Node>, Mismatch>(e),
        },
{
    match v {
        Node::Null => Ok(None),
        Node::UInt(u) => Ok(Some(Node::UInt(u))),
        Node::NegInt(i) => Ok(Some(Node::NegInt(i))),
        Node::Float => Ok(Some(Node::Float)),
        _ => Err(m),
    }
}

/// A field that must be a boolean.
fn take_bool(v: Node, m: Mismatch) -> (r: Result<bool, Mismatch>)
    ensures
        match r {
            Ok(b) => spec_bool(v, m) == Ok::<bool, Mismatch>(b),
            Err(e) => spec_bool(v, m) == Err::<bool, Mismatch>(e),
        },
{
    match v {
        Node::Bool(b) => Ok(b),
        _ => Err(m),
    }
}

/// A field that must be a sequence of strings.
#[verifier::loop_isolation(false)]
fn take_text_list(v: Node, m: Mismatch) -> (r: Result<Vec<String>, Mismatch>)
    ensures
        match r {
            Ok(xs) => spec_text_list(v, m) == Ok::<Seq<Seq<char>>, Mismatch>(strings_view(xs@)),
            Err(e) => spec_text_list(v, m) == Err::<Seq<Seq<char>>, Mismatch>(e),
        },
{
    match v {
        Node::Sequence(items) => {
            let ghost gitems = items@;
            let mut rest = items;
            let mut out: Vec<String> = Vec::new();
            while rest.len() > 0
                invariant
                    gitems.len() == out@.len() + rest@.len(),
                    rest@ == gitems.skip(out@.len() as int),
                    forall|j: int| 0 <= j < out@.len()
                        ==> (#[trigger] gitems[j]) is Text && out@[j]@ == gitems[j]->Text_0@,
                decreases rest@.len(),
            {
                let ghost k = out@.len() as int;
                let item = rest.remove(0);
                proof {
                    assert(gitems[k] == item);
                    assert(rest@ =~= gitems.skip(k + 1));
                }
                match item {
                    Node::Text(s) => {
                        out.push(s);
                    },
                    _ => {
                        proof {
                            assert(!(gitems[k] is Text));
                            assert(!all_text(gitems));
                        }
                        return Err(m);
                    },
                }
            }
            proof {
                assert(all_text(gitems));
                assert(strings_view(out@) =~= texts_of(gitems));
            }
            Ok(out)
        },
        _ => Err(m),
    }
}

/// A field that must be a mapping with string keys, its values left open.
#[verifier::loop_isolation(false)]
fn take_named_map(v: Node, m: Mismatch) -> (r: Result<Vec<(String, Node)>, Mismatch>)
    ensures
        match r {
            Ok(es) => spec_str_map(v, m) == Ok::<Seq<(Seq<char>, Node)>, Mismatch>(
                named_nodes_view(es@),
            ),
            Err(e) => spec_str_map(v, m) == Err::<Seq<(Seq<char>, Node)>, Mismatch>(e),
        },
{
    match v {
        Node::Mapping(es) => {
            let ghost ges = es@;
            let mut rest = es;
            let mut out: Vec<(String, Node)> = Vec::new();
            while rest.len() > 0
                invariant
                    ges.len() == out@.len() + rest@.len(),
                    rest@ == ges.skip(out@.len() as int),
                    forall|j: int| 0 <= j < out@.len()
                        ==> (#[trigger] ges[j]).0 is Text && out@[j].0@ == ges[j].0->Text_0@
                            && out@[j].1 == ges[j].1,
                decreases rest@.len(),
            {
                let ghost k = out@.len() as int;
                let entry = rest.remove(0);
                proof {
                    assert(ges[k] == entry);
                    assert(rest@ =~= ges.skip(k + 1));
                }
                let (kn, vn) = entry;
                match kn {
                    Node::Text(name) => {
                        out.push((name, vn));
                    },
                    _ => {
                        proof {
                            assert(!((ges[k]).0 is Text));
                            assert(!all_text_keys(ges));
                        }
                        return Err(m);
                    },
                }
            }
            proof {
                assert(all_text_keys(ges));
                assert(named_nodes_view(out@) =~= named_of(ges));
            }
            Ok(out)
        },
        _ => Err(m),
    }
}

/// The steps field, in whichever of its two shapes it was written.
#[verifier::loop_isolation(false)]
fn take_steps(v: Node) -> (r: Result<Option<Steps>, Mismatch>)
    ensures
        match r {
            Ok(t) => spec_steps(v) == Ok::<Option<StepsV>, Mismatch>(
                opt_steps_view(t),
            ),
            Err(e) => spec_steps(v) == Err::<Option<StepsV>, Mismatch>(e),
        },
{
    match v {
        Node::Null => Ok(None),
        Node::Mapping(es) => {
            let ghost ges = es@;
            let mut rest = es;
            let mut out: Vec<(String, Node)> = Vec::new();
            while rest.len() > 0
                invariant
                    ges.len() == out@.len() + rest@.len(),
                    rest@ == ges.skip(out@.len() as int),
                    forall|j: int| 0 <= j < out@.len()
                        ==> (#[trigger] ges[j]).0 is Text && ges[j].1 is Mapping
                            && out@[j].0@ == ges[j].0->Text_0@ && out@[j].1 == ges[j].1,
                decreases rest@.len(),
            {
                let ghost k = out@.len() as int;
                let entry = rest.remove(0);
                proof {
                    assert(ges[k] == entry);
                    assert(rest@ =~= ges.skip(k + 1));
                }
                let (kn, vn) = entry;
                match kn {
                    Node::Text(name) => {
                        match &vn {
                            Node::Mapping(_) => {},
                            _ => {
                                proof {
                                    assert(!((ges[k]).1 is Mapping));
                                    assert(!all_step_entries(ges));
                                }
                                return Err(Mismatch::StepsEntry);
                            },
                        }
                        out.push((name, vn));
                    },
                    _ => {
                        proof {
                            assert(!((ges[k]).0 is Text));
                            assert(!all_step_entries(ges));
                        }
                        return Err(Mismatch::StepsEntry);
                    },
                }
            }
            proof {
                assert(all_step_entries(ges));
                assert(named_nodes_view(out@) =~= named_of(ges));
            }
            Ok(Some(Steps::AsMap(out)))
        },
        Node::Sequence(items) => {
            let n = items.len();
            let mut i: usize = 0;
            while i < n
                invariant
                    n == items@.len(),
                    i <= n,
                    forall|j: int| 0 <= j < i ==> (#[trigger] items@[j]) is Mapping,
                decreases n - i,
            {
                match &items[i] {
                    Node::Mapping(_) => {},
                    _ => {
                        proof {
                            assert(!all_mappings(items@));
                        }
                        return Err(Mismatch::StepNotMapping);
                    },
                }
                i += 1;
            }
            proof {
                assert(all_mappings(items@));
            }
            Ok(Some(Steps::AsList(items)))
        },
        _ => Err(Mismatch::StepsShape),
    }
}

/// The loop field, in whichever of its two shapes it was written.
#[verifier::loop_isolation(false)]
fn take_loop(v: Node) -> (r: Result<Option<Loop>, Mismatch>)
    ensures
        match r {
            Ok(t) => spec_loop(v) == Ok::<Option<LoopV>, Mismatch>(
                opt_loop_view(t),
            ),
            Err(e) => spec_loop(v) == Err::<Option<LoopV>, Mismatch>(e),
        },
{
    match v {
        Node::Null => Ok(None),
        Node::UInt(u) => {
            if u <= u32::MAX as u64 {
                Ok(Some(Loop::Scalar(u as u32)))
            } else {
                Err(Mismatch::LoopBadCount)
            }
        },
        Node::Bool(_) => Err(Mismatch::LoopBadCount),
        Node::NegInt(_) => Err(Mismatch::LoopBadCount),
        Node::Float => Err(Mismatch::LoopBadCount),
        Node::Text(_) => Err(Mismatch::LoopBadCount),
        Node::Mapping(es) => {
            let ghost ges = es@;
            let mut rest = es;
            let mut count: Option<Node> = None;
            let mut until: Option<Option<String>> = None;
            let mut interval: Option<Option<String>> = None;
            let mut min_interval: Option<Option<Node>> = None;
            let mut max_interval: Option<Option<Node>> = None;
            while rest.len() > 0
                invariant
                    loop_fold(
                        LoopSlotsV {
                            count: count,
                            until: opt_opt_string_view(until),
                            interval: opt_opt_string_view(interval),
                            min_interval: min_interval,
                            max_interval: max_interval,
                        },
                        rest@,
                    ) == loop_fold(loop_slots_init(), ges),
                decreases rest@.len(),
            {
                let ghost prev_rest = rest@;
                let ghost prev_slots = LoopSlotsV {
                    count: count,
                    until: opt_opt_string_view(until),
                    interval: opt_opt_string_view(interval),
                    min_interval: min_interval,
                    max_interval: max_interval,
                };
                let entry = rest.remove(0);
                proof {
                    assert(prev_rest[0] == entry);
                    assert(rest@ =~= prev_rest.drop_first());
                }
                let (kn, vn) = entry;
                match kn {
                    Node::Text(key) => {
                        let fid = loop_field_id(&key);
                        match fid {
                            LoopFieldId::Count => {
                                if count.is_none() {
                                    count = Some(vn);
                                }
                            },
                            LoopFieldId::Until => {
                                if until.is_none() {
                                    match take_opt_text(vn, Mismatch::LoopUntil) {
                                        Ok(t) => { until = Some(t); },
                                        Err(e) => {
                                            proof {
                                                assert(loop_fold(prev_slots, prev_rest)
                                                    == Err::<LoopSlotsV, Mismatch>(e));
                                            }
                                            return Err(e);
                                        },
                                    }
                                }
                            },
                            LoopFieldId::Interval => {
                                if interval.is_none() {
                                    match take_opt_text(vn, Mismatch::LoopInterval) {
                                        Ok(t) => { interval = Some(t); },
                                        Err(e) => {
                                            proof {
                                                assert(loop_fold(prev_slots, prev_rest)
                                                    == Err::<LoopSlotsV, Mismatch>(e));
                                            }
                                            return Err(e);
                                        },
                                    }
                                }
                            },
                            LoopFieldId::MinInterval => {
                                if min_interval.is_none() {
                                    match take_opt_number(vn, Mismatch::LoopMinInterval) {
                                        Ok(t) => { min_interval = Some(t); },
                                        Err(e) => {
                                            proof {
                                                assert(loop_fold(prev_slots, prev_rest)
                                                    == Err::<LoopSlotsV, Mismatch>(e));
                                            }
                                            return Err(e);
                                        },
                                    }
                                }
                            },
                            LoopFieldId::MaxInterval => {
                                if max_interval.is_none() {
                                    match take_opt_number(vn, Mismatch::LoopMaxInterval) {
                                        Ok(t) => { max_interval = Some(t); },
                                        Err(e) => {
                                            proof {
                                                assert(loop_fold(prev_slots, prev_rest)
                                                    == Err::<LoopSlotsV, Mismatch>(e));
                                            }
                                            return Err(e);
                                        },
                                    }
                                }
                            },
                            LoopFieldId::Unknown => {},
                        }
                    },
                    _ => {
                        proof {
                            assert(loop_fold(prev_slots, prev_rest)
                                == Err::<LoopSlotsV, Mismatch>(Mismatch::LoopKeyNotText));
                        }
                        return Err(Mismatch::LoopKeyNotText);
                    },
                }
            }
            match count {
                Some(c) => {
                    let lp = Loop::Mapping {
                        count: c,
                        until: flatten_opt_string(until),
                        interval: flatten_opt_string(interval),
                        min_interval: flatten_opt_node(min_interval),
                        max_interval: flatten_opt_node(max_interval),
                    };
                    Ok(Some(lp))
                },
                None => Err(Mismatch::LoopCountMissing),
            }
        },
        _ => Err(Mismatch::LoopShape),
    }
}

/// Mathematical image of a possibly unfilled optional-string slot.
pub open spec fn opt_opt_string_view(o: Option<Option<String>>) -> Option<Option<Seq<char>>> {
    match o {
        Some(i) => Some(opt_string_view(i)),
        None => None,
    }
}

/// An unfilled optional-string slot falls back to "no value".
fn flatten_opt_string(o: Option<Option<String>>) -> (r: Option<String>)
    ensures
        opt_string_view(r) == opt_flatten(opt_opt_string_view(o)),
{
    match o {
        Some(i) => i,
        None => None,
    }
}

/// An unfilled optional-number slot falls back to "no value".
fn flatten_opt_node(o: Option<Option<Node>>) -> (r: Option<Node>)
    ensures
        r == opt_flatten(o),
{
    match o {
        Some(i) => i,
        None => None,
    }
}

/// The concurrency field, in whichever of its two shapes it was written.
fn take_concurrency(v: Node) -> (r: Result<Option<Concurrency>, Mismatch>)
    ensures
        match r {
            Ok(t) => spec_concurrency(v) == Ok::<Option<ConcurrencyV>, Mismatch>(
                opt_concurrency_view(t),
            ),
            Err(e) => spec_concurrency(v) == Err::<Option<ConcurrencyV>, Mismatch>(e),
        },
{
    match v {
        Node::Null => Ok(None),
        Node::Text(s) => Ok(Some(Concurrency::Single(s))),
        Node::Bool(_) => Err(Mismatch::ConcurrencyNotText),
        Node::UInt(_) => Err(Mismatch::ConcurrencyNotText),
        Node::NegInt(_) => Err(Mismatch::ConcurrencyNotText),
        Node::Float => Err(Mismatch::ConcurrencyNotText),
        Node::Sequence(items) => {
            match take_text_list(Node::Sequence(items), Mismatch::ConcurrencyItemNotText) {
                Ok(keys) => Ok(Some(Concurrency::Multiple(keys))),
                Err(e) => Err(e),
            }
        },
        _ => Err(Mismatch::ConcurrencyShape),
    }
}

/// The running slots the top-level walk fills, one per known field.
pub struct Slots {
    pub desc: Option<String>,
    pub labels: Option<Vec<String>>,
    pub runners: Option<Vec<(String, Node)>>,
    pub host_rules: Option<Vec<(String, Node)>>,
    pub vars: Option<Vec<(String, Node)>>,
    pub needs: Option<Vec<(String, Node)>>,
    pub secrets: Option<Vec<String>>,
    pub debug: Option<Node>,
    pub interval: Option<Option<String>>,
    pub if_: Option<Option<String>>,
    pub skip_test: Option<bool>,
    pub force: Option<bool>,
    pub trace: Option<bool>,
    pub steps: Option<Option<Steps>>,
    pub loop_: Option<Option<Loop>>,
    pub concurrency: Option<Option<Concurrency>>,
}

/// Mathematical image of a possibly unfilled string-list slot.
pub open spec fn opt_strings_view(o: Option<Vec<String>>) -> Option<Seq<Seq<char>>> {
    match o {
        Some(v) => Some(strings_view(v@)),
        None => None,
    }
}

/// Mathematical image of a possibly unfilled named-map slot.
pub open spec fn opt_named_view(o: Option<Vec<(String, Node)>>) -> Option<Seq<(Seq<char>, Node)>> {
    match o {
        Some(v) => Some(named_nodes_view(v@)),
        None => None,
    }
}

impl View for Slots {
    type V = SlotsV;

    open spec fn view(&self) -> SlotsV {
        SlotsV {
            desc: opt_string_view(self.desc),
            labels: opt_strings_view(self.labels),
            runners: opt_named_view(self.runners),
            host_rules: opt_named_view(self.host_rules),
            vars: opt_named_view(self.vars),
            needs: opt_named_view(self.needs),
            secrets: opt_strings_view(self.secrets),
            debug: self.debug,
            interval: opt_opt_string_view(self.interval),
            if_: opt_opt_string_view(self.if_),
            skip_test: self.skip_test,
            force: self.force,
            trace: self.trace,
            steps: match self.steps {
                Some(s) => Some(opt_steps_view(s)),
                None => None,
            },
            loop_: match self.loop_ {
                Some(l) => Some(opt_loop_view(l)),
                None => None,
            },
            concurrency: match self.concurrency {
                Some(c) => Some(opt_concurrency_view(c)),
                None => None,
            },
        }
    }
}

impl Slots {
    /// No field seen yet.
    fn new() -> (s: Slots)
        ensures
            s@ == slots_init(),
    {
        Slots {
            desc: None,
            labels: None,
            runners: None,
            host_rules: None,
            vars: None,
            needs: None,
            secrets: None,
            debug: None,
            interval: None,
            if_: None,
            skip_test: None,
            force: None,
            trace: None,
            steps: None,
            loop_: None,
            concurrency: None,
        }
    }
}

/// One top-level entry applied to the slots, exactly as the grammar
/// prescribes: the first occurrence of a known field fills its slot, a
/// later duplicate is ignored, an unknown field is skipped.
fn apply_entry(s: Slots, k: Node, v: Node) -> (r: Result<Slots, Mismatch>)
    ensures
        match r {
            Ok(s2) => slots_step(s@, k, v) == Ok::<SlotsV, Mismatch>(s2@),
            Err(m) => slots_step(s@, k, v) == Err::<SlotsV, Mismatch>(m),
        },
{
    let mut s = s;
    match k {
        Node::Text(key) => {
            let fid = field_id(&key);
            match fid {
                FieldId::Desc => {
                    if s.desc.is_none() {
                        match take_text(v, Mismatch::Desc) {
                            Ok(t) => { s.desc = Some(t); },
                            Err(e) => { return Err(e); },
                        }
                    }
                },
                FieldId::Labels => {
                    if s.labels.is_none() {
                        match take_text_list(v, Mismatch::Labels) {
                            Ok(t) => { s.labels = Some(t); },
                            Err(e) => { return Err(e); },
                        }
                    }
                },
                FieldId::Runners => {
                    if s.runners.is_none() {
                        match take_named_map(v, Mismatch::Runners) {
                            Ok(t) => { s.runners = Some(t); },
                            Err(e) => { return Err(e); },
                        }
                    }
                },
                FieldId::HostRules => {
                    if s.host_rules.is_none() {
                        match take_named_map(v, Mismatch::HostRules) {
                            Ok(t) => { s.host_rules = Some(t); },
                            Err(e) => { return Err(e); },
                        }
                    }
                },
                FieldId::Vars => {
                    if s.vars.is_none() {
                        match take_named_map(v, Mismatch::Vars) {
                            Ok(t) => { s.vars = Some(t); },
                            Err(e) => { return Err(e); },
                        }
                    }
                },
                FieldId::Needs => {
                    if s.needs.is_none() {
                        match take_named_map(v, Mismatch::Needs) {
                            Ok(t) => { s.needs = Some(t); },
                            Err(e) => { return Err(e); },
                        }
                    }
                },
                FieldId::Secrets => {
                    if s.secrets.is_none() {
                        match take_text_list(v, Mismatch::Secrets) {
                            Ok(t) => { s.secrets = Some(t); },
                            Err(e) => { return Err(e); },
                        }
                    }
                },
                FieldId::Debug => {
                    if s.debug.is_none() {
                        s.debug = Some(v);
                    }
                },
                FieldId::Interval => {
                    if s.interval.is_none() {
                        match take_opt_text(v, Mismatch::Interval) {
                            Ok(t) => { s.interval = Some(t); },
                            Err(e) => { return Err(e); },
                        }
                    }
                },
                FieldId::If => {
                    if s.if_.is_none() {
                        match take_opt_text(v, Mismatch::If) {
                            Ok(t) => { s.if_ = Some(t); },
                            Err(e) => { return Err(e); },
                        }
                    }
                },
                FieldId::SkipTest => {
                    if s.skip_test.is_none() {
                        match take_bool(v, Mismatch::SkipTest) {
                            Ok(b) => { s.skip_test = Some(b); },
                            Err(e) => { return Err(e); },
                        }
                    }
                },
                FieldId::Force => {
                    if s.force.is_none() {
                        match take_bool(v, Mismatch::Force) {
                            Ok(b) => { s.force = Some(b); },
                            Err(e) => { return Err(e); },
                        }
                    }
                },
                FieldId::Trace => {
                    if s.trace.is_none() {
                        match take_bool(v, Mismatch::Trace) {
                            Ok(b) => { s.trace = Some(b); },
                            Err(e) => { return Err(e); },
                        }
                    }
                },
                FieldId::Steps => {
                    if s.steps.is_none() {
                        match take_steps(v) {
                            Ok(t) => { s.steps = Some(t); },
                            Err(e) => { return Err(e); },
                        }
                    }
                },
                FieldId::Loop => {
                    if s.loop_.is_none() {
                        match take_loop(v) {
                            Ok(t) => { s.loop_ = Some(t); },
                            Err(e) => { return Err(e); },
                        }
                    }
                },
                FieldId::Concurrency => {
                    if s.concurrency.is_none() {
                        match take_concurrency(v) {
                            Ok(t) => { s.concurrency = Some(t); },
                            Err(e) => { return Err(e); },
                        }
                    }
                },
                FieldId::Unknown => {},
            }
            Ok(s)
        },
        _ => Err(Mismatch::KeyNotText),
    }
}

/// The runbook that filled slots make, absent fields taking their
/// documented defaults.
fn finish(s: Slots) -> (r: Runbook)
    ensures
        r@ == spec_finish(s@),
{
    let r = Runbook {
        desc: match s.desc {
            Some(d) => d,
            None => String::new(),
        },
        labels: match s.labels {
            Some(l) => l,
            None => Vec::new(),
        },
        runners: match s.runners {
            Some(x) => x,
            None => Vec::new(),
        },
        host_rules: match s.host_rules {
            Some(x) => x,
            None => Vec::new(),
        },
        vars: match s.vars {
            Some(x) => x,
            None => Vec::new(),
        },
        needs: match s.needs {
            Some(x) => x,
            None => Vec::new(),
        },
        secrets: match s.secrets {
            Some(l) => l,
            None => Vec::new(),
        },
        debug: match s.debug {
            Some(n) => n,
            None => Node::Null,
        },
        interval: match s.interval {
            Some(i) => i,
            None => None,
        },
        if_: match s.if_ {
            Some(i) => i,
            None => None,
        },
        skip_test: match s.skip_test {
            Some(b) => b,
            None => false,
        },
        force: match s.force {
            Some(b) => b,
            None => false,
        },
        trace: match s.trace {
            Some(b) => b,
            None => false,
        },
        steps: match s.steps {
            Some(x) => x,
            None => None,
        },
        loop_: match s.loop_ {
            Some(x) => x,
            None => None,
        },
        concurrency: match s.concurrency {
            Some(x) => x,
            None => None,
        },
    };
    proof {
        assert(strings_view(Seq::<String>::empty()) =~= Seq::<Seq<char>>::empty());
        assert(named_nodes_view(Seq::<(String, Node)>::empty()) =~= Seq::<(Seq<char>, Node)>::empty());
    }
    r
}

/// What the grammar makes of an arbitrary tree, computed: the typed
/// runbook, or the first structural mismatch, exactly as `spec_runbook`
/// describes.
#[verifier::loop_isolation(false)]
pub fn interpret_runbook(n: Node) -> (r: Result<Runbook, Mismatch>)
    ensures
        match r {
            Ok(rb) => spec_runbook(n) == Ok::<RunbookV, Mismatch>(rb@),
            Err(m) => spec_runbook(n) == Err::<RunbookV, Mismatch>(m),
        },
{
    match n {
        Node::Mapping(entries) => {
            let ghost ges = entries@;
            let mut rest = entries;
            let mut s = Slots::new();
            while rest.len() > 0
                invariant
                    slots_fold(s@, rest@) == slots_fold(slots_init(), ges),
                decreases rest@.len(),
            {
                let ghost prev_rest = rest@;
                let ghost prev_s = s@;
                let entry = rest.remove(0);
                proof {
                    assert(prev_rest[0] == entry);
                    assert(rest@ =~= prev_rest.drop_first());
                }
                let (k, v) = entry;
                s = match apply_entry(s, k, v) {
                    Ok(s2) => s2,
                    Err(m) => {
                        proof {
                            assert(slots_fold(prev_s, prev_rest) == Err::<SlotsV, Mismatch>(m));
                        }
                        return Err(m);
                    },
                };
            }
            Ok(finish(s))
        },
        _ => Err(Mismatch::RootNotMapping),
    }
}

} // verus!

use vstd::prelude::*;
use crate::node::Node;

verus! {

/// The step collection of a runbook. The same steps may be written as a
/// mapping from step name to step body, or as a sequence of step bodies;
/// either way every body is itself a mapping.
#[derive(Debug, PartialEq, Eq)]
pub enum Steps {
    AsMap(Vec<(String, Node)>),
    AsList(Vec<Node>),
}

/// The loop setting of a runbook: either a bare non-negative repeat
/// count, or a mapping carrying a count expression, an optional
/// termination condition, an optional interval expression, and optional
/// numeric interval bounds (kept as the numeric nodes they were written
/// as; the grammar never reads their values).
#[derive(Debug, PartialEq, Eq)]
pub enum Loop {
    Scalar(u32),
    Mapping {
        count: Node,
        until: Option<String>,
        interval: Option<String>,
        min_interval: Option<Node>,
        max_interval: Option<Node>,
    },
}

/// The concurrency setting of a runbook: one group key, or several.
/// Runbooks sharing a key are meant to be mutually exclusive at run
/// time; this library only validates the shape.
#[derive(Debug, PartialEq, Eq)]
pub enum Concurrency {
    Single(String),
    Multiple(Vec<String>),
}

/// A runbook document, after its tree has matched the grammar. Absent
/// optional fields hold their documented defaults: the empty string, the
/// empty list or mapping, `false`, a null debug value, or no value.
#[derive(Debug, PartialEq, Eq)]
pub struct Runbook {
    pub desc: String,
    pub labels: Vec<String>,
    pub runners: Vec<(String, Node)>,
    pub host_rules: Vec<(String, Node)>,
    pub vars: Vec<(String, Node)>,
    pub needs: Vec<(String, Node)>,
    pub secrets: Vec<String>,
    pub debug: Node,
    pub interval: Option<String>,
    pub if_: Option<String>,
    pub skip_test: bool,
    pub force: bool,
    pub trace: bool,
    pub steps: Option<Steps>,
    pub loop_: Option<Loop>,
    pub concurrency: Option<Concurrency>,
}

/// Mathematical image of a sequence of named entries: each name as its
/// character sequence, each value as the node it holds.
pub open spec fn named_nodes_view(s: Seq<(String, Node)>) -> Seq<(Seq<char>, Node)> {
    s.map_values(|p: (String, Node)| (p.0@, p.1))
}

/// Mathematical image of a list of strings.
pub open spec fn strings_view(s: Seq<String>) -> Seq<Seq<char>> {
    s.map_values(|x: String| x@)
}

/// Mathematical image of an optional string.
pub open spec fn opt_string_view(o: Option<String>) -> Option<Seq<char>> {
    match o {
        Some(s) => Some(s@),
        None => None,
    }
}

/// The step collection as mathematics.
pub enum StepsV {
    AsMap(Seq<(Seq<char>, Node)>),
    AsList(Seq<Node>),
}

impl StepsV {
    /// Whichever shape the steps take, every step body is a mapping.
    pub open spec fn wf(self) -> bool {
        match self {
            StepsV::AsMap(m) => forall|i: int| 0 <= i < m.len() ==> (#[trigger] m[i]).1 is Mapping,
            StepsV::AsList(l) => forall|i: int| 0 <= i < l.len() ==> (#[trigger] l[i]) is Mapping,
        }
    }

    /// A step collection with no steps in it.
    pub open spec fn is_empty(self) -> bool {
        match self {
            StepsV::AsMap(m) => m.len() == 0,
            StepsV::AsList(l) => l.len() == 0,
        }
    }
}

/// The loop setting as mathematics.
pub enum LoopV {
    Scalar(u32),
    Mapping {
        count: Node,
        until: Option<Seq<char>>,
        interval: Option<Seq<char>>,
        min_interval: Option<Node>,
        max_interval: Option<Node>,
    },
}

/// The concurrency setting as mathematics.
pub enum ConcurrencyV {
    Single(Seq<char>),
    Multiple(Seq<Seq<char>>),
}

/// A runbook as mathematics: every string a character sequence, every
/// collection a sequence.
pub struct RunbookV {
    pub desc: Seq<char>,
    pub labels: Seq<Seq<char>>,
    pub runners: Seq<(Seq<char>, Node)>,
    pub host_rules: Seq<(Seq<char>, Node)>,
    pub vars: Seq<(Seq<char>, Node)>,
    pub needs: Seq<(Seq<char>, Node)>,
    pub secrets: Seq<Seq<char>>,
    pub debug: Node,
    pub interval: Option<Seq<char>>,
    pub if_: Option<Seq<char>>,
    pub skip_test: bool,
    pub force: bool,
    pub trace: bool,
    pub steps: Option<StepsV>,
    pub loop_: Option<LoopV>,
    pub concurrency: Option<ConcurrencyV>,
}

impl RunbookV {
    /// Some step, in either shape, is defined.
    pub open spec fn has_steps(self) -> bool {
        match self.steps {
            Some(s) => !s.is_empty(),
            None => false,
        }
    }
}

impl View for Steps {
    type V = StepsV;

    open spec fn view(&self) -> StepsV {
        match self {
            Steps::AsMap(m) => StepsV::AsMap(named_nodes_view(m@)),
            Steps::AsList(l) => StepsV::AsList(l@),
        }
    }
}

impl View for Loop {
    type V = LoopV;

    open spec fn view(&self) -> LoopV {
        match self {
            Loop::Scalar(c) => LoopV::Scalar(*c),
            Loop::Mapping { count, until, interval, min_interval, max_interval } => LoopV::Mapping {
                count: *count,
                until: opt_string_view(*until),
                interval: opt_string_view(*interval),
                min_interval: *min_interval,
                max_interval: *max_interval,
            },
        }
    }
}

impl View for Concurrency {
    type V = ConcurrencyV;

    open spec fn view(&self) -> ConcurrencyV {
        match self {
            Concurrency::Single(s) => ConcurrencyV::Single(s@),
            Concurrency::Multiple(v) => ConcurrencyV::Multiple(strings_view(v@)),
        }
    }
}

/// Mathematical image of an optional step collection.
pub open spec fn opt_steps_view(o: Option<Steps>) -> Option<StepsV> {
    match o {
        Some(s) => Some(s@),
        None => None,
    }
}

/// Mathematical image of an optional loop setting.
pub open spec fn opt_loop_view(o: Option<Loop>) -> Option<LoopV> {
    match o {
        Some(l) => Some(l@),
        None => None,
    }
}

/// Mathematical image of an optional concurrency setting.
pub open spec fn opt_concurrency_view(o: Option<Concurrency>) -> Option<ConcurrencyV> {
    match o {
        Some(c) => Some(c@),
        None => None,
    }
}

impl View for Runbook {
    type V = RunbookV;

    open spec fn view(&self) -> RunbookV {
        RunbookV {
            desc: self.desc@,
            labels: strings_view(self.labels@),
            runners: named_nodes_view(self.runners@),
            host_rules: named_nodes_view(self.host_rules@),
            vars: named_nodes_view(self.vars@),
            needs: named_nodes_view(self.needs@),
            secrets: strings_view(self.secrets@),
            debug: self.debug,
            interval: opt_string_view(self.interval),
            if_: opt_string_view(self.if_),
            skip_test: self.skip_test,
            force: self.force,
            trace: self.trace,
            steps: opt_steps_view(self.steps),
            loop_: opt_loop_view(self.loop_),
            concurrency: opt_concurrency_view(self.concurrency),
        }
    }
}

} // verus!

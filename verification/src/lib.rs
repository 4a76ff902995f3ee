pub mod diagnostics;
pub mod interpret;
pub mod laws;
pub mod node;
pub mod runbook;
pub mod yaml;

pub use diagnostics::{Diagnostic, ParseError, Position, Severity, Span};
pub use interpret::Mismatch;
pub use node::Node;
pub use runbook::{Concurrency, Loop, Runbook, Steps};
pub use yaml::{ParseFail, SourceMark};

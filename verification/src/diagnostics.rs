//! Diagnostics and the results of analysis queries.
use vstd::prelude::*;

use std::rc::Rc;

verus! {

/// Identifies a source file.
#[derive(Debug, Clone, Copy, PartialEq, Eq, Hash, Structural)]
pub struct SourceFileId(pub u32);

/// A byte range of a source file.
#[derive(Debug, Clone, Copy, PartialEq, Eq, Hash, Structural)]
pub struct Span {
    pub file_id: SourceFileId,
    pub start: usize,
    pub end: usize,
}

/// How serious a diagnostic is.
#[derive(Debug, Clone, Copy, PartialEq, Eq, Hash, Structural)]
pub enum Severity {
    Bug,
    Error,
    Warning,
    Note,
    Help,
}

/// Whether a label marks the main cause of a diagnostic or a related place.
#[derive(Debug, Clone, Copy, PartialEq, Eq, Hash, Structural)]
pub enum LabelStyle {
    Primary,
    Secondary,
}

/// A message attached to a span of source.
#[derive(Debug, Clone)]
pub struct Label {
    pub style: LabelStyle,
    pub span: Span,
    pub message: String,
}

/// A message to the user about the source.
#[derive(Debug, Clone)]
pub struct Diagnostic {
    pub severity: Severity,
    pub message: String,
    pub labels: Vec<Label>,
    pub notes: Vec<String>,
}

/// An error whose only label is a primary one at `label_span`, and which has
/// no notes.
pub open spec fn is_simple_error(
    diag: Diagnostic,
    message: Seq<char>,
    label_span: Span,
    label: Seq<char>,
) -> bool {
    &&& diag.severity == Severity::Error
    &&& diag.message@ == message
    &&& diag.labels@.len() == 1
    &&& diag.labels@[0].style == LabelStyle::Primary
    &&& diag.labels@[0].span == label_span
    &&& diag.labels@[0].message@ == label
    &&& diag.notes@.len() == 0
}

impl Diagnostic {
    /// An error with `message`, whose only label, a primary one, says `label`
    /// at `label_span`.
    pub fn error(message: String, label_span: Span, label: String) -> (diag: Diagnostic)
        ensures
            is_simple_error(diag, message@, label_span, label@),
            diag.severity == Severity::Error,
            diag.message@ == message@,
            diag.labels@.len() == 1,
            diag.labels@[0].style == LabelStyle::Primary,
            diag.labels@[0].span == label_span,
            diag.labels@[0].message@ == label@,
            diag.notes@.len() == 0,
    {
        let mut labels = Vec::new();
        labels.push(Label { style: LabelStyle::Primary, span: label_span, message: label });
        Diagnostic { severity: Severity::Error, message, labels, notes: Vec::new() }
    }
}

/// Identifies an item of a module (a type, a function, a constant ...).
#[derive(Debug, Clone, Copy, PartialEq, Eq, Hash, Structural)]
pub struct ItemId(pub u32);

/// Whether a dependency stays inside the item's own definition or crosses
/// to another deployed contract.
#[derive(Debug, Clone, Copy, PartialEq, Eq, Hash, Structural)]
pub enum DepLocality {
    Local,
    External,
}

/// One dependency: `from` depends on `to`.
#[derive(Debug, Clone, Copy, PartialEq, Eq, Hash, Structural)]
pub struct DepEdge {
    pub from: ItemId,
    pub to: ItemId,
    pub locality: DepLocality,
}

/// A dependency graph between items, as its list of edges.
#[derive(Debug, Clone)]
pub struct DepGraph {
    pub edges: Vec<DepEdge>,
}

impl DepGraph {
    /// A graph without edges.
    pub fn new() -> (graph: DepGraph)
        ensures
            graph.edges@.len() == 0,
    {
        DepGraph { edges: Vec::new() }
    }
}

/// A shared dependency graph, as analysis queries return it.
#[derive(Debug, Clone)]
pub struct DepGraphWrapper(pub Rc<DepGraph>);

/// The value of an analysis query together with the diagnostics it raised.
#[derive(Debug, Clone)]
pub struct Analysis<T> {
    pub value: T,
    pub diagnostics: Vec<Diagnostic>,
}

impl<T> Analysis<T> {
    pub fn new(value: T, diagnostics: Vec<Diagnostic>) -> (a: Analysis<T>)
        ensures
            a.value == value,
            a.diagnostics == diagnostics,
    {
        Analysis { value, diagnostics }
    }
}

} // verus!

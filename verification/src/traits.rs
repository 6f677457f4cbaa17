//! Analysis queries on trait definitions.
use vstd::prelude::*;

use std::rc::Rc;

use crate::diagnostics::{Analysis, DepGraph, DepGraphWrapper, Diagnostic, Span, is_simple_error};

verus! {

/// Identifies a module.
#[derive(Debug, Clone, Copy, PartialEq, Eq, Hash, Structural)]
pub struct ModuleId(pub u32);

/// Identifies a trait definition: an index into `AnalyzerDb::traits`.
#[derive(Debug, Clone, Copy, PartialEq, Eq, Hash, Structural)]
pub struct TraitId(pub u32);

/// What the analyzer knows of a trait definition.
#[derive(Debug, Clone)]
pub struct TraitData {
    /// The trait's name.
    pub name: String,
    /// Where the name stands in the source.
    pub name_span: Span,
    /// The module that defines the trait.
    pub module: ModuleId,
}

/// The trait definitions of an analysis session: `TraitId(i)` stands for
/// `traits[i]`.
pub struct AnalyzerDb {
    pub traits: Vec<TraitData>,
}

impl AnalyzerDb {
    /// `id` names a trait of this database.
    pub open spec fn contains(self, id: TraitId) -> bool {
        (id.0 as int) < self.traits@.len()
    }

    /// The definition that `id` names.
    pub open spec fn trait_data(self, id: TraitId) -> TraitData {
        self.traits@[id.0 as int]
    }
}

impl TraitId {
    /// The name of the trait.
    pub fn name(&self, db: &AnalyzerDb) -> (name: String)
        requires
            db.contains(*self),
        ensures
            name@ == db.trait_data(*self).name@,
    {
        db.traits[self.0 as usize].name.clone()
    }
}

/// The type of a trait: its name and its definition.
#[derive(Debug, Clone)]
pub struct Trait {
    pub name: String,
    pub id: TraitId,
}

/// The type that the trait `trait_` defines.
pub fn trait_type(db: &AnalyzerDb, trait_: TraitId) -> (ty: Rc<Trait>)
    requires
        db.contains(trait_),
    ensures
        ty.id == trait_,
        ty.name@ == db.trait_data(trait_).name@,
{
    Rc::new(Trait { name: trait_.name(db), id: trait_ })
}

/// The message of the error raised for a trait whose definition refers to
/// itself.
pub open spec fn recursive_trait_message(name: Seq<char>) -> Seq<char> {
    "recursive trait `"@ + name + "`"@
}

/// The label of that error, at the trait's name.
pub open spec fn recursive_trait_label(name: Seq<char>) -> Seq<char> {
    "trait `"@ + name + "` has infinite size due to recursive definition"@
}

/// The result of the dependency-graph query of `trait_` when the query found
/// itself in a cycle: an empty graph, and one error at the trait's name that
/// says the trait is recursive.
pub fn trait_cycle(db: &AnalyzerDb, _cycle: &[String], trait_: &TraitId) -> (res: Analysis<
    DepGraphWrapper,
>)
    requires
        db.contains(*trait_),
    ensures
        res.value.0.edges@.len() == 0,
        res.diagnostics@.len() == 1,
        is_simple_error(
            res.diagnostics@[0],
            recursive_trait_message(db.trait_data(*trait_).name@),
            db.trait_data(*trait_).name_span,
            recursive_trait_label(db.trait_data(*trait_).name@),
        ),
        res.diagnostics@[0].severity == crate::diagnostics::Severity::Error,
        res.diagnostics@[0].message@ == "recursive trait `"@ + db.trait_data(*trait_).name@
            + "`"@,
        res.diagnostics@[0].labels@.len() == 1,
        res.diagnostics@[0].labels@[0].style == crate::diagnostics::LabelStyle::Primary,
        res.diagnostics@[0].labels@[0].span == db.trait_data(*trait_).name_span,
        res.diagnostics@[0].labels@[0].message@ == "trait `"@ + db.trait_data(*trait_).name@
            + "` has infinite size due to recursive definition"@,
        res.diagnostics@[0].notes@.len() == 0,
{
    let trait_data = &db.traits[trait_.0 as usize];
    let message = String::from_str("recursive trait `").concat(trait_data.name.as_str()).concat(
        "`",
    );
    let label = String::from_str("trait `").concat(trait_data.name.as_str()).concat(
        "` has infinite size due to recursive definition",
    );
    let mut diagnostics = Vec::new();
    diagnostics.push(Diagnostic::error(message, trait_data.name_span, label));
    Analysis::new(DepGraphWrapper(Rc::new(DepGraph::new())), diagnostics)
}

} // verus!

//! The description of a type to be formatted, and the formatting plan that
//! is synthesized from it.
use vstd::prelude::*;

verus! {

/// One field of a record with named fields.
pub struct NamedField {
    pub name: String,
    /// The names of the annotations written on the field.
    pub annotations: Vec<String>,
}

/// One field of a record with positional fields.
pub struct UnnamedField {
    pub annotations: Vec<String>,
}

/// The fields of a variant; the shape is carried by the case, so a named
/// shape always has named fields and a unit shape has none.
pub enum Fields {
    Named(Vec<NamedField>),
    Unnamed(Vec<UnnamedField>),
    Unit,
}

/// One formattable case: the whole type for a record, or one case of a sum
/// type (then its display name is `TypeName::CaseName`).
pub struct Variant {
    pub display_name: String,
    /// The annotations on the container and on the variant itself.
    pub annotations: Vec<String>,
    pub fields: Fields,
}

/// How the value of the field at a position is read for output.
#[derive(Clone, Copy, PartialEq, Eq, Debug, Structural)]
pub enum ValueExpr {
    /// The structural debug rendering of the field.
    Debug(usize),
    /// The plain text rendering of the field.
    Display(usize),
}

/// One `name: value` entry of a named-record builder.
pub struct NamedEntry {
    pub name: String,
    pub value: ValueExpr,
}

/// The formatting procedure of one variant.
#[allow(inconsistent_fields)]
pub enum Plan {
    /// `Name(<debug of the one field>)`, bypassing the builders.
    Inline { name: String, field: usize },
    /// A named-record builder; with no entries it writes the bare name.
    Struct { name: String, entries: Vec<NamedEntry> },
    /// A positional builder; with no entries it writes the bare name.
    Tuple { name: String, entries: Vec<ValueExpr> },
}

/// The one error of synthesis.
#[derive(Clone, Copy, PartialEq, Eq, Debug, Structural)]
pub enum DebugExtrasErrors {
    /// Inline-tuple was asked for a variant without exactly one positional field.
    DebugSingleTupleInlineInvalidStructure,
}

/// The mathematical value of a `Plan`.
#[allow(inconsistent_fields)]
pub enum PlanView {
    Inline { name: Seq<char>, field: nat },
    Struct { name: Seq<char>, entries: Seq<(Seq<char>, ValueExpr)> },
    Tuple { name: Seq<char>, entries: Seq<ValueExpr> },
}

pub open spec fn entries_view(es: Seq<NamedEntry>) -> Seq<(Seq<char>, ValueExpr)> {
    es.map_values(|e: NamedEntry| (e.name@, e.value))
}

impl View for Plan {
    type V = PlanView;

    open spec fn view(&self) -> PlanView {
        match self {
            Plan::Inline { name, field } => PlanView::Inline { name: name@, field: *field as nat },
            Plan::Struct { name, entries } => PlanView::Struct {
                name: name@,
                entries: entries_view(entries@),
            },
            Plan::Tuple { name, entries } => PlanView::Tuple { name: name@, entries: entries@ },
        }
    }
}

impl DebugExtrasErrors {
    /// The human-readable message of the error.
    pub fn message(&self) -> (r: String)
        ensures
            r@ == "Must be tuple struct with one item"@,
    {
        match self {
            DebugExtrasErrors::DebugSingleTupleInlineInvalidStructure => String::from_str(
                "Must be tuple struct with one item",
            ),
        }
    }
}

} // verus!

//! The text that a synthesized formatting procedure writes, given the
//! renderings of the instance's field values.
use vstd::prelude::*;
use vstd::string::*;
use crate::model::{NamedEntry, Plan, PlanView, ValueExpr, entries_view};
use crate::synth::{expr_pos, reads_within};

verus! {

/// The two renderings of one field value of an instance: its structural
/// debug form and its plain text form.
pub struct FieldText {
    pub debug: String,
    pub display: String,
}

pub open spec fn text_of(e: ValueExpr, values: Seq<FieldText>) -> Seq<char> {
    match e {
        ValueExpr::Debug(i) => values[i as int].debug@,
        ValueExpr::Display(i) => values[i as int].display@,
    }
}

pub open spec fn named_text(e: (Seq<char>, ValueExpr), values: Seq<FieldText>) -> Seq<char> {
    e.0 + ": "@ + text_of(e.1, values)
}

/// `a: v, b: w` for the entries, in order.
pub open spec fn joined_named(es: Seq<(Seq<char>, ValueExpr)>, values: Seq<FieldText>) -> Seq<char>
    decreases es.len(),
{
    if es.len() == 0 {
        Seq::empty()
    } else if es.len() == 1 {
        named_text(es[0], values)
    } else {
        joined_named(es.drop_last(), values) + ", "@ + named_text(es.last(), values)
    }
}

/// `v, w` for the entries, in order.
pub open spec fn joined_tuple(es: Seq<ValueExpr>, values: Seq<FieldText>) -> Seq<char>
    decreases es.len(),
{
    if es.len() == 0 {
        Seq::empty()
    } else if es.len() == 1 {
        text_of(es[0], values)
    } else {
        joined_tuple(es.drop_last(), values) + ", "@ + text_of(es.last(), values)
    }
}

/// The text written by a plan: `Name(v)`, `Name { a: v, b: w }`,
/// `Name(v, w)`, or the bare `Name` where a builder has no entries.
pub open spec fn rendered(p: PlanView, values: Seq<FieldText>) -> Seq<char> {
    match p {
        PlanView::Inline { name, field } => name + "("@ + values[field as int].debug@ + ")"@,
        PlanView::Struct { name, entries } => if entries.len() == 0 {
            name
        } else {
            name + " { "@ + joined_named(entries, values) + " }"@
        },
        PlanView::Tuple { name, entries } => if entries.len() == 0 {
            name
        } else {
            name + "("@ + joined_tuple(entries, values) + ")"@
        },
    }
}

fn read_text<'a>(e: ValueExpr, values: &'a Vec<FieldText>) -> (r: &'a str)
    requires
        expr_pos(e) < values@.len(),
    ensures
        r@ == text_of(e, values@),
{
    match e {
        ValueExpr::Debug(i) => values[i].debug.as_str(),
        ValueExpr::Display(i) => values[i].display.as_str(),
    }
}

fn render_named(entries: &Vec<NamedEntry>, values: &Vec<FieldText>) -> (r: String)
    requires
        forall|k: int|
            0 <= k < entries@.len() ==> expr_pos(#[trigger] entries@[k].value) < values@.len(),
    ensures
        r@ == joined_named(entries_view(entries@), values@),
{
    let mut out = String::new();
    let mut i: usize = 0;
    while i < entries.len()
        invariant
            0 <= i <= entries@.len(),
            out@ == joined_named(entries_view(entries@.subrange(0, i as int)), values@),
            forall|k: int|
            0 <= k < entries@.len() ==> expr_pos(#[trigger] entries@[k].value) < values@.len(),
        decreases entries@.len() - i,
    {
        let ghost before = out@;
        let entry = &entries[i];
        let ghost es = entries_view(entries@.subrange(0, i + 1));
        assert(es.drop_last() =~= entries_view(entries@.subrange(0, i as int)));
        assert(es.last() == (entry.name@, entry.value));
        if i > 0 {
            out.append(", ");
        }
        out.append(entry.name.as_str());
        out.append(": ");
        out.append(read_text(entry.value, values));
        if i == 0 {
            assert(out@ =~= named_text(es[0], values@));
        } else {
            assert(out@ =~= before + ", "@ + named_text(es.last(), values@));
        }
        i = i + 1;
    }
    assert(entries@.subrange(0, entries@.len() as int) =~= entries@);
    out
}

fn render_tuple(entries: &Vec<ValueExpr>, values: &Vec<FieldText>) -> (r: String)
    requires
        forall|k: int|
            0 <= k < entries@.len() ==> expr_pos(#[trigger] entries@[k]) < values@.len(),
    ensures
        r@ == joined_tuple(entries@, values@),
{
    let mut out = String::new();
    let mut i: usize = 0;
    while i < entries.len()
        invariant
            0 <= i <= entries@.len(),
            out@ == joined_tuple(entries@.subrange(0, i as int), values@),
            forall|k: int|
            0 <= k < entries@.len() ==> expr_pos(#[trigger] entries@[k]) < values@.len(),
        decreases entries@.len() - i,
    {
        let ghost before = out@;
        let ghost es = entries@.subrange(0, i + 1);
        assert(es.drop_last() =~= entries@.subrange(0, i as int));
        if i > 0 {
            out.append(", ");
        }
        out.append(read_text(entries[i], values));
        if i == 0 {
            assert(out@ =~= text_of(es[0], values@));
        } else {
            assert(out@ =~= before + ", "@ + text_of(es.last(), values@));
        }
        i = i + 1;
    }
    assert(entries@.subrange(0, entries@.len() as int) =~= entries@);
    out
}

/// The text that the plan writes for an instance whose field values render
/// as `values`, indexed by field position.
pub fn render(plan: &Plan, values: &Vec<FieldText>) -> (r: String)
    requires
        reads_within(plan@, values@.len()),
    ensures
        r@ == rendered(plan@, values@),
{
    match plan {
        Plan::Inline { name, field } => {
            let mut out = name.clone();
            out.append("(");
            out.append(values[*field].debug.as_str());
            out.append(")");
            out
        },
        Plan::Struct { name, entries } => {
            assert(plan@ == PlanView::Struct { name: name@, entries: entries_view(entries@) });
            let mut out = name.clone();
            if entries.len() > 0 {
                assert forall|k: int| 0 <= k < entries@.len() implies expr_pos(
                    #[trigger] entries@[k].value,
                ) < values@.len() by {
                    if let PlanView::Struct { entries: es, .. } = plan@ {
                        assert(es[k].1 == entries@[k].value);
                    }
                }
                let body = render_named(entries, values);
                out.append(" { ");
                out.append(body.as_str());
                out.append(" }");
            }
            out
        },
        Plan::Tuple { name, entries } => {
            assert(plan@ == PlanView::Tuple { name: name@, entries: entries@ });
            let mut out = name.clone();
            if entries.len() > 0 {
                assert forall|k: int| 0 <= k < entries@.len() implies expr_pos(
                    #[trigger] entries@[k],
                ) < values@.len() by {
                    if let PlanView::Tuple { entries: es, .. } = plan@ {
                        assert(es[k] == entries@[k]);
                    }
                }
                let body = render_tuple(entries, values);
                out.append("(");
                out.append(body.as_str());
                out.append(")");
            }
            out
        },
    }
}

/// The text written for an instance of a type that holds the variant at
/// `which`, by dispatching to that variant's plan.
pub fn render_instance(plans: &Vec<Plan>, which: usize, values: &Vec<FieldText>) -> (r: String)
    requires
        which < plans@.len(),
        reads_within(plans@[which as int]@, values@.len()),
    ensures
        r@ == rendered(plans@[which as int]@, values@),
{
    render(&plans[which], values)
}

} // verus!

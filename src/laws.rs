//! Properties that relate the synthesized plans to the text they produce.
use vstd::prelude::*;
use crate::model::{
    DebugExtrasErrors, Fields, NamedField, Plan, PlanView, UnnamedField, ValueExpr, Variant,
};
use crate::render::{rendered, FieldText};
use crate::synth::{
    all_valid, as_display, expr_pos, ignored, inline_annotated, inline_requested, named_entries, plans_of,
    read_of, single_positional, spec_plan, tuple_entries,
};

verus! {

/// A variant with exactly one positional field and the inline annotation is
/// written as `Name(` + the structural debug form of the field + `)`.
pub proof fn lemma_single_tuple_inline(v: Variant, auto_inline: bool, values: Seq<FieldText>)
    requires
        inline_annotated(v),
        single_positional(v.fields),
        values.len() >= 1,
    ensures
        spec_plan(v, auto_inline) == Ok::<PlanView, DebugExtrasErrors>(
            PlanView::Inline { name: v.display_name@, field: 0 },
        ),
        rendered(spec_plan(v, auto_inline)->Ok_0, values) == v.display_name@ + "("@
            + values[0].debug@ + ")"@,
{
}

/// The names of the entries of a named record are the names of the fields
/// that are not ignored, each once, in declaration order.
pub proof fn lemma_ignored_fields_omitted(fs: Seq<NamedField>)
    ensures
        named_entries(fs).map_values(|e: (Seq<char>, ValueExpr)| e.0) == fs.filter(
            |f: NamedField| !ignored(f.annotations@),
        ).map_values(|f: NamedField| f.name@),
    decreases fs.len(),
{
    reveal(Seq::filter);
    let pred = |f: NamedField| !ignored(f.annotations@);
    let en = |e: (Seq<char>, ValueExpr)| e.0;
    let fname = |f: NamedField| f.name@;
    if fs.len() > 0 {
        let d = fs.drop_last();
        let last = fs.last();
        lemma_ignored_fields_omitted(d);
        assert(named_entries(d).map_values(en) == d.filter(pred).map_values(fname));
        if ignored(last.annotations@) {
            assert(named_entries(fs) == named_entries(d));
            assert(fs.filter(pred) == d.filter(pred));
        } else {
            let e = read_of(last.annotations@, (fs.len() - 1) as usize)->Some_0;
            assert(named_entries(fs) == named_entries(d).push((last.name@, e)));
            assert(fs.filter(pred) == d.filter(pred).push(last));
            assert(named_entries(fs).map_values(en) =~= named_entries(d).map_values(en).push(
                last.name@,
            ));
            assert(fs.filter(pred).map_values(fname) =~= d.filter(pred).map_values(fname).push(
                last.name@,
            ));
        }
    }
}

/// A named variant without an inline request is written with a named-record
/// builder over exactly the entries above.
pub proof fn lemma_named_variant_plan(v: Variant, auto_inline: bool)
    requires
        v.fields is Named,
        !inline_annotated(v),
    ensures
        match v.fields {
            Fields::Named(fs) => spec_plan(v, auto_inline) == Ok::<PlanView, DebugExtrasErrors>(
                PlanView::Struct { name: v.display_name@, entries: named_entries(fs@) },
            ),
            _ => false,
        },
{
}

/// Each entry of a named record reads the field at its own position, under
/// that field's name and as that field's annotations say; each field that is
/// not ignored has an entry.
pub proof fn lemma_named_entries_fields(fs: Seq<NamedField>)
    requires
        fs.len() <= usize::MAX,
    ensures
        forall|j: int| #![trigger named_entries(fs)[j]]
            0 <= j < named_entries(fs).len() ==> {
                let e = named_entries(fs)[j];
                let p = expr_pos(e.1) as int;
                &&& p < fs.len()
                &&& e.0 == fs[p].name@
                &&& read_of(fs[p].annotations@, p as usize) == Some(e.1)
            },
        forall|k: int|
            0 <= k < fs.len() && !ignored(#[trigger] fs[k].annotations@) ==> exists|j: int|
                0 <= j < named_entries(fs).len() && expr_pos(#[trigger] named_entries(fs)[j].1)
                    == k,
    decreases fs.len(),
{
    if fs.len() > 0 {
        let d = fs.drop_last();
        lemma_named_entries_fields(d);
        assert forall|k: int|
            0 <= k < fs.len() && !ignored(#[trigger] fs[k].annotations@) implies exists|j: int|
            0 <= j < named_entries(fs).len() && expr_pos(#[trigger] named_entries(fs)[j].1)
                == k by {
            if k < fs.len() - 1 {
                assert(d[k] == fs[k]);
                let j = choose|j: int|
                    0 <= j < named_entries(d).len() && expr_pos(#[trigger] named_entries(d)[j].1)
                        == k;
                assert(named_entries(fs)[j] == named_entries(d)[j]);
            } else {
                let j = named_entries(d).len() as int;
                assert(expr_pos(named_entries(fs)[j].1) == k);
            }
        }
    }
}

/// A field annotated to render as plain text, and not ignored, is read
/// through its plain text form and never through its debug form.
pub proof fn lemma_display_field_named(fs: Seq<NamedField>, k: int)
    requires
        fs.len() <= usize::MAX,
        0 <= k < fs.len(),
        !ignored(fs[k].annotations@),
        as_display(fs[k].annotations@),
    ensures
        exists|j: int|
            0 <= j < named_entries(fs).len() && #[trigger] named_entries(fs)[j] == (
                fs[k].name@,
                ValueExpr::Display(k as usize),
            ),
        forall|j: int|
            0 <= j < named_entries(fs).len() ==> #[trigger] named_entries(fs)[j].1
                != ValueExpr::Debug(k as usize),
{
    lemma_named_entries_fields(fs);
    let j = choose|j: int|
        0 <= j < named_entries(fs).len() && expr_pos(#[trigger] named_entries(fs)[j].1) == k;
    assert(named_entries(fs)[j] == (fs[k].name@, ValueExpr::Display(k as usize)));
}

/// Each entry of a positional record reads the field at its own position, as
/// that field's annotations say; each field that is not ignored has an entry.
pub proof fn lemma_tuple_entries_fields(fs: Seq<UnnamedField>)
    requires
        fs.len() <= usize::MAX,
    ensures
        forall|j: int| #![trigger tuple_entries(fs)[j]]
            0 <= j < tuple_entries(fs).len() ==> {
                let e = tuple_entries(fs)[j];
                let p = expr_pos(e) as int;
                &&& p < fs.len()
                &&& read_of(fs[p].annotations@, p as usize) == Some(e)
            },
        forall|k: int|
            0 <= k < fs.len() && !ignored(#[trigger] fs[k].annotations@) ==> exists|j: int|
                0 <= j < tuple_entries(fs).len() && expr_pos(#[trigger] tuple_entries(fs)[j]) == k,
    decreases fs.len(),
{
    if fs.len() > 0 {
        let d = fs.drop_last();
        lemma_tuple_entries_fields(d);
        assert forall|k: int|
            0 <= k < fs.len() && !ignored(#[trigger] fs[k].annotations@) implies exists|j: int|
            0 <= j < tuple_entries(fs).len() && expr_pos(#[trigger] tuple_entries(fs)[j]) == k by {
            if k < fs.len() - 1 {
                assert(d[k] == fs[k]);
                let j = choose|j: int|
                    0 <= j < tuple_entries(d).len() && expr_pos(#[trigger] tuple_entries(d)[j])
                        == k;
                assert(tuple_entries(fs)[j] == tuple_entries(d)[j]);
            } else {
                let j = tuple_entries(d).len() as int;
                assert(expr_pos(tuple_entries(fs)[j]) == k);
            }
        }
    }
}

/// In a positional record, a field annotated to render as plain text, and
/// not ignored, is read through its plain text form and never through its
/// debug form.
pub proof fn lemma_display_field_tuple(fs: Seq<UnnamedField>, k: int)
    requires
        fs.len() <= usize::MAX,
        0 <= k < fs.len(),
        !ignored(fs[k].annotations@),
        as_display(fs[k].annotations@),
    ensures
        exists|j: int|
            0 <= j < tuple_entries(fs).len() && #[trigger] tuple_entries(fs)[j]
                == ValueExpr::Display(k as usize),
        forall|j: int|
            0 <= j < tuple_entries(fs).len() ==> #[trigger] tuple_entries(fs)[j]
                != ValueExpr::Debug(k as usize),
{
    lemma_tuple_entries_fields(fs);
    let j = choose|j: int|
        0 <= j < tuple_entries(fs).len() && expr_pos(#[trigger] tuple_entries(fs)[j]) == k;
    assert(tuple_entries(fs)[j] == ValueExpr::Display(k as usize));
}

/// Under the automatic inline policy, a single positional field that carries
/// its own field annotation keeps the normal positional form: the explicit
/// annotation wins over the policy.
pub proof fn lemma_field_annotation_wins_over_auto_inline(v: Variant)
    requires
        !inline_annotated(v),
        match v.fields {
            Fields::Unnamed(fs) => fs@.len() == 1 && (ignored(fs@[0].annotations@) || as_display(
                fs@[0].annotations@,
            )),
            _ => false,
        },
    ensures
        match v.fields {
            Fields::Unnamed(fs) => spec_plan(v, true) == Ok::<PlanView, DebugExtrasErrors>(
                PlanView::Tuple { name: v.display_name@, entries: tuple_entries(fs@) },
            ),
            _ => false,
        },
{
}

/// A unit variant without an inline request is written as its bare name.
pub proof fn lemma_unit_bare_name(v: Variant, auto_inline: bool, values: Seq<FieldText>)
    requires
        v.fields is Unit,
        !inline_annotated(v),
    ensures
        spec_plan(v, auto_inline) is Ok,
        rendered(spec_plan(v, auto_inline)->Ok_0, values) == v.display_name@,
{
}

/// The plans of a type hold one plan per declared variant, so an instance of
/// every variant is written by that variant's own plan.
pub proof fn lemma_dispatch_reaches_every_variant(
    vs: Seq<Variant>,
    auto_inline: bool,
    plans: Seq<Plan>,
    which: int,
    values: Seq<FieldText>,
)
    requires
        plans_of(vs, auto_inline, plans),
        0 <= which < vs.len(),
    ensures
        which < plans.len(),
        spec_plan(vs[which], auto_inline) is Ok,
        rendered(plans[which]@, values) == rendered(
            spec_plan(vs[which], auto_inline)->Ok_0,
            values,
        ),
{
    assert(spec_plan(vs[which], auto_inline) == Ok::<PlanView, DebugExtrasErrors>(
        plans[which]@,
    ));
}

/// Asking for the inline form of a variant that lacks exactly one positional
/// field fails with the structure error, and never falls back.
pub proof fn lemma_inline_invalid_structure(v: Variant, auto_inline: bool)
    requires
        inline_requested(v, auto_inline),
        !single_positional(v.fields),
    ensures
        spec_plan(v, auto_inline) == Err::<PlanView, DebugExtrasErrors>(
            DebugExtrasErrors::DebugSingleTupleInlineInvalidStructure,
        ),
{
}

/// One variant that fails makes the whole type fail.
pub proof fn lemma_invalid_variant_fails_type(vs: Seq<Variant>, auto_inline: bool, i: int)
    requires
        0 <= i < vs.len(),
        inline_requested(vs[i], auto_inline),
        !single_positional(vs[i].fields),
    ensures
        !all_valid(vs, auto_inline),
{
    assert(!(spec_plan(vs[i], auto_inline) is Ok));
}

} // verus!

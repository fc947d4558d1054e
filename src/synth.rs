//! Annotation resolution, field filtering and the synthesis of a formatting
//! plan for each variant of a type.
use vstd::prelude::*;
use vstd::string::*;
use crate::model::{
    entries_view, DebugExtrasErrors, Fields, NamedEntry, NamedField, Plan, PlanView, UnnamedField, ValueExpr,
    Variant,
};

verus! {

/// The field annotation that drops a field from the output.
pub const IGNORE_DEBUG: &'static str = "debug_ignore";

/// The container annotation that asks for the compact one-field form.
pub const SINGLE_TUPLE_INLINE: &'static str = "debug_single_tuple_inline";

/// The field annotation that renders a field through its plain text form.
pub const DEBUG_AS_DISPLAY: &'static str = "debug_as_display";

/// Whether an annotation of exactly the given name is present.
pub open spec fn has_flag(anns: Seq<String>, flag: Seq<char>) -> bool {
    exists|i: int| 0 <= i < anns.len() && #[trigger] anns[i]@ == flag
}

pub open spec fn ignored(anns: Seq<String>) -> bool {
    has_flag(anns, IGNORE_DEBUG@)
}

pub open spec fn as_display(anns: Seq<String>) -> bool {
    has_flag(anns, DEBUG_AS_DISPLAY@)
}

pub open spec fn inline_annotated(v: Variant) -> bool {
    has_flag(v.annotations@, SINGLE_TUPLE_INLINE@)
}

/// The read expression of the field at `pos`, or `None` where it is omitted.
pub open spec fn read_of(anns: Seq<String>, pos: usize) -> Option<ValueExpr> {
    if ignored(anns) {
        None
    } else if as_display(anns) {
        Some(ValueExpr::Display(pos))
    } else {
        Some(ValueExpr::Debug(pos))
    }
}

/// The entries of a named-record builder for the fields, in declaration order.
pub open spec fn named_entries(fs: Seq<NamedField>) -> Seq<(Seq<char>, ValueExpr)>
    decreases fs.len(),
{
    if fs.len() == 0 {
        Seq::empty()
    } else {
        let rest = named_entries(fs.drop_last());
        match read_of(fs.last().annotations@, (fs.len() - 1) as usize) {
            Some(e) => rest.push((fs.last().name@, e)),
            None => rest,
        }
    }
}

/// The entries of a positional builder for the fields, in declaration order.
pub open spec fn tuple_entries(fs: Seq<UnnamedField>) -> Seq<ValueExpr>
    decreases fs.len(),
{
    if fs.len() == 0 {
        Seq::empty()
    } else {
        let rest = tuple_entries(fs.drop_last());
        match read_of(fs.last().annotations@, (fs.len() - 1) as usize) {
            Some(e) => rest.push(e),
            None => rest,
        }
    }
}

pub open spec fn field_count(f: Fields) -> nat {
    match f {
        Fields::Named(fs) => fs@.len(),
        Fields::Unnamed(fs) => fs@.len(),
        Fields::Unit => 0,
    }
}

pub open spec fn single_positional(f: Fields) -> bool {
    match f {
        Fields::Unnamed(fs) => fs@.len() == 1,
        _ => false,
    }
}

/// Exactly one positional field, which carries neither field annotation:
/// where the automatic policy applies, as an explicit annotation wins over it.
pub open spec fn auto_inline_applies(f: Fields) -> bool {
    match f {
        Fields::Unnamed(fs) => fs@.len() == 1 && !ignored(fs@[0].annotations@) && !as_display(
            fs@[0].annotations@,
        ),
        _ => false,
    }
}

/// Whether the compact one-field form is asked for: by annotation, or by the
/// automatic policy on a variant with exactly one positional field that has
/// no field annotation of its own.
pub open spec fn inline_requested(v: Variant, auto_inline: bool) -> bool {
    inline_annotated(v) || (auto_inline && auto_inline_applies(v.fields))
}

/// The formatting plan of a variant, or the error that aborts generation.
pub open spec fn spec_plan(v: Variant, auto_inline: bool) -> Result<PlanView, DebugExtrasErrors> {
    if inline_requested(v, auto_inline) {
        if single_positional(v.fields) {
            Ok(PlanView::Inline { name: v.display_name@, field: 0 })
        } else {
            Err(DebugExtrasErrors::DebugSingleTupleInlineInvalidStructure)
        }
    } else {
        match v.fields {
            Fields::Named(fs) => Ok(
                PlanView::Struct { name: v.display_name@, entries: named_entries(fs@) },
            ),
            Fields::Unnamed(fs) => Ok(
                PlanView::Tuple { name: v.display_name@, entries: tuple_entries(fs@) },
            ),
            Fields::Unit => Ok(PlanView::Struct { name: v.display_name@, entries: Seq::empty() }),
        }
    }
}

pub open spec fn expr_pos(e: ValueExpr) -> nat {
    match e {
        ValueExpr::Debug(i) => i as nat,
        ValueExpr::Display(i) => i as nat,
    }
}

/// Every field that the plan reads stands at a position below `n`.
pub open spec fn reads_within(p: PlanView, n: nat) -> bool {
    match p {
        PlanView::Inline { field, .. } => field < n,
        PlanView::Struct { entries, .. } => forall|k: int|
            0 <= k < entries.len() ==> expr_pos(#[trigger] entries[k].1) < n,
        PlanView::Tuple { entries, .. } => forall|k: int|
            0 <= k < entries.len() ==> expr_pos(#[trigger] entries[k]) < n,
    }
}

/// Whether an annotation of exactly the name `flag` is among `anns`.
pub fn has_annotation(anns: &Vec<String>, flag: &str) -> (r: bool)
    ensures
        r == has_flag(anns@, flag@),
{
    let wanted = String::from_str(flag);
    let mut i: usize = 0;
    while i < anns.len()
        invariant
            0 <= i <= anns@.len(),
            wanted@ == flag@,
            forall|j: int| 0 <= j < i ==> anns@[j]@ != flag@,
        decreases anns@.len() - i,
    {
        if anns[i] == wanted {
            return true;
        }
        i = i + 1;
    }
    false
}

/// Filter and transform one field: `None` where it is ignored, else how its
/// value is read.
pub fn field_read(anns: &Vec<String>, pos: usize) -> (r: Option<ValueExpr>)
    ensures
        r == read_of(anns@, pos),
{
    if has_annotation(anns, IGNORE_DEBUG) {
        None
    } else if has_annotation(anns, DEBUG_AS_DISPLAY) {
        Some(ValueExpr::Display(pos))
    } else {
        Some(ValueExpr::Debug(pos))
    }
}

/// The named-record entries of the fields that are not ignored, in order.
pub fn named_plan_entries(fs: &Vec<NamedField>) -> (r: Vec<NamedEntry>)
    ensures
        entries_view(r@) == named_entries(fs@),
        forall|k: int| 0 <= k < r@.len() ==> expr_pos(#[trigger] r@[k].value) < fs@.len(),
{
    let mut out: Vec<NamedEntry> = Vec::new();
    let mut i: usize = 0;
    while i < fs.len()
        invariant
            0 <= i <= fs@.len(),
            entries_view(out@) == named_entries(fs@.subrange(0, i as int)),
            forall|k: int| 0 <= k < out@.len() ==> expr_pos(#[trigger] out@[k].value) < i,
        decreases fs@.len() - i,
    {
        let field = &fs[i];
        assert(fs@.subrange(0, i + 1).drop_last() =~= fs@.subrange(0, i as int));
        match field_read(&field.annotations, i) {
            Some(e) => {
                let name = field.name.clone();
                out.push(NamedEntry { name, value: e });
                assert(entries_view(out@) =~= named_entries(fs@.subrange(0, i + 1)));
            },
            None => {},
        }
        i = i + 1;
    }
    assert(fs@.subrange(0, fs@.len() as int) =~= fs@);
    out
}

/// The positional entries of the fields that are not ignored, in order.
pub fn tuple_plan_entries(fs: &Vec<UnnamedField>) -> (r: Vec<ValueExpr>)
    ensures
        r@ == tuple_entries(fs@),
        forall|k: int| 0 <= k < r@.len() ==> expr_pos(#[trigger] r@[k]) < fs@.len(),
{
    let mut out: Vec<ValueExpr> = Vec::new();
    let mut i: usize = 0;
    while i < fs.len()
        invariant
            0 <= i <= fs@.len(),
            out@ == tuple_entries(fs@.subrange(0, i as int)),
            forall|k: int| 0 <= k < out@.len() ==> expr_pos(#[trigger] out@[k]) < i,
        decreases fs@.len() - i,
    {
        assert(fs@.subrange(0, i + 1).drop_last() =~= fs@.subrange(0, i as int));
        match field_read(&fs[i].annotations, i) {
            Some(e) => {
                out.push(e);
            },
            None => {},
        }
        i = i + 1;
    }
    assert(fs@.subrange(0, fs@.len() as int) =~= fs@);
    out
}

/// Synthesize the formatting plan of one variant. Fails exactly where the
/// compact one-field form is asked for and the variant does not have exactly
/// one positional field.
pub fn debug_extras_impl(v: &Variant, auto_inline: bool) -> (r: Result<Plan, DebugExtrasErrors>)
    ensures
        match r {
            Ok(p) => spec_plan(*v, auto_inline) == Ok::<PlanView, DebugExtrasErrors>(p@)
                && reads_within(p@, field_count(v.fields)),
            Err(e) => spec_plan(*v, auto_inline) == Err::<PlanView, DebugExtrasErrors>(e),
        },
{
    let single = match &v.fields {
        Fields::Unnamed(fs) => fs.len() == 1,
        _ => false,
    };
    let plain_single = match &v.fields {
        Fields::Unnamed(fs) => fs.len() == 1 && !has_annotation(&fs[0].annotations, IGNORE_DEBUG)
            && !has_annotation(&fs[0].annotations, DEBUG_AS_DISPLAY),
        _ => false,
    };
    let inline = has_annotation(&v.annotations, SINGLE_TUPLE_INLINE) || (auto_inline
        && plain_single);
    let name = v.display_name.clone();
    if inline {
        if single {
            Ok(Plan::Inline { name, field: 0 })
        } else {
            Err(DebugExtrasErrors::DebugSingleTupleInlineInvalidStructure)
        }
    } else {
        match &v.fields {
            Fields::Named(fs) => Ok(Plan::Struct { name, entries: named_plan_entries(fs) }),
            Fields::Unnamed(fs) => Ok(Plan::Tuple { name, entries: tuple_plan_entries(fs) }),
            Fields::Unit => {
                let entries: Vec<NamedEntry> = Vec::new();
                assert(entries_view(entries@) =~= Seq::empty());
                Ok(Plan::Struct { name, entries })
            },
        }
    }
}

/// Every variant of the type has a plan.
pub open spec fn all_valid(vs: Seq<Variant>, auto_inline: bool) -> bool {
    forall|i: int| 0 <= i < vs.len() ==> (#[trigger] spec_plan(vs[i], auto_inline)) is Ok
}

/// `plans` holds, for each variant in order, its plan.
pub open spec fn plans_of(vs: Seq<Variant>, auto_inline: bool, plans: Seq<Plan>) -> bool {
    &&& plans.len() == vs.len()
    &&& forall|i: int|
        0 <= i < vs.len() ==> spec_plan(vs[i], auto_inline) == Ok::<PlanView, DebugExtrasErrors>(
            #[trigger] plans[i]@,
        )
}

/// Synthesize the formatting procedure of a whole type: one plan per variant,
/// in declaration order, or the error if any variant fails.
pub fn debug_extras(variants: &Vec<Variant>, auto_inline: bool) -> (r: Result<
    Vec<Plan>,
    DebugExtrasErrors,
>)
    ensures
        match r {
            Ok(plans) => all_valid(variants@, auto_inline) && plans_of(
                variants@,
                auto_inline,
                plans@,
            ) && forall|i: int|
                0 <= i < plans@.len() ==> reads_within(
                    #[trigger] plans@[i]@,
                    field_count(variants@[i].fields),
                ),
            Err(e) => !all_valid(variants@, auto_inline) && e
                == DebugExtrasErrors::DebugSingleTupleInlineInvalidStructure,
        },
{
    let mut plans: Vec<Plan> = Vec::new();
    let mut i: usize = 0;
    while i < variants.len()
        invariant
            0 <= i <= variants@.len(),
            plans@.len() == i,
            forall|j: int|
                0 <= j < i ==> spec_plan(variants@[j], auto_inline) == Ok::<
                    PlanView,
                    DebugExtrasErrors,
                >(#[trigger] plans@[j]@),
            forall|j: int|
                0 <= j < i ==> reads_within(
                    #[trigger] plans@[j]@,
                    field_count(variants@[j].fields),
                ),
        decreases variants@.len() - i,
    {
        match debug_extras_impl(&variants[i], auto_inline) {
            Ok(p) => {
                plans.push(p);
            },
            Err(e) => {
                assert(!(spec_plan(variants@[i as int], auto_inline) is Ok));
                return Err(e);
            },
        }
        i = i + 1;
    }
    assert forall|j: int| 0 <= j < variants@.len() implies (#[trigger] spec_plan(
        variants@[j],
        auto_inline,
    )) is Ok by {
        assert(spec_plan(variants@[j], auto_inline) == Ok::<PlanView, DebugExtrasErrors>(
            plans@[j]@,
        ));
    }
    Ok(plans)
}

} // verus!

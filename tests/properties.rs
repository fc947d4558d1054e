use derive_debug_extras::model::{
    DebugExtrasErrors, Fields, NamedField, Plan, UnnamedField, ValueExpr, Variant,
};
use derive_debug_extras::render::{render, render_instance, FieldText};
use derive_debug_extras::synth::{debug_extras, debug_extras_impl, field_read, has_annotation};

fn anns(names: &[&str]) -> Vec<String> {
    names.iter().map(|n| n.to_string()).collect()
}

fn named(name: &str, a: &[&str]) -> NamedField {
    NamedField { name: name.to_string(), annotations: anns(a) }
}

fn unnamed(a: &[&str]) -> UnnamedField {
    UnnamedField { annotations: anns(a) }
}

fn variant(name: &str, a: &[&str], fields: Fields) -> Variant {
    Variant { display_name: name.to_string(), annotations: anns(a), fields }
}

fn text(debug: &str, display: &str) -> FieldText {
    FieldText { debug: debug.to_string(), display: display.to_string() }
}

fn render_one(v: Variant, auto_inline: bool, values: Vec<FieldText>) -> String {
    let plan = debug_extras_impl(&v, auto_inline).unwrap();
    render(&plan, &values)
}

const INVALID: DebugExtrasErrors = DebugExtrasErrors::DebugSingleTupleInlineInvalidStructure;

#[test]
fn annotation_names_match_exactly() {
    let a = anns(&["debug_ignored", "Debug_ignore", "debug_as_display"]);
    assert!(!has_annotation(&a, "debug_ignore"));
    assert!(has_annotation(&a, "debug_as_display"));
    assert!(!has_annotation(&Vec::new(), "debug_ignore"));
}

#[test]
fn ignore_wins_over_display() {
    assert_eq!(field_read(&anns(&["debug_as_display", "debug_ignore"]), 3), None);
    assert_eq!(field_read(&anns(&["debug_as_display"]), 3), Some(ValueExpr::Display(3)));
    assert_eq!(field_read(&anns(&["other"]), 2), Some(ValueExpr::Debug(2)));
}

#[test]
fn inline_writes_debug_form_of_the_one_field() {
    let v = variant("W", &["debug_single_tuple_inline"], Fields::Unnamed(vec![unnamed(&[])]));
    assert_eq!(render_one(v, false, vec![text("\"a\"", "a")]), "W(\"a\")");
}

#[test]
fn inline_ignores_field_annotations() {
    let v = variant(
        "W",
        &["debug_single_tuple_inline"],
        Fields::Unnamed(vec![unnamed(&["debug_ignore", "debug_as_display"])]),
    );
    assert_eq!(render_one(v, false, vec![text("7", "seven")]), "W(7)");
}

#[test]
fn named_fields_keep_order_and_drop_ignored() {
    let v = variant(
        "S",
        &[],
        Fields::Named(vec![
            named("a", &[]),
            named("b", &["debug_ignore", "debug_as_display"]),
            named("c", &["debug_as_display"]),
            named("d", &[]),
        ]),
    );
    let values = vec![text("1", "one"), text("2", "two"), text("\"x\"", "x"), text("4", "four")];
    assert_eq!(render_one(v, false, values), "S { a: 1, c: x, d: 4 }");
}

#[test]
fn all_fields_ignored_gives_bare_name() {
    let v = variant("S", &[], Fields::Named(vec![named("a", &["debug_ignore"])]));
    assert_eq!(render_one(v, false, vec![text("1", "1")]), "S");
}

#[test]
fn tuple_fields_without_inline() {
    let v = variant(
        "T",
        &[],
        Fields::Unnamed(vec![unnamed(&[]), unnamed(&["debug_ignore"]), unnamed(&["debug_as_display"])]),
    );
    let values = vec![text("1", "1"), text("2", "2"), text("\"z\"", "z")];
    assert_eq!(render_one(v, false, values), "T(1, z)");
}

#[test]
fn single_tuple_without_inline_uses_builder_form() {
    let v = variant("T", &[], Fields::Unnamed(vec![unnamed(&["debug_as_display"])]));
    assert_eq!(render_one(v, false, vec![text("\"q\"", "q")]), "T(q)");
}

#[test]
fn auto_inline_policy() {
    let v = variant("T", &[], Fields::Unnamed(vec![unnamed(&[])]));
    assert_eq!(render_one(v, true, vec![text("\"q\"", "q")]), "T(\"q\")");
    let two = variant("P", &[], Fields::Unnamed(vec![unnamed(&[]), unnamed(&[])]));
    assert_eq!(render_one(two, true, vec![text("1", "1"), text("2", "2")]), "P(1, 2)");
}

#[test]
fn field_annotation_wins_over_auto_inline() {
    let shown = variant("T", &[], Fields::Unnamed(vec![unnamed(&["debug_as_display"])]));
    assert_eq!(render_one(shown, true, vec![text("\"q\"", "q")]), "T(q)");
    let hidden = variant("T", &[], Fields::Unnamed(vec![unnamed(&["debug_ignore"])]));
    assert_eq!(render_one(hidden, true, vec![text("\"q\"", "q")]), "T");
    let forced = variant(
        "T",
        &["debug_single_tuple_inline"],
        Fields::Unnamed(vec![unnamed(&["debug_ignore"])]),
    );
    assert_eq!(render_one(forced, true, vec![text("\"q\"", "q")]), "T(\"q\")");
}

#[test]
fn unit_variant_is_bare_name() {
    let v = variant("E::U", &[], Fields::Unit);
    assert_eq!(render_one(v, false, Vec::new()), "E::U");
}

#[test]
fn inline_on_two_fields_fails() {
    let v = variant(
        "P",
        &["debug_single_tuple_inline"],
        Fields::Unnamed(vec![unnamed(&[]), unnamed(&[])]),
    );
    assert!(matches!(debug_extras_impl(&v, false), Err(INVALID)));
}

#[test]
fn inline_on_named_or_unit_fails() {
    let n = variant("N", &["debug_single_tuple_inline"], Fields::Named(vec![named("a", &[])]));
    assert!(matches!(debug_extras_impl(&n, false), Err(INVALID)));
    let u = variant("U", &["debug_single_tuple_inline"], Fields::Unit);
    assert!(matches!(debug_extras_impl(&u, false), Err(INVALID)));
    let e = variant("Z", &["debug_single_tuple_inline"], Fields::Unnamed(Vec::new()));
    assert!(matches!(debug_extras_impl(&e, false), Err(INVALID)));
}

#[test]
fn one_invalid_variant_fails_the_type() {
    let good = variant("E::A", &["debug_single_tuple_inline"], Fields::Unnamed(vec![unnamed(&[])]));
    let bad = variant("E::B", &["debug_single_tuple_inline"], Fields::Unit);
    assert!(matches!(debug_extras(&vec![good, bad], false), Err(INVALID)));
}

#[test]
fn sum_type_dispatches_per_variant() {
    let a = variant("E::A", &[], Fields::Named(vec![named("n", &[])]));
    let b = variant("E::B", &[], Fields::Unit);
    let c = variant("E::C", &["debug_single_tuple_inline"], Fields::Unnamed(vec![unnamed(&[])]));
    let plans = debug_extras(&vec![a, b, c], false).unwrap();
    assert_eq!(plans.len(), 3);
    assert_eq!(render_instance(&plans, 0, &vec![text("5", "5")]), "E::A { n: 5 }");
    assert_eq!(render_instance(&plans, 1, &Vec::new()), "E::B");
    assert_eq!(render_instance(&plans, 2, &vec![text("[1]", "")]), "E::C([1])");
    assert!(matches!(&plans[2], Plan::Inline { field: 0, .. }));
}

#[test]
fn empty_sum_type_has_no_plans() {
    assert_eq!(debug_extras(&Vec::new(), false).unwrap().len(), 0);
}

#[test]
fn error_message() {
    assert_eq!(INVALID.message(), "Must be tuple struct with one item");
}

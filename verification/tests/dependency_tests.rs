//! Identifier extraction, the builtin table, evaluation order and cycle
//! detection.

use gdml_studio::dependency::{
    builtin_scalar_names, collect_define_entries, extract_identifiers, is_builtin_function,
    quantity_length_unit, topological_sort, DefineEntry, EvalError,
};
use gdml_studio::parser::parse_gdml_from_bytes;

fn entry(name: &str, expression: &str) -> DefineEntry {
    DefineEntry { name: String::from(name), expression: String::from(expression) }
}

#[test]
fn extract_simple_identifiers() {
    let ids = extract_identifiers("a*2 + sin(theta_0) - _x");
    assert_eq!(ids, vec![String::from("a"), String::from("theta_0"), String::from("_x")]);
}

#[test]
fn extract_keeps_duplicates() {
    let ids = extract_identifiers("a + a*a");
    assert_eq!(ids, vec![String::from("a"), String::from("a"), String::from("a")]);
}

#[test]
fn extract_ignores_builtins_and_numbers() {
    let ids = extract_identifiers("sqrt(2.5) + max(pi_val, cos(x))");
    assert_eq!(ids, vec![String::from("pi_val"), String::from("x")]);
}

#[test]
fn builtin_function_table() {
    for name in ["sin", "cos", "atan2", "log10", "exp2", "if", "true", "false", "pow"] {
        assert!(is_builtin_function(name), "{} should be a builtin", name);
    }
    assert!(!is_builtin_function("pi"));
    assert!(!is_builtin_function("sine"));
    assert!(!is_builtin_function(""));
}

#[test]
fn sort_respects_dependencies() {
    // the S4 chain: a = 1, b = a*2, c = b+a
    let entries = vec![entry("c", "b+a"), entry("b", "a*2"), entry("a", "1")];
    let known = builtin_scalar_names();
    let order = topological_sort(&entries, &known).expect("acyclic");
    assert_eq!(order.len(), 3);
    let pos = |i: usize| order.iter().position(|&x| x == i).unwrap();
    assert!(pos(2) < pos(1), "a before b");
    assert!(pos(1) < pos(0), "b before c");
    assert!(pos(2) < pos(0), "a before c");
}

#[test]
fn sort_cycle_reports_both_names() {
    let entries = vec![entry("a", "b+1"), entry("b", "a+1")];
    let known = builtin_scalar_names();
    match topological_sort(&entries, &known) {
        Err(EvalError::CyclicDependency { names }) => {
            assert_eq!(names, vec![String::from("a"), String::from("b")]);
        }
        Ok(_) => panic!("a cycle must be rejected"),
    }
}

#[test]
fn sort_cycle_reports_downstream_entries_too() {
    // c is not on the cycle, but it can never drain: it waits on a
    let entries = vec![entry("a", "b+1"), entry("b", "a+1"), entry("c", "a")];
    let known = builtin_scalar_names();
    match topological_sort(&entries, &known) {
        Err(EvalError::CyclicDependency { names }) => {
            assert_eq!(
                names,
                vec![String::from("a"), String::from("b"), String::from("c")]
            );
        }
        Ok(_) => panic!("a cycle must be rejected"),
    }
}

#[test]
fn sort_ignores_preseeded_names() {
    // pi is pre-seeded, so "2*pi" has no dependencies
    let entries = vec![entry("tau", "2*pi")];
    let known = builtin_scalar_names();
    let order = topological_sort(&entries, &known).expect("acyclic");
    assert_eq!(order, vec![0]);
}

#[test]
fn sort_self_reference_is_not_a_dependency() {
    // an entry referencing its own name resolves to itself and is skipped
    let entries = vec![entry("x", "x+1")];
    let known = builtin_scalar_names();
    assert_eq!(topological_sort(&entries, &known), Ok(vec![0]));
}

#[test]
fn sort_duplicate_names_resolve_to_last() {
    // the reference "a" resolves to the last entry named a, which is free
    let entries = vec![entry("a", "b"), entry("b", "a"), entry("a", "1")];
    let known = builtin_scalar_names();
    let order = topological_sort(&entries, &known).expect("acyclic");
    assert_eq!(order.len(), 3);
}

#[test]
fn collect_entries_in_section_order() {
    let doc = parse_gdml_from_bytes(
        br#"<gdml><define>
            <variable name="v" value="3"/>
            <constant name="c" value="1"/>
            <quantity name="q" value="2"/>
            <expression name="e">c+v</expression>
        </define></gdml>"#,
        String::from("t.gdml"),
    )
    .unwrap();
    let entries = collect_define_entries(&doc.defines);
    let names: Vec<&str> = entries.iter().map(|e| e.name.as_str()).collect();
    assert_eq!(names, vec!["c", "q", "v", "e"]);
    assert_eq!(entries[3].expression, "c+v");
}

#[test]
fn quantity_length_conversion_lookup() {
    let doc = parse_gdml_from_bytes(
        br#"<gdml><define>
            <quantity name="t" type="length" value="5" unit="cm"/>
            <quantity name="d" type="density" value="1" unit="g/cm3"/>
            <quantity name="raw" value="7"/>
        </define></gdml>"#,
        String::from("t.gdml"),
    )
    .unwrap();
    assert_eq!(quantity_length_unit(&doc.defines, "t"), Some(String::from("cm")));
    assert_eq!(quantity_length_unit(&doc.defines, "d"), None);
    assert_eq!(quantity_length_unit(&doc.defines, "raw"), None);
    assert_eq!(quantity_length_unit(&doc.defines, "missing"), None);
}

#[test]
fn evaluation_in_order_yields_chain_values() {
    // a = 1, b = a*2, c = b+a evaluate to 1, 2, 3 when run in the
    // library's dependency order
    let doc = parse_gdml_from_bytes(
        br#"<gdml><define>
            <variable name="a" value="1"/>
            <constant name="b" value="a*2"/>
            <expression name="c">b+a</expression>
        </define></gdml>"#,
        String::from("t.gdml"),
    )
    .unwrap();
    let entries = collect_define_entries(&doc.defines);
    let known = builtin_scalar_names();
    let order = topological_sort(&entries, &known).expect("acyclic");
    let mut table: std::collections::HashMap<String, f64> = std::collections::HashMap::new();
    for idx in order {
        let e = &entries[idx];
        let value = if let Ok(v) = e.expression.parse::<f64>() {
            v
        } else {
            let mut ctx: evalexpr::HashMapContext<evalexpr::DefaultNumericTypes> =
                evalexpr::HashMapContext::new();
            for (k, v) in &table {
                evalexpr::ContextWithMutableVariables::set_value(
                    &mut ctx,
                    k.clone(),
                    evalexpr::Value::Float(*v),
                )
                .unwrap();
            }
            evalexpr::eval_number_with_context(&e.expression, &ctx).unwrap()
        };
        table.insert(e.name.clone(), value);
    }
    assert_eq!(table["a"], 1.0);
    assert_eq!(table["b"], 2.0);
    assert_eq!(table["c"], 3.0);
}

#[test]
fn quantity_length_stored_in_millimetres() {
    // a length quantity of 5 cm stores as 50 mm
    let doc = parse_gdml_from_bytes(
        br#"<gdml><define>
            <quantity name="t" type="length" value="5" unit="cm"/>
        </define></gdml>"#,
        String::from("t.gdml"),
    )
    .unwrap();
    let unit = quantity_length_unit(&doc.defines, "t").expect("length quantity");
    let (num, den) = gdml_studio::units::length_unit_num(&unit);
    let stored = 5.0f64 * num as f64 / den as f64;
    assert_eq!(stored, 50.0);
}

#[test]
fn preseeded_scalar_names() {
    let names = builtin_scalar_names();
    assert_eq!(
        names,
        vec![String::from("pi"), String::from("PI"), String::from("e"), String::from("TWOPI")]
    );
}

use pcb_toolkit::ohms_law::{eir_unknown, EirUnknown};
use pcb_toolkit::params::{bool_or, list_tokens, str_or, ParamValue};

#[test]
fn list_tokens_splits_on_commas_and_white_space() {
    assert_eq!(list_tokens("100, 220, 470"), vec!["100", "220", "470"]);
    assert_eq!(list_tokens("10e-9,10e-9"), vec!["10e-9", "10e-9"]);
    assert_eq!(list_tokens("  1\t2\n3 ,, 4,"), vec!["1", "2", "3", "4"]);
    assert_eq!(list_tokens(""), Vec::<String>::new());
    assert_eq!(list_tokens(" , ,\t"), Vec::<String>::new());
    assert_eq!(list_tokens("x"), vec!["x"]);
    assert_eq!(list_tokens("1\u{00A0}2\u{3000}3"), vec!["1", "2", "3"]);
}

#[test]
fn bool_or_reads_flags_and_text() {
    assert!(bool_or(Some(&ParamValue::Bool(true)), false));
    assert!(!bool_or(Some(&ParamValue::Bool(false)), true));
    assert!(bool_or(Some(&ParamValue::Text("true".to_string())), false));
    assert!(!bool_or(Some(&ParamValue::Text("True".to_string())), true));
    assert!(!bool_or(Some(&ParamValue::Text("yes".to_string())), true));
    assert!(bool_or(Some(&ParamValue::Number), true));
    assert!(!bool_or(Some(&ParamValue::Null), false));
    assert!(bool_or(None, true));
}

#[test]
fn str_or_reads_non_empty_text() {
    let v = ParamValue::Text("square".to_string());
    assert_eq!(str_or(Some(&v), "circle"), "square");
    let empty = ParamValue::Text(String::new());
    assert_eq!(str_or(Some(&empty), "circle"), "circle");
    assert_eq!(str_or(Some(&ParamValue::Bool(true)), "b1"), "b1");
    assert_eq!(str_or(Some(&ParamValue::List), "b1"), "b1");
    assert_eq!(str_or(None, "none"), "none");
}

#[test]
fn eir_solves_for_the_missing_quantity() {
    assert_eq!(eir_unknown(true, true, false), Some(EirUnknown::Resistance));
    assert_eq!(eir_unknown(true, false, true), Some(EirUnknown::Current));
    assert_eq!(eir_unknown(false, true, true), Some(EirUnknown::Voltage));
}

#[test]
fn eir_needs_exactly_two_inputs() {
    assert_eq!(eir_unknown(true, false, false), None);
    assert_eq!(eir_unknown(true, true, true), None);
    assert_eq!(eir_unknown(false, false, false), None);
    assert_eq!(eir_unknown(false, true, false), None);
}

use m3c::literals::{
    LabelIdentifierLiteral, Literal, StringLiteral, VariableIdentifierLiteral, VariableValueLiteral,
};
use m3c::utils::EnumerateWithPosition;

#[test]
fn new_from_string() {
    let s = "012:";
    let last_char = Some((3, ':'));
    let expected_literal = (
        LabelIdentifierLiteral::new_from_array([b'0', b'1', b'2', 0]).unwrap(),
        last_char,
    );
    let actual_literal = LabelIdentifierLiteral::new_from_enumerate(&mut EnumerateWithPosition::new(s));
    assert_eq!(expected_literal, actual_literal);
}

#[test]
fn new_from_one_chars() {
    let s = "0:";
    let last_char = Some((1, ':'));
    let expected_literal = (LabelIdentifierLiteral::new_from_array([b'0', 0, 0, 0]).unwrap(), last_char);
    let actual_literal = LabelIdentifierLiteral::new_from_enumerate(&mut EnumerateWithPosition::new(s));
    assert_eq!(expected_literal, actual_literal);
}

#[test]
fn new_from_empty() {
    let s = "";
    let last_char = None;
    let expected_literal = (LabelIdentifierLiteral::new_from_array([0, 0, 0, 0]).unwrap(), last_char);
    let actual_literal = LabelIdentifierLiteral::new_from_enumerate(&mut EnumerateWithPosition::new(s));
    assert_eq!(expected_literal, actual_literal);
}

#[test]
fn new_from_enumerate_empty_string() {
    let s = "";
    let last_char = None;
    let expected_literal = (VariableValueLiteral::new_from_value(0).unwrap(), last_char);
    let actual_literal = VariableValueLiteral::new_from_enumerate(&mut EnumerateWithPosition::new(s));
    assert_eq!(expected_literal, actual_literal);
}

#[test]
fn new_from_enumerate_only_last_char() {
    let s = ")";
    let last_char = Some((0, ')'));
    let expected_literal = (VariableValueLiteral::new_from_value(0).unwrap(), last_char);
    let actual_literal = VariableValueLiteral::new_from_enumerate(&mut EnumerateWithPosition::new(s));
    assert_eq!(expected_literal, actual_literal);
}

#[test]
fn new_from_enumerate_minus_one() {
    let s = "-1)";
    let last_char = Some((2, ')'));
    let expected_literal = (VariableValueLiteral::new_from_value(-1).unwrap(), last_char);
    let actual_literal = VariableValueLiteral::new_from_enumerate(&mut EnumerateWithPosition::new(s));
    assert_eq!(expected_literal, actual_literal);
}

#[test]
fn new_from_enumerate_min() {
    let s = "-9999)";
    let last_char = Some((5, ')'));
    let expected_literal = (VariableValueLiteral::new_from_value(-9_999).unwrap(), last_char);
    let actual_literal = VariableValueLiteral::new_from_enumerate(&mut EnumerateWithPosition::new(s));
    assert_eq!(expected_literal, actual_literal);
}

#[test]
fn new_from_enumerate_max() {
    let s = "99999)";
    let last_char = Some((5, ')'));
    let expected_literal = (VariableValueLiteral::new_from_value(99_999).unwrap(), last_char);
    let actual_literal = VariableValueLiteral::new_from_enumerate(&mut EnumerateWithPosition::new(s));
    assert_eq!(expected_literal, actual_literal);
}

#[test]
fn new_from_enumerate_max_and_no_last_item() {
    let s = "99999";
    let last_char = None;
    let expected_literal = (VariableValueLiteral::new_from_value(99_999).unwrap(), last_char);
    let actual_literal = VariableValueLiteral::new_from_enumerate(&mut EnumerateWithPosition::new(s));
    assert_eq!(expected_literal, actual_literal);
}

fn dump_value(v: i32) -> String {
    let mut s = String::new();
    VariableValueLiteral::new_from_value(v).unwrap().dumps_to(&mut s);
    s
}

#[test]
fn value_round_trip_at_boundaries() {
    for v in [0, -9_999, 99_999, -1, 7, 10, 4_321] {
        let text = dump_value(v);
        let mut e = EnumerateWithPosition::new(&text);
        let (lit, next) = VariableValueLiteral::new_from_enumerate(&mut e);
        assert_eq!(lit.data(), v);
        assert_eq!(next, None);
    }
    assert_eq!(dump_value(-9_999), "-9999");
    assert_eq!(dump_value(99_999), "99999");
    assert_eq!(dump_value(0), "0");
}

#[test]
fn identifier_round_trip_at_boundaries() {
    for data in [[0, 0, 0, 0], [b'a', b'B', b'9', 0], [b'x', 0, 0, 0]] {
        let lit = LabelIdentifierLiteral::new_from_array(data).unwrap();
        let mut text = String::new();
        lit.dumps_to(&mut text);
        text.push('|');
        let (back, next) = LabelIdentifierLiteral::new_from_enumerate(&mut EnumerateWithPosition::new(&text));
        assert_eq!(back, lit);
        assert_eq!(next, Some((lit.len(), '|')));
    }
}

#[test]
fn identifier_extra_chars_are_consumed_and_dropped() {
    let (lit, next) = StringLiteral::new_from_enumerate(&mut EnumerateWithPosition::new("abcdef}"));
    assert_eq!(lit.data(), [b'a', b'b', b'c', 0]);
    assert_eq!(next, Some((6, '}')));
}

#[test]
fn value_keeps_five_characters() {
    let (lit, next) = VariableValueLiteral::new_from_enumerate(&mut EnumerateWithPosition::new("1234567)"));
    assert_eq!(lit.data(), 12_345);
    assert_eq!(next, Some((7, ')')));
    let (lit, _) = VariableValueLiteral::new_from_enumerate(&mut EnumerateWithPosition::new("-123456"));
    assert_eq!(lit.data(), -1_234);
    let (lit, next) = VariableValueLiteral::new_from_enumerate(&mut EnumerateWithPosition::new("5-3"));
    assert_eq!(lit.data(), 5);
    assert_eq!(next, Some((1, '-')));
}

#[test]
fn new_from_array_rejects_illegal_chars() {
    let err = VariableIdentifierLiteral::new_from_array([b'a', b'-', b'b', 0]).unwrap_err();
    assert_eq!(err.index(), 1);
    let err = LabelIdentifierLiteral::new_from_array([b' ', 0, 0, 0]).unwrap_err();
    assert_eq!(err.index(), 0);
    let ok = StringLiteral::new_from_array([b'a', 0, b'b', 0]).unwrap();
    assert_eq!(ok.len(), 1);
    assert!(!ok.is_empty());
    let ok = StringLiteral::new_from_array([b'a', b'b', b'c', b'!']).unwrap();
    assert_eq!(ok.data(), [b'a', b'b', b'c', 0]);
}

#[test]
fn variable_value_range() {
    assert!(VariableValueLiteral::new_from_value(-10_000).is_err());
    assert!(VariableValueLiteral::new_from_value(100_000).is_err());
    assert_eq!(VariableValueLiteral::new_from_value(-9_999).unwrap().data(), -9_999);
}

#[test]
fn literal_write_as_bytes() {
    let mut buf = vec![];
    VariableValueLiteral::new_from_value(-42).unwrap().write(&mut buf);
    LabelIdentifierLiteral::new_from_array([b'h', b'i', 0, 0]).unwrap().write(&mut buf);
    assert_eq!(buf, b"-42hi".to_vec());
}

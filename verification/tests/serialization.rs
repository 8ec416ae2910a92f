//! Conversion tests: each source shape through `pythonize`, checked against
//! the canonical compact text rendering of the result.

use pythonize::json::to_json;
use pythonize::ser::pythonize;
use pythonize::value::{PyValue, SourceValue};

fn test_ser(src: SourceValue, expected: &str) {
    let obj = pythonize(&src).expect("conversion with the default types succeeds");
    assert_eq!(to_json(&obj), expected);
}

fn s(text: &str) -> String {
    text.to_string()
}

#[test]
fn test_empty_struct() {
    test_ser(SourceValue::UnitStruct(s("Empty")), "null");
}

#[test]
fn test_struct() {
    test_ser(
        SourceValue::Struct(
            s("Struct"),
            vec![
                (s("foo"), SourceValue::Str(s("foo"))),
                (s("bar"), SourceValue::U64(5)),
            ],
        ),
        r#"{"foo":"foo","bar":5}"#,
    );
}

#[test]
fn test_nested_struct() {
    test_ser(
        SourceValue::Struct(
            s("Foo"),
            vec![
                (s("name"), SourceValue::Str(s("foo"))),
                (
                    s("bar"),
                    SourceValue::Struct(s("Bar"), vec![(s("name"), SourceValue::Str(s("bar")))]),
                ),
            ],
        ),
        r#"{"name":"foo","bar":{"name":"bar"}}"#,
    );
}

#[test]
fn test_tuple_struct() {
    test_ser(
        SourceValue::TupleStruct(
            s("TupleStruct"),
            vec![SourceValue::Str(s("foo")), SourceValue::U64(5)],
        ),
        r#"["foo",5]"#,
    );
}

#[test]
fn test_tuple() {
    test_ser(
        SourceValue::Tuple(vec![SourceValue::Str(s("foo")), SourceValue::I32(5)]),
        r#"["foo",5]"#,
    );
}

#[test]
fn test_vec() {
    test_ser(
        SourceValue::Sequence(vec![
            SourceValue::I32(1),
            SourceValue::I32(2),
            SourceValue::I32(3),
        ]),
        r#"[1,2,3]"#,
    );
}

#[test]
fn test_map() {
    test_ser(
        SourceValue::Mapping(vec![(SourceValue::Str(s("foo")), SourceValue::Str(s("foo")))]),
        r#"{"foo":"foo"}"#,
    );
}

#[test]
fn test_enum_unit_variant() {
    test_ser(
        SourceValue::UnitVariant(s("E"), 0, s("Empty")),
        r#""Empty""#,
    );
}

#[test]
fn test_enum_tuple_variant() {
    test_ser(
        SourceValue::TupleVariant(
            s("E"),
            0,
            s("Tuple"),
            vec![SourceValue::I32(5), SourceValue::Str(s("foo"))],
        ),
        r#"{"Tuple":[5,"foo"]}"#,
    );
}

#[test]
fn test_enum_newtype_variant() {
    test_ser(
        SourceValue::NewtypeVariant(
            s("E"),
            0,
            s("NewType"),
            Box::new(SourceValue::Str(s("foo"))),
        ),
        r#"{"NewType":"foo"}"#,
    );
}

#[test]
fn test_enum_struct_variant() {
    test_ser(
        SourceValue::StructVariant(
            s("E"),
            0,
            s("Struct"),
            vec![
                (s("foo"), SourceValue::Str(s("foo"))),
                (s("bar"), SourceValue::U64(5)),
            ],
        ),
        r#"{"Struct":{"foo":"foo","bar":5}}"#,
    );
}

#[test]
fn test_integers() {
    test_ser(
        SourceValue::Struct(
            s("Integers"),
            vec![
                (s("a"), SourceValue::I8(1)),
                (s("b"), SourceValue::I16(2)),
                (s("c"), SourceValue::I32(3)),
                (s("d"), SourceValue::I64(4)),
                (s("e"), SourceValue::U8(5)),
                (s("f"), SourceValue::U16(6)),
                (s("g"), SourceValue::U32(7)),
                (s("h"), SourceValue::U64(8)),
            ],
        ),
        r#"{"a":1,"b":2,"c":3,"d":4,"e":5,"f":6,"g":7,"h":8}"#,
    );
}

#[test]
fn test_char() {
    test_ser(
        SourceValue::Struct(s("Char"), vec![(s("a"), SourceValue::Char('a'))]),
        r#"{"a":"a"}"#,
    );
}

#[test]
fn test_bool() {
    test_ser(SourceValue::Bool(true), "true");
    test_ser(SourceValue::Bool(false), "false");
}

#[test]
fn test_none() {
    test_ser(SourceValue::Unit, "null");
    test_ser(SourceValue::UnitStruct(s("S")), "null");

    test_ser(
        SourceValue::Present(Box::new(SourceValue::I32(1))),
        "1",
    );
    test_ser(SourceValue::Absent, "null");
}

#[test]
fn test_bytes() {
    // A plain byte array presents as a tuple of integers, not a byte scalar.
    test_ser(
        SourceValue::Tuple(vec![
            SourceValue::U8(102),
            SourceValue::U8(111),
            SourceValue::U8(111),
        ]),
        "[102,111,111]",
    );

    let obj = pythonize(&SourceValue::Bytes(b"foo".to_vec()))
        .expect("bytes will always serialize successfully");
    match obj {
        PyValue::Bytes(b) => assert_eq!(b, b"foo".to_vec()),
        _ => panic!("bytes will always compare successfully"),
    }
}

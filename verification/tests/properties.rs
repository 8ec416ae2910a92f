//! Concrete instances of the library's general properties, edge cases of the
//! renderer, the customizable type set, and cross-checks of the canonical
//! encoding against a reference JSON encoder.

use pythonize::json::to_json;
use pythonize::ser::{pythonize, pythonize_custom, PythonizeTuples};
use pythonize::value::{PyValue, SourceValue};

fn s(text: &str) -> String {
    text.to_string()
}

fn convert(src: SourceValue) -> PyValue {
    pythonize(&src).expect("conversion with the default types succeeds")
}

#[test]
fn round_trip_nested_value() {
    // A value exercising every container shape at once renders identically
    // to its reference serialization.
    let src = SourceValue::Struct(
        s("Outer"),
        vec![
            (
                s("items"),
                SourceValue::Sequence(vec![
                    SourceValue::I64(-7),
                    SourceValue::Present(Box::new(SourceValue::Bool(true))),
                    SourceValue::Absent,
                ]),
            ),
            (
                s("pairs"),
                SourceValue::Mapping(vec![
                    (SourceValue::Str(s("k1")), SourceValue::U32(1)),
                    (SourceValue::Str(s("k2")), SourceValue::Unit),
                ]),
            ),
            (
                s("variant"),
                SourceValue::NewtypeVariant(
                    s("E"),
                    3,
                    s("Wrapped"),
                    Box::new(SourceValue::Tuple(vec![
                        SourceValue::Char('x'),
                        SourceValue::I8(-1),
                    ])),
                ),
            ),
        ],
    );
    assert_eq!(
        to_json(&convert(src)),
        r#"{"items":[-7,true,null],"pairs":{"k1":1,"k2":null},"variant":{"Wrapped":["x",-1]}}"#,
    );
}

#[test]
fn shape_determinism_on_content() {
    // Two structs of the same shape but different content give the same
    // structural kind of output.
    let a = convert(SourceValue::Struct(
        s("S"),
        vec![(s("x"), SourceValue::I32(1))],
    ));
    let b = convert(SourceValue::Struct(
        s("S"),
        vec![(s("x"), SourceValue::I32(-999))],
    ));
    assert!(matches!(a, PyValue::Dict(_)));
    assert!(matches!(b, PyValue::Dict(_)));
}

#[test]
fn map_pairing_counts() {
    // A map of three pairs becomes a mapping of exactly three entries, in
    // insertion order, with the converted keys.
    let src = SourceValue::Mapping(vec![
        (SourceValue::Str(s("a")), SourceValue::I32(1)),
        (SourceValue::Str(s("b")), SourceValue::I32(2)),
        (SourceValue::Str(s("c")), SourceValue::I32(3)),
    ]);
    match convert(src) {
        PyValue::Dict(entries) => {
            assert_eq!(entries.len(), 3);
            let keys: Vec<String> = entries
                .iter()
                .map(|(k, _)| to_json(k))
                .collect();
            assert_eq!(keys, vec![r#""a""#, r#""b""#, r#""c""#]);
        }
        _ => panic!("a map converts to a mapping"),
    }
}

#[test]
fn variant_wrapping_all_four_kinds() {
    assert_eq!(
        to_json(&convert(SourceValue::UnitVariant(s("E"), 0, s("Empty")))),
        r#""Empty""#
    );
    assert_eq!(
        to_json(&convert(SourceValue::NewtypeVariant(
            s("E"),
            1,
            s("NewType"),
            Box::new(SourceValue::Str(s("foo"))),
        ))),
        r#"{"NewType":"foo"}"#
    );
    assert_eq!(
        to_json(&convert(SourceValue::TupleVariant(
            s("E"),
            2,
            s("Tuple"),
            vec![SourceValue::I32(5), SourceValue::Str(s("foo"))],
        ))),
        r#"{"Tuple":[5,"foo"]}"#
    );
    assert_eq!(
        to_json(&convert(SourceValue::StructVariant(
            s("E"),
            3,
            s("Struct"),
            vec![
                (s("foo"), SourceValue::Str(s("foo"))),
                (s("bar"), SourceValue::U64(5)),
            ],
        ))),
        r#"{"Struct":{"foo":"foo","bar":5}}"#
    );
}

#[test]
fn null_law_instances() {
    assert!(matches!(convert(SourceValue::Unit), PyValue::Null));
    assert!(matches!(
        convert(SourceValue::UnitStruct(s("Unit"))),
        PyValue::Null
    ));
    assert!(matches!(convert(SourceValue::Absent), PyValue::Null));
    assert_eq!(
        to_json(&convert(SourceValue::Present(Box::new(SourceValue::I32(1))))),
        "1"
    );
}

#[test]
fn empty_containers() {
    assert_eq!(to_json(&convert(SourceValue::Sequence(vec![]))), "[]");
    assert_eq!(to_json(&convert(SourceValue::Tuple(vec![]))), "[]");
    assert_eq!(to_json(&convert(SourceValue::Mapping(vec![]))), "{}");
    assert_eq!(to_json(&convert(SourceValue::Struct(s("S"), vec![]))), "{}");
    assert_eq!(to_json(&convert(SourceValue::Str(s("")))), r#""""#);
    assert_eq!(to_json(&convert(SourceValue::Bytes(vec![]))), "[]");
}

#[test]
fn integer_extremes() {
    assert_eq!(
        to_json(&convert(SourceValue::I64(i64::MIN))),
        "-9223372036854775808"
    );
    assert_eq!(
        to_json(&convert(SourceValue::U64(u64::MAX))),
        "18446744073709551615"
    );
    assert_eq!(to_json(&convert(SourceValue::I64(0))), "0");
    assert_eq!(
        to_json(&PyValue::Int(i128::MIN)),
        "-170141183460469231731687303715884105728"
    );
    assert_eq!(
        to_json(&PyValue::Int(i128::MAX)),
        "170141183460469231731687303715884105727"
    );
}

#[test]
fn string_escaping_matches_reference_encoder() {
    let tricky = "a\"b\\c\nd\re\tf\u{8}g\u{c}h\u{1f}i\u{7f}j\u{e9}";
    let expected = serde_json::to_string(tricky).expect("reference encoding succeeds");
    assert_eq!(to_json(&convert(SourceValue::Str(s(tricky)))), expected);
}

#[test]
fn byte_scalar_renders_as_integer_array() {
    assert_eq!(
        to_json(&convert(SourceValue::Bytes(vec![0, 127, 255]))),
        "[0,127,255]"
    );
}

#[test]
fn custom_type_set_builds_tuples() {
    // The alternate type set binds sequences to the tuple representation,
    // and nested sequences honor it too.
    let src = SourceValue::Sequence(vec![
        SourceValue::I32(1),
        SourceValue::Sequence(vec![SourceValue::I32(2)]),
    ]);
    let obj = pythonize_custom::<PythonizeTuples>(&src)
        .expect("conversion with the tuple types succeeds");
    match &obj {
        PyValue::Tuple(items) => {
            assert_eq!(items.len(), 2);
            assert!(matches!(items[1], PyValue::Tuple(_)));
        }
        _ => panic!("the custom type set builds tuples"),
    }
    assert_eq!(to_json(&obj), "[1,[2]]");
}

#[test]
fn round_trip_against_reference_encoder() {
    // The same structured value, built once as a source value and once as a
    // reference JSON document, renders byte-identically.
    // The reference encoder emits object keys in sorted order, so the source
    // struct lists its fields in that same order.
    let src = SourceValue::Struct(
        s("Doc"),
        vec![
            (
                s("counts"),
                SourceValue::Sequence(vec![SourceValue::I32(1), SourceValue::I32(-2)]),
            ),
            (s("flag"), SourceValue::Bool(false)),
            (s("missing"), SourceValue::Absent),
            (s("name"), SourceValue::Str(s("pythonize"))),
        ],
    );

    let mut doc = serde_json::Map::new();
    doc.insert(s("name"), serde_json::Value::String(s("pythonize")));
    doc.insert(
        s("counts"),
        serde_json::Value::Array(vec![
            serde_json::Value::from(1),
            serde_json::Value::from(-2),
        ]),
    );
    doc.insert(s("flag"), serde_json::Value::Bool(false));
    doc.insert(s("missing"), serde_json::Value::Null);
    let expected =
        serde_json::to_string(&serde_json::Value::Object(doc)).expect("reference encoding succeeds");

    assert_eq!(to_json(&convert(src)), expected);
}

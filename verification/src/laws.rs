//! The laws the serializer is held to: round-trip fidelity against the
//! canonical text encoding, shape determinism, the map pairing invariant,
//! the variant-wrapping convention and the null normalization.

use vstd::prelude::*;

use crate::json::{
    json_of_py, json_of_py_entries, json_of_py_items, json_of_source, json_of_source_fields,
    json_of_source_items, json_of_source_pairs,
};
use crate::ser::{
    lemma_pythonized_all, lemma_pythonized_fields, lemma_pythonized_pairs, pythonized,
    pythonized_all, pythonized_fields, pythonized_pairs, PythonizeListType, PythonizeTypes,
};
use crate::value::{PyV, SourceV};

verus! {

/// Round-trip equivalence: for every source value and every type set,
/// rendering the converted foreign value through the canonical compact text
/// encoding yields exactly the canonical rendering of the source value
/// itself.
pub proof fn lemma_round_trip<P: PythonizeTypes>(v: SourceV)
    ensures
        json_of_py(pythonized::<P>(v)) == json_of_source(v),
    decreases v, 2int,
{
    match v {
        SourceV::NewtypeStruct(_, b) => {
            lemma_round_trip::<P>(*b);
        },
        SourceV::Present(b) => {
            lemma_round_trip::<P>(*b);
        },
        SourceV::Sequence(items) => {
            lemma_round_trip_sequence::<P>(items);
        },
        SourceV::Tuple(items) => {
            lemma_round_trip_sequence::<P>(items);
        },
        SourceV::TupleStruct(_, items) => {
            lemma_round_trip_sequence::<P>(items);
        },
        SourceV::Mapping(pairs) => {
            lemma_round_trip_pairs::<P>(pairs);
        },
        SourceV::Struct(_, fields) => {
            lemma_round_trip_fields::<P>(fields);
        },
        SourceV::NewtypeVariant(_, _, var, b) => {
            lemma_round_trip::<P>(*b);
            let entry = (PyV::Str(var), pythonized::<P>(*b));
            assert(json_of_py_entries(seq![entry]) == json_of_py(entry.0) + seq![':'] + json_of_py(
                entry.1,
            ));
            assert(json_of_py(pythonized::<P>(v)) =~= json_of_source(v));
        },
        SourceV::TupleVariant(_, _, var, items) => {
            lemma_round_trip_sequence::<P>(items);
            let entry = (PyV::Str(var), crate::ser::sequence_model_of::<P>(pythonized_all::<P>(items)));
            assert(json_of_py_entries(seq![entry]) == json_of_py(entry.0) + seq![':'] + json_of_py(
                entry.1,
            ));
            assert(json_of_py(pythonized::<P>(v)) =~= json_of_source(v));
        },
        SourceV::StructVariant(_, _, var, fields) => {
            lemma_round_trip_fields::<P>(fields);
            let entry = (PyV::Str(var), PyV::Dict(pythonized_fields::<P>(fields)));
            assert(json_of_py_entries(seq![entry]) == json_of_py(entry.0) + seq![':'] + json_of_py(
                entry.1,
            ));
            assert(json_of_py(pythonized::<P>(v)) =~= json_of_source(v));
        },
        _ => {},
    }
}

/// The configured sequence type renders as an array of the items' renderings,
/// which match the source items' renderings one by one.
pub proof fn lemma_round_trip_sequence<P: PythonizeTypes>(items: Seq<SourceV>)
    ensures
        json_of_py(crate::ser::sequence_model_of::<P>(pythonized_all::<P>(items))) == seq!['[']
            + json_of_source_items(items) + seq![']'],
    decreases items, 1int,
{
    <P::List as PythonizeListType>::sequence_model_is_sequence(pythonized_all::<P>(items));
    lemma_round_trip_items::<P>(items);
}

/// The converted elements render, comma-joined, exactly as the source
/// elements do.
pub proof fn lemma_round_trip_items<P: PythonizeTypes>(s: Seq<SourceV>)
    ensures
        json_of_py_items(pythonized_all::<P>(s)) == json_of_source_items(s),
    decreases s, 0int,
{
    lemma_pythonized_all::<P>(s);
    if s.len() > 0 {
        lemma_round_trip::<P>(s[0]);
        lemma_round_trip_items::<P>(s.drop_first());
        assert(pythonized_all::<P>(s).drop_first() =~= pythonized_all::<P>(s.drop_first()));
        if s.len() == 1 {
            assert(json_of_py_items(pythonized_all::<P>(s)) == json_of_source_items(s));
        } else {
            assert(json_of_py_items(pythonized_all::<P>(s)) =~= json_of_source_items(s));
        }
    }
}

/// The converted map entries render, comma-joined, exactly as the source
/// pairs do.
pub proof fn lemma_round_trip_pairs<P: PythonizeTypes>(s: Seq<(SourceV, SourceV)>)
    ensures
        json_of_py_entries(pythonized_pairs::<P>(s)) == json_of_source_pairs(s),
    decreases s, 0int,
{
    lemma_pythonized_pairs::<P>(s);
    if s.len() > 0 {
        lemma_round_trip::<P>(s[0].0);
        lemma_round_trip::<P>(s[0].1);
        lemma_round_trip_pairs::<P>(s.drop_first());
        assert(pythonized_pairs::<P>(s).drop_first() =~= pythonized_pairs::<P>(s.drop_first()));
        assert(json_of_py_entries(pythonized_pairs::<P>(s)) =~= json_of_source_pairs(s));
    }
}

/// The converted struct fields render, comma-joined, exactly as the source
/// fields do, the static names as quoted string keys.
pub proof fn lemma_round_trip_fields<P: PythonizeTypes>(s: Seq<(Seq<char>, SourceV)>)
    ensures
        json_of_py_entries(pythonized_fields::<P>(s)) == json_of_source_fields(s),
    decreases s, 0int,
{
    lemma_pythonized_fields::<P>(s);
    if s.len() > 0 {
        lemma_round_trip::<P>(s[0].1);
        lemma_round_trip_fields::<P>(s.drop_first());
        assert(pythonized_fields::<P>(s).drop_first() =~= pythonized_fields::<P>(s.drop_first()));
        assert(pythonized_fields::<P>(s)[0] == (PyV::Str(s[0].0), pythonized::<P>(s[0].1)));
        assert(json_of_py(PyV::Str(s[0].0)) == crate::json::quoted(s[0].0));
        assert(json_of_py_entries(pythonized_fields::<P>(s)) =~= json_of_source_fields(s));
    }
}

/// The structural kind of a foreign value: null, an atomic scalar, an
/// ordered sequence or a mapping.
pub ghost enum OutputKind {
    Null,
    Scalar,
    Sequence,
    Mapping,
}

/// The kind a foreign value actually has.
pub open spec fn py_kind(p: PyV) -> OutputKind {
    match p {
        PyV::Null => OutputKind::Null,
        PyV::Bool(_) => OutputKind::Scalar,
        PyV::Int(_) => OutputKind::Scalar,
        PyV::Str(_) => OutputKind::Scalar,
        PyV::Bytes(_) => OutputKind::Scalar,
        PyV::List(_) => OutputKind::Sequence,
        PyV::Tuple(_) => OutputKind::Sequence,
        PyV::Dict(_) => OutputKind::Mapping,
    }
}

/// The kind the output of a source value must have, read off the source
/// shape alone: no scalar content, element value or field value is
/// inspected, only the shape skeleton (including option presence and
/// enum-variant selection, which are part of the shape).
pub open spec fn shape_kind(v: SourceV) -> OutputKind
    decreases v,
{
    match v {
        SourceV::Bool(_) => OutputKind::Scalar,
        SourceV::Int(_) => OutputKind::Scalar,
        SourceV::Char(_) => OutputKind::Scalar,
        SourceV::Str(_) => OutputKind::Scalar,
        SourceV::Bytes(_) => OutputKind::Scalar,
        SourceV::Unit => OutputKind::Null,
        SourceV::UnitStruct(_) => OutputKind::Null,
        SourceV::NewtypeStruct(_, b) => shape_kind(*b),
        SourceV::Absent => OutputKind::Null,
        SourceV::Present(b) => shape_kind(*b),
        SourceV::Sequence(_) => OutputKind::Sequence,
        SourceV::Tuple(_) => OutputKind::Sequence,
        SourceV::TupleStruct(_, _) => OutputKind::Sequence,
        SourceV::Mapping(_) => OutputKind::Mapping,
        SourceV::Struct(_, _) => OutputKind::Mapping,
        SourceV::UnitVariant(_, _, _) => OutputKind::Scalar,
        SourceV::NewtypeVariant(_, _, _, _) => OutputKind::Mapping,
        SourceV::TupleVariant(_, _, _, _) => OutputKind::Mapping,
        SourceV::StructVariant(_, _, _, _) => OutputKind::Mapping,
    }
}

/// Shape determinism: the structural kind of the output is a function of
/// the source shape alone, for every type set.
pub proof fn lemma_shape_determinism<P: PythonizeTypes>(v: SourceV)
    ensures
        py_kind(pythonized::<P>(v)) == shape_kind(v),
    decreases v,
{
    match v {
        SourceV::NewtypeStruct(_, b) => {
            lemma_shape_determinism::<P>(*b);
        },
        SourceV::Present(b) => {
            lemma_shape_determinism::<P>(*b);
        },
        SourceV::Sequence(items) => {
            <P::List as PythonizeListType>::sequence_model_is_sequence(
                pythonized_all::<P>(items),
            );
        },
        SourceV::Tuple(items) => {
            <P::List as PythonizeListType>::sequence_model_is_sequence(
                pythonized_all::<P>(items),
            );
        },
        SourceV::TupleStruct(_, items) => {
            <P::List as PythonizeListType>::sequence_model_is_sequence(
                pythonized_all::<P>(items),
            );
        },
        _ => {},
    }
}

/// Map pairing invariant: a map of N pairs becomes a mapping of exactly N
/// entries, in order, each holding the converted key paired with its
/// converted value.
pub proof fn lemma_map_pairing<P: PythonizeTypes>(pairs: Seq<(SourceV, SourceV)>)
    ensures
        pythonized::<P>(SourceV::Mapping(pairs)) == PyV::Dict(pythonized_pairs::<P>(pairs)),
        pythonized_pairs::<P>(pairs).len() == pairs.len(),
        forall|i: int|
            0 <= i < pairs.len() ==> pythonized_pairs::<P>(pairs)[i] == (
                pythonized::<P>(pairs[i].0),
                pythonized::<P>(pairs[i].1),
            ),
{
    lemma_pythonized_pairs::<P>(pairs);
}

/// Enum wrapping law: a unit variant becomes its name as a bare string; the
/// other three variant kinds become a single-entry mapping keyed by the
/// variant name, holding the converted payload, the payload sequence or the
/// payload mapping.
pub proof fn lemma_variant_wrapping<P: PythonizeTypes>(
    name: Seq<char>,
    idx: u32,
    var: Seq<char>,
    payload: Box<SourceV>,
    items: Seq<SourceV>,
    fields: Seq<(Seq<char>, SourceV)>,
)
    ensures
        pythonized::<P>(SourceV::UnitVariant(name, idx, var)) == PyV::Str(var),
        pythonized::<P>(SourceV::NewtypeVariant(name, idx, var, payload)) == PyV::Dict(
            seq![(PyV::Str(var), pythonized::<P>(*payload))],
        ),
        pythonized::<P>(SourceV::TupleVariant(name, idx, var, items)) == PyV::Dict(
            seq![
                (
                    PyV::Str(var),
                    crate::ser::sequence_model_of::<P>(pythonized_all::<P>(items)),
                ),
            ],
        ),
        pythonized::<P>(SourceV::StructVariant(name, idx, var, fields)) == PyV::Dict(
            seq![(PyV::Str(var), PyV::Dict(pythonized_fields::<P>(fields)))],
        ),
{
}

/// Null law: unit, unit struct and the absent option all convert to the
/// foreign null value, while a present option converts transparently to its
/// wrapped value's conversion.
pub proof fn lemma_null_law<P: PythonizeTypes>(name: Seq<char>, inner: Box<SourceV>)
    ensures
        pythonized::<P>(SourceV::Unit) == PyV::Null,
        pythonized::<P>(SourceV::UnitStruct(name)) == PyV::Null,
        pythonized::<P>(SourceV::Absent) == PyV::Null,
        pythonized::<P>(SourceV::Present(inner)) == pythonized::<P>(*inner),
{
}

} // verus!


//! The source data model (the shapes a value to be serialized may take) and
//! the foreign object model (the dynamically-typed values produced), together
//! with their mathematical views.

use vstd::prelude::*;

verus! {

/// Mathematical view of a source value: the shape tree a serialization call
/// walks, with strings as character sequences and integers as unbounded ints.
#[verifier::ext_equal]
pub ghost enum SourceV {
    Bool(bool),
    Int(int),
    Char(char),
    Str(Seq<char>),
    Bytes(Seq<u8>),
    Unit,
    UnitStruct(Seq<char>),
    NewtypeStruct(Seq<char>, Box<SourceV>),
    Absent,
    Present(Box<SourceV>),
    Sequence(Seq<SourceV>),
    Tuple(Seq<SourceV>),
    TupleStruct(Seq<char>, Seq<SourceV>),
    Mapping(Seq<(SourceV, SourceV)>),
    Struct(Seq<char>, Seq<(Seq<char>, SourceV)>),
    UnitVariant(Seq<char>, u32, Seq<char>),
    NewtypeVariant(Seq<char>, u32, Seq<char>, Box<SourceV>),
    TupleVariant(Seq<char>, u32, Seq<char>, Seq<SourceV>),
    StructVariant(Seq<char>, u32, Seq<char>, Seq<(Seq<char>, SourceV)>),
}

/// Mathematical view of a foreign value.
#[verifier::ext_equal]
pub ghost enum PyV {
    Null,
    Bool(bool),
    Int(int),
    Str(Seq<char>),
    Bytes(Seq<u8>),
    List(Seq<PyV>),
    Tuple(Seq<PyV>),
    Dict(Seq<(PyV, PyV)>),
}

/// A source value: one of the shapes of the structured data model, fully
/// materialized as a tree. Each integer width is kept apart so that the
/// width a value was declared with is part of the shape.
pub enum SourceValue {
    Bool(bool),
    I8(i8),
    I16(i16),
    I32(i32),
    I64(i64),
    U8(u8),
    U16(u16),
    U32(u32),
    U64(u64),
    Char(char),
    Str(String),
    Bytes(Vec<u8>),
    Unit,
    UnitStruct(String),
    NewtypeStruct(String, Box<SourceValue>),
    Absent,
    Present(Box<SourceValue>),
    Sequence(Vec<SourceValue>),
    Tuple(Vec<SourceValue>),
    TupleStruct(String, Vec<SourceValue>),
    Mapping(Vec<(SourceValue, SourceValue)>),
    Struct(String, Vec<(String, SourceValue)>),
    UnitVariant(String, u32, String),
    NewtypeVariant(String, u32, String, Box<SourceValue>),
    TupleVariant(String, u32, String, Vec<SourceValue>),
    StructVariant(String, u32, String, Vec<(String, SourceValue)>),
}

/// A foreign value: null, a scalar, an ordered sequence (mutable list or
/// immutable tuple flavor) or a mapping with insertion-ordered entries.
pub enum PyValue {
    Null,
    Bool(bool),
    Int(i128),
    Str(String),
    Bytes(Vec<u8>),
    List(Vec<PyValue>),
    Tuple(Vec<PyValue>),
    Dict(Vec<(PyValue, PyValue)>),
}

pub open spec fn source_views(s: Seq<SourceValue>) -> Seq<SourceV>
    decreases s,
{
    if s.len() == 0 {
        Seq::empty()
    } else {
        seq![source_view(s[0])] + source_views(s.drop_first())
    }
}

pub open spec fn source_pair_views(s: Seq<(SourceValue, SourceValue)>) -> Seq<(SourceV, SourceV)>
    decreases s,
{
    if s.len() == 0 {
        Seq::empty()
    } else {
        seq![(source_view(s[0].0), source_view(s[0].1))] + source_pair_views(s.drop_first())
    }
}

pub open spec fn source_field_views(s: Seq<(String, SourceValue)>) -> Seq<(Seq<char>, SourceV)>
    decreases s,
{
    if s.len() == 0 {
        Seq::empty()
    } else {
        seq![(s[0].0@, source_view(s[0].1))] + source_field_views(s.drop_first())
    }
}

/// The view of a source value as a shape tree.
pub open spec fn source_view(v: SourceValue) -> SourceV
    decreases v,
{
    match v {
        SourceValue::Bool(b) => SourceV::Bool(b),
        SourceValue::I8(n) => SourceV::Int(n as int),
        SourceValue::I16(n) => SourceV::Int(n as int),
        SourceValue::I32(n) => SourceV::Int(n as int),
        SourceValue::I64(n) => SourceV::Int(n as int),
        SourceValue::U8(n) => SourceV::Int(n as int),
        SourceValue::U16(n) => SourceV::Int(n as int),
        SourceValue::U32(n) => SourceV::Int(n as int),
        SourceValue::U64(n) => SourceV::Int(n as int),
        SourceValue::Char(c) => SourceV::Char(c),
        SourceValue::Str(s) => SourceV::Str(s@),
        SourceValue::Bytes(b) => SourceV::Bytes(b@),
        SourceValue::Unit => SourceV::Unit,
        SourceValue::UnitStruct(n) => SourceV::UnitStruct(n@),
        SourceValue::NewtypeStruct(n, b) => SourceV::NewtypeStruct(n@, Box::new(source_view(*b))),
        SourceValue::Absent => SourceV::Absent,
        SourceValue::Present(b) => SourceV::Present(Box::new(source_view(*b))),
        SourceValue::Sequence(items) => SourceV::Sequence(source_views(items@)),
        SourceValue::Tuple(items) => SourceV::Tuple(source_views(items@)),
        SourceValue::TupleStruct(n, items) => SourceV::TupleStruct(n@, source_views(items@)),
        SourceValue::Mapping(pairs) => SourceV::Mapping(source_pair_views(pairs@)),
        SourceValue::Struct(n, fields) => SourceV::Struct(n@, source_field_views(fields@)),
        SourceValue::UnitVariant(n, i, var) => SourceV::UnitVariant(n@, i, var@),
        SourceValue::NewtypeVariant(n, i, var, b) => SourceV::NewtypeVariant(
            n@,
            i,
            var@,
            Box::new(source_view(*b)),
        ),
        SourceValue::TupleVariant(n, i, var, items) => SourceV::TupleVariant(
            n@,
            i,
            var@,
            source_views(items@),
        ),
        SourceValue::StructVariant(n, i, var, fields) => SourceV::StructVariant(
            n@,
            i,
            var@,
            source_field_views(fields@),
        ),
    }
}

impl View for SourceValue {
    type V = SourceV;

    open spec fn view(&self) -> SourceV {
        source_view(*self)
    }
}

pub open spec fn py_views(s: Seq<PyValue>) -> Seq<PyV>
    decreases s,
{
    if s.len() == 0 {
        Seq::empty()
    } else {
        seq![py_view(s[0])] + py_views(s.drop_first())
    }
}

pub open spec fn py_pair_views(s: Seq<(PyValue, PyValue)>) -> Seq<(PyV, PyV)>
    decreases s,
{
    if s.len() == 0 {
        Seq::empty()
    } else {
        seq![(py_view(s[0].0), py_view(s[0].1))] + py_pair_views(s.drop_first())
    }
}

/// The view of a foreign value as a mathematical value tree.
pub open spec fn py_view(v: PyValue) -> PyV
    decreases v,
{
    match v {
        PyValue::Null => PyV::Null,
        PyValue::Bool(b) => PyV::Bool(b),
        PyValue::Int(n) => PyV::Int(n as int),
        PyValue::Str(s) => PyV::Str(s@),
        PyValue::Bytes(b) => PyV::Bytes(b@),
        PyValue::List(items) => PyV::List(py_views(items@)),
        PyValue::Tuple(items) => PyV::Tuple(py_views(items@)),
        PyValue::Dict(pairs) => PyV::Dict(py_pair_views(pairs@)),
    }
}

impl View for PyValue {
    type V = PyV;

    open spec fn view(&self) -> PyV {
        py_view(*self)
    }
}

/// `py_views` maps the view over the elements, preserving length and order.
pub proof fn lemma_py_views(s: Seq<PyValue>)
    ensures
        py_views(s).len() == s.len(),
        forall|i: int| 0 <= i < s.len() ==> py_views(s)[i] == py_view(s[i]),
    decreases s.len(),
{
    if s.len() > 0 {
        lemma_py_views(s.drop_first());
    }
}

/// Appending one element appends its view.
pub proof fn lemma_py_views_push(s: Seq<PyValue>, x: PyValue)
    ensures
        py_views(s.push(x)) == py_views(s).push(py_view(x)),
{
    lemma_py_views(s);
    lemma_py_views(s.push(x));
    assert(py_views(s.push(x)) =~= py_views(s).push(py_view(x)));
}

/// `py_pair_views` maps the views over the pairs, preserving length and order.
pub proof fn lemma_py_pair_views(s: Seq<(PyValue, PyValue)>)
    ensures
        py_pair_views(s).len() == s.len(),
        forall|i: int|
            0 <= i < s.len() ==> py_pair_views(s)[i] == (py_view(s[i].0), py_view(s[i].1)),
    decreases s.len(),
{
    if s.len() > 0 {
        lemma_py_pair_views(s.drop_first());
    }
}

/// Appending one pair appends its views.
pub proof fn lemma_py_pair_views_push(s: Seq<(PyValue, PyValue)>, x: (PyValue, PyValue))
    ensures
        py_pair_views(s.push(x)) == py_pair_views(s).push((py_view(x.0), py_view(x.1))),
{
    lemma_py_pair_views(s);
    lemma_py_pair_views(s.push(x));
    assert(py_pair_views(s.push(x)) =~= py_pair_views(s).push((py_view(x.0), py_view(x.1))));
}

/// `source_views` maps the view over the elements, preserving length and order.
pub proof fn lemma_source_views(s: Seq<SourceValue>)
    ensures
        source_views(s).len() == s.len(),
        forall|i: int| 0 <= i < s.len() ==> source_views(s)[i] == source_view(s[i]),
    decreases s.len(),
{
    if s.len() > 0 {
        lemma_source_views(s.drop_first());
    }
}

/// `source_pair_views` maps the views over the pairs, preserving length and order.
pub proof fn lemma_source_pair_views(s: Seq<(SourceValue, SourceValue)>)
    ensures
        source_pair_views(s).len() == s.len(),
        forall|i: int|
            0 <= i < s.len() ==> source_pair_views(s)[i] == (
                source_view(s[i].0),
                source_view(s[i].1),
            ),
    decreases s.len(),
{
    if s.len() > 0 {
        lemma_source_pair_views(s.drop_first());
    }
}

/// `source_field_views` maps the views over the named fields, preserving
/// length and order.
pub proof fn lemma_source_field_views(s: Seq<(String, SourceValue)>)
    ensures
        source_field_views(s).len() == s.len(),
        forall|i: int|
            0 <= i < s.len() ==> source_field_views(s)[i] == (s[i].0@, source_view(s[i].1)),
    decreases s.len(),
{
    if s.len() > 0 {
        lemma_source_field_views(s.drop_first());
    }
}

/// The error a serialization call can report: the foreign runtime (or a
/// custom builder) refused to construct a container or accept an item.
#[derive(Debug)]
pub enum PythonizeError {
    HostFailure(String),
}

impl PythonizeError {
    /// The human-readable description carried by the error.
    pub fn message(&self) -> (r: &String)
        ensures
            self matches PythonizeError::HostFailure(m) && r == m,
    {
        match self {
            PythonizeError::HostFailure(m) => m,
        }
    }
}

/// Relies on String::push: appends exactly the one given character.
#[verifier::external_body]
pub fn push_char(s: &mut String, c: char)
    ensures
        final(s)@ == old(s)@.push(c),
{
    s.push(c)
}

} // verus!


//! The serializer core: the builder abstraction (a pluggable set of target
//! types), the collection / map / struct / enum-variant serializers, and the
//! top-level dispatcher that walks a source value and produces one foreign
//! value.

use core::marker::PhantomData;
use vstd::prelude::*;

use crate::value::{
    lemma_py_pair_views_push, lemma_py_views_push, lemma_source_field_views,
    lemma_source_pair_views, lemma_source_views, push_char, py_pair_views, py_view, py_views,
    source_field_views, source_pair_views, source_view, source_views, PyV, PyValue,
    PythonizeError, SourceV, SourceValue,
};

verus! {

/// Holds when `s` is an ordered-sequence value carrying exactly `items`.
pub open spec fn is_sequence_of(s: PyV, items: Seq<PyV>) -> bool {
    s == PyV::List(items) || s == PyV::Tuple(items)
}

/// Trait for types which can build a foreign mapping incrementally.
pub trait MappingBuilder: Sized {
    /// The key-value items pushed so far, in order.
    spec fn entries(&self) -> Seq<(PyV, PyV)>;

    /// Holds when this builder never refuses an item.
    spec fn infallible() -> bool;

    /// Adds the key-value item to the mapping being built.
    fn push_item(&mut self, key: PyValue, value: PyValue) -> (r: Result<(), PythonizeError>)
        ensures
            r is Ok ==> final(self).entries() == old(self).entries().push((key@, value@)),
            Self::infallible() ==> r is Ok,
    ;

    /// Build the foreign mapping, sealing the builder.
    fn finish(self) -> (r: Result<PyValue, PythonizeError>)
        ensures
            r matches Ok(m) ==> m@ == PyV::Dict(self.entries()),
            Self::infallible() ==> r is Ok,
    ;
}

/// Trait for types which can represent a foreign mapping.
pub trait PythonizeMappingType {
    /// Builder type for mappings of this representation.
    type Builder: MappingBuilder;

    /// Create a builder for a mapping, given the expected item count if known.
    fn create_builder(len: Option<usize>) -> (r: Result<Self::Builder, PythonizeError>)
        ensures
            r matches Ok(b) ==> b.entries() == Seq::<(PyV, PyV)>::empty(),
            Self::Builder::infallible() ==> r is Ok,
    ;
}

/// Trait for types which can represent a foreign mapping and receive a
/// type-name hint (used for struct-shaped and variant-wrapping output).
pub trait PythonizeNamedMappingType {
    /// Builder type for named mappings of this representation.
    type Builder: MappingBuilder;

    /// Create a builder for a mapping with a declared field count and a
    /// type-name hint.
    fn create_builder(len: usize, name: &str) -> (r: Result<Self::Builder, PythonizeError>)
        ensures
            r matches Ok(b) ==> b.entries() == Seq::<(PyV, PyV)>::empty(),
            Self::Builder::infallible() ==> r is Ok,
    ;
}

/// Trait for types which can represent a foreign ordered sequence.
pub trait PythonizeListType {
    /// The sequence value this type builds from the given items.
    spec fn sequence_model(items: Seq<PyV>) -> PyV;

    /// Holds when this type never refuses to build a sequence.
    spec fn infallible() -> bool;

    /// Every sequence representation builds one of the ordered-sequence
    /// flavors, holding exactly the given items.
    proof fn sequence_model_is_sequence(items: Seq<PyV>)
        ensures
            is_sequence_of(Self::sequence_model(items), items),
    ;

    /// Build a sequence in one call from a fully materialized list.
    fn create_sequence(elements: Vec<PyValue>) -> (r: Result<PyValue, PythonizeError>)
        ensures
            r matches Ok(s) ==> s@ == Self::sequence_model(py_views(elements@)),
            Self::infallible() ==> r is Ok,
    ;
}

/// The set of target types one serialization call uses: one generic mapping
/// type, one named mapping type and one sequence type.
pub trait PythonizeTypes {
    /// Foreign generic-map type.
    type Map: PythonizeMappingType;

    /// Foreign named (struct-like) map type.
    type NamedMap: PythonizeNamedMappingType;

    /// Foreign sequence type.
    type List: PythonizeListType;
}

/// Holds when no builder of the type set `P` can fail, so that every
/// conversion with `P` succeeds.
pub open spec fn infallible_types<P: PythonizeTypes>() -> bool {
    &&& <<P::Map as PythonizeMappingType>::Builder as MappingBuilder>::infallible()
    &&& <<P::NamedMap as PythonizeNamedMappingType>::Builder as MappingBuilder>::infallible()
    &&& <P::List as PythonizeListType>::infallible()
}

/// The default mapping representation: a plain insertion-ordered dictionary.
/// The type-name hint of named mappings is ignored.
pub struct PyDict;

/// The builder behind [`PyDict`]: accumulates items in insertion order.
pub struct PyDictBuilder {
    items: Vec<(PyValue, PyValue)>,
}

impl MappingBuilder for PyDictBuilder {
    closed spec fn entries(&self) -> Seq<(PyV, PyV)> {
        py_pair_views(self.items@)
    }

    open spec fn infallible() -> bool {
        true
    }

    fn push_item(&mut self, key: PyValue, value: PyValue) -> (r: Result<(), PythonizeError>)
    {
        proof {
            lemma_py_pair_views_push(self.items@, (key, value));
        }
        self.items.push((key, value));
        Ok(())
    }

    fn finish(self) -> (r: Result<PyValue, PythonizeError>) {
        Ok(PyValue::Dict(self.items))
    }
}

impl PythonizeMappingType for PyDict {
    type Builder = PyDictBuilder;

    fn create_builder(_len: Option<usize>) -> (r: Result<Self::Builder, PythonizeError>) {
        Ok(PyDictBuilder { items: Vec::new() })
    }
}

impl PythonizeNamedMappingType for PyDict {
    type Builder = PyDictBuilder;

    fn create_builder(_len: usize, _name: &str) -> (r: Result<Self::Builder, PythonizeError>) {
        Ok(PyDictBuilder { items: Vec::new() })
    }
}

/// The default sequence representation: a mutable ordered list.
pub struct PyList;

impl PythonizeListType for PyList {
    open spec fn sequence_model(items: Seq<PyV>) -> PyV {
        PyV::List(items)
    }

    open spec fn infallible() -> bool {
        true
    }

    proof fn sequence_model_is_sequence(items: Seq<PyV>) {
    }

    fn create_sequence(elements: Vec<PyValue>) -> (r: Result<PyValue, PythonizeError>) {
        Ok(PyValue::List(elements))
    }
}

/// An alternate sequence representation: an immutable fixed-arity tuple.
pub struct PyTuple;

impl PythonizeListType for PyTuple {
    open spec fn sequence_model(items: Seq<PyV>) -> PyV {
        PyV::Tuple(items)
    }

    open spec fn infallible() -> bool {
        true
    }

    proof fn sequence_model_is_sequence(items: Seq<PyV>) {
    }

    fn create_sequence(elements: Vec<PyValue>) -> (r: Result<PyValue, PythonizeError>) {
        Ok(PyValue::Tuple(elements))
    }
}

/// The default type set: plain dictionaries for both mapping kinds and a
/// list-like sequence.
pub struct PythonizeDefault;

impl PythonizeTypes for PythonizeDefault {
    type Map = PyDict;

    type NamedMap = PyDict;

    type List = PyList;
}

/// An alternate type set: plain dictionaries, but sequences bound to the
/// immutable fixed-arity tuple representation.
pub struct PythonizeTuples;

impl PythonizeTypes for PythonizeTuples {
    type Map = PyDict;

    type NamedMap = PyDict;

    type List = PyTuple;
}

/// Shorthand for the sequence value the type set `P` builds.
pub open spec fn sequence_model_of<P: PythonizeTypes>(items: Seq<PyV>) -> PyV {
    <P::List as PythonizeListType>::sequence_model(items)
}

/// The foreign values that the elements of `s` convert to, in order.
pub open spec fn pythonized_all<P: PythonizeTypes>(s: Seq<SourceV>) -> Seq<PyV>
    decreases s,
{
    if s.len() == 0 {
        Seq::empty()
    } else {
        seq![pythonized::<P>(s[0])] + pythonized_all::<P>(s.drop_first())
    }
}

/// The foreign key-value pairs that the pairs of `s` convert to, in order.
pub open spec fn pythonized_pairs<P: PythonizeTypes>(s: Seq<(SourceV, SourceV)>) -> Seq<(PyV, PyV)>
    decreases s,
{
    if s.len() == 0 {
        Seq::empty()
    } else {
        seq![(pythonized::<P>(s[0].0), pythonized::<P>(s[0].1))] + pythonized_pairs::<P>(
            s.drop_first(),
        )
    }
}

/// The foreign key-value pairs that the named fields of `s` convert to:
/// each static field name becomes a string key.
pub open spec fn pythonized_fields<P: PythonizeTypes>(s: Seq<(Seq<char>, SourceV)>) -> Seq<
    (PyV, PyV),
>
    decreases s,
{
    if s.len() == 0 {
        Seq::empty()
    } else {
        seq![(PyV::Str(s[0].0), pythonized::<P>(s[0].1))] + pythonized_fields::<P>(s.drop_first())
    }
}

/// The foreign value that the source value `v` converts to under the type
/// set `P`. Output shape is a pure structural function of input shape:
/// scalars map to scalars, unit-like shapes to null, ordered shapes to the
/// configured sequence, keyed shapes to mappings, and the four enum-variant
/// shapes follow the variant-wrapping convention.
pub open spec fn pythonized<P: PythonizeTypes>(v: SourceV) -> PyV
    decreases v,
{
    match v {
        SourceV::Bool(b) => PyV::Bool(b),
        SourceV::Int(n) => PyV::Int(n),
        SourceV::Char(c) => PyV::Str(seq![c]),
        SourceV::Str(s) => PyV::Str(s),
        SourceV::Bytes(b) => PyV::Bytes(b),
        SourceV::Unit => PyV::Null,
        SourceV::UnitStruct(_) => PyV::Null,
        SourceV::NewtypeStruct(_, b) => pythonized::<P>(*b),
        SourceV::Absent => PyV::Null,
        SourceV::Present(b) => pythonized::<P>(*b),
        SourceV::Sequence(items) => sequence_model_of::<P>(pythonized_all::<P>(items)),
        SourceV::Tuple(items) => sequence_model_of::<P>(pythonized_all::<P>(items)),
        SourceV::TupleStruct(_, items) => sequence_model_of::<P>(pythonized_all::<P>(items)),
        SourceV::Mapping(pairs) => PyV::Dict(pythonized_pairs::<P>(pairs)),
        SourceV::Struct(_, fields) => PyV::Dict(pythonized_fields::<P>(fields)),
        SourceV::UnitVariant(_, _, var) => PyV::Str(var),
        SourceV::NewtypeVariant(_, _, var, b) => PyV::Dict(
            seq![(PyV::Str(var), pythonized::<P>(*b))],
        ),
        SourceV::TupleVariant(_, _, var, items) => PyV::Dict(
            seq![(PyV::Str(var), sequence_model_of::<P>(pythonized_all::<P>(items)))],
        ),
        SourceV::StructVariant(_, _, var, fields) => PyV::Dict(
            seq![(PyV::Str(var), PyV::Dict(pythonized_fields::<P>(fields)))],
        ),
    }
}

/// A structure that converts source values into foreign values with the
/// target types named by `P`.
pub struct Pythonizer<P: PythonizeTypes> {
    _types: PhantomData<P>,
}

impl Pythonizer<PythonizeDefault> {
    /// Creates a serializer using the default mapping and sequence types.
    pub fn new() -> (r: Pythonizer<PythonizeDefault>) {
        Pythonizer { _types: PhantomData }
    }

    /// Creates a serializer using a custom set of target types.
    pub fn custom<P: PythonizeTypes>() -> (r: Pythonizer<P>) {
        Pythonizer { _types: PhantomData }
    }
}

/// `pythonized_all` maps the conversion over the elements, preserving length
/// and order.
pub proof fn lemma_pythonized_all<P: PythonizeTypes>(s: Seq<SourceV>)
    ensures
        pythonized_all::<P>(s).len() == s.len(),
        forall|i: int| 0 <= i < s.len() ==> pythonized_all::<P>(s)[i] == pythonized::<P>(s[i]),
    decreases s.len(),
{
    if s.len() > 0 {
        lemma_pythonized_all::<P>(s.drop_first());
    }
}

/// `pythonized_pairs` maps the conversion over the pairs, preserving length
/// and order.
pub proof fn lemma_pythonized_pairs<P: PythonizeTypes>(s: Seq<(SourceV, SourceV)>)
    ensures
        pythonized_pairs::<P>(s).len() == s.len(),
        forall|i: int|
            0 <= i < s.len() ==> pythonized_pairs::<P>(s)[i] == (
                pythonized::<P>(s[i].0),
                pythonized::<P>(s[i].1),
            ),
    decreases s.len(),
{
    if s.len() > 0 {
        lemma_pythonized_pairs::<P>(s.drop_first());
    }
}

/// `pythonized_fields` maps the conversion over the named fields, preserving
/// length and order.
pub proof fn lemma_pythonized_fields<P: PythonizeTypes>(s: Seq<(Seq<char>, SourceV)>)
    ensures
        pythonized_fields::<P>(s).len() == s.len(),
        forall|i: int|
            0 <= i < s.len() ==> pythonized_fields::<P>(s)[i] == (
                PyV::Str(s[i].0),
                pythonized::<P>(s[i].1),
            ),
    decreases s.len(),
{
    if s.len() > 0 {
        lemma_pythonized_fields::<P>(s.drop_first());
    }
}

/// Serializer for sequence, tuple and tuple-struct shapes: accumulates the
/// converted elements, then hands them to the configured sequence type.
pub struct PythonCollectionSerializer<P: PythonizeTypes> {
    items: Vec<PyValue>,
    _types: PhantomData<P>,
}

impl<P: PythonizeTypes> PythonCollectionSerializer<P> {
    /// The foreign values accumulated so far, in order.
    pub closed spec fn converted(&self) -> Seq<PyV> {
        py_views(self.items@)
    }

    /// Converts one element with the same type set and appends the result.
    pub fn serialize_element(&mut self, value: &SourceValue) -> (r: Result<(), PythonizeError>)
        ensures
            r is Ok ==> final(self).converted() == old(self).converted().push(
                pythonized::<P>(value@),
            ),
            infallible_types::<P>() ==> r is Ok,
        decreases value, 3int,
    {
        let converted = pythonize_custom::<P>(value)?;
        proof {
            lemma_py_views_push(self.items@, converted);
        }
        self.items.push(converted);
        Ok(())
    }

    /// Converts one tuple-struct field; identical to `serialize_element`.
    pub fn serialize_field(&mut self, value: &SourceValue) -> (r: Result<(), PythonizeError>)
        ensures
            r is Ok ==> final(self).converted() == old(self).converted().push(
                pythonized::<P>(value@),
            ),
            infallible_types::<P>() ==> r is Ok,
        decreases value, 4int,
    {
        self.serialize_element(value)
    }

    /// Hands the accumulated list to the configured sequence type.
    pub fn end(self) -> (r: Result<PyValue, PythonizeError>)
        ensures
            r matches Ok(p) ==> p@ == sequence_model_of::<P>(self.converted()),
            infallible_types::<P>() ==> r is Ok,
    {
        <P::List as PythonizeListType>::create_sequence(self.items)
    }
}

/// Serializer for tuple-shaped enum variants: a collection serializer plus
/// the variant name the result is wrapped under.
pub struct PythonTupleVariantSerializer<P: PythonizeTypes> {
    name: String,
    variant: String,
    inner: PythonCollectionSerializer<P>,
}

impl<P: PythonizeTypes> PythonTupleVariantSerializer<P> {
    /// The variant name the payload will be wrapped under.
    pub closed spec fn variant_name(&self) -> Seq<char> {
        self.variant@
    }

    /// The foreign values accumulated so far, in order.
    pub closed spec fn converted(&self) -> Seq<PyV> {
        self.inner.converted()
    }

    /// Converts one payload element and appends the result.
    pub fn serialize_field(&mut self, value: &SourceValue) -> (r: Result<(), PythonizeError>)
        ensures
            r is Ok ==> final(self).converted() == old(self).converted().push(
                pythonized::<P>(value@),
            ),
            final(self).variant_name() == old(self).variant_name(),
            infallible_types::<P>() ==> r is Ok,
        decreases value, 4int,
    {
        self.inner.serialize_element(value)
    }

    /// Builds the payload sequence, then wraps it in a single-entry named
    /// mapping keyed by the variant name.
    pub fn end(self) -> (r: Result<PyValue, PythonizeError>)
        ensures
            r matches Ok(p) ==> p@ == PyV::Dict(
                seq![(PyV::Str(self.variant_name()), sequence_model_of::<P>(self.converted()))],
            ),
            infallible_types::<P>() ==> r is Ok,
    {
        let ghost var_name = self.variant@;
        let ghost payload_model = sequence_model_of::<P>(self.converted());
        let PythonTupleVariantSerializer { name, variant, inner } = self;
        let items = inner.end()?;
        let mut m = <P::NamedMap as PythonizeNamedMappingType>::create_builder(1, name.as_str())?;
        m.push_item(PyValue::Str(variant), items)?;
        proof {
            assert(m.entries() =~= seq![(PyV::Str(var_name), payload_model)]);
        }
        m.finish()
    }
}

/// Serializer for generic maps: feeds the configured generic mapping builder,
/// holding at most one pending converted key.
pub struct PythonMapSerializer<P: PythonizeTypes> {
    builder: <P::Map as PythonizeMappingType>::Builder,
    key: Option<PyValue>,
}

impl<P: PythonizeTypes> PythonMapSerializer<P> {
    /// The key-value items pushed to the builder so far, in order.
    pub closed spec fn entries(&self) -> Seq<(PyV, PyV)> {
        self.builder.entries()
    }

    /// The converted key waiting for its value, if any.
    pub closed spec fn pending(&self) -> Option<PyV> {
        match self.key {
            Some(k) => Some(py_view(k)),
            None => None,
        }
    }

    /// Converts one key with the same type set and stores it as pending.
    pub fn serialize_key(&mut self, key: &SourceValue) -> (r: Result<(), PythonizeError>)
        ensures
            r is Ok ==> final(self).pending() == Some(pythonized::<P>(key@)),
            r is Ok ==> final(self).entries() == old(self).entries(),
            infallible_types::<P>() ==> r is Ok,
        decreases key, 3int,
    {
        let converted = pythonize_custom::<P>(key)?;
        self.key = Some(converted);
        Ok(())
    }

    /// Converts one value and pushes the (pending key, value) item. It is a
    /// contract violation to call this with no pending key, so a pending key
    /// is required.
    pub fn serialize_value(&mut self, value: &SourceValue) -> (r: Result<(), PythonizeError>)
        requires
            old(self).pending() is Some,
        ensures
            r is Ok ==> final(self).pending() is None,
            old(self).pending() matches Some(k) ==> (r is Ok ==> final(self).entries() == old(self).entries().push((k, pythonized::<P>(value@)))),
            infallible_types::<P>() ==> r is Ok,
        decreases value, 3int,
    {
        let converted = pythonize_custom::<P>(value)?;
        let pending = self.key.take();
        match pending {
            Some(k) => {
                self.builder.push_item(k, converted)?;
                Ok(())
            },
            None => {
                proof {
                    assert(false);
                }
                Ok(())
            },
        }
    }

    /// Finishes the mapping builder.
    pub fn end(self) -> (r: Result<PyValue, PythonizeError>)
        ensures
            r matches Ok(p) ==> p@ == PyV::Dict(self.entries()),
            infallible_types::<P>() ==> r is Ok,
    {
        self.builder.finish()
    }
}

/// Serializer for struct shapes: feeds the configured named mapping builder
/// with static field names as string keys.
pub struct PythonStructDictSerializer<P: PythonizeTypes> {
    builder: <P::NamedMap as PythonizeNamedMappingType>::Builder,
}

impl<P: PythonizeTypes> PythonStructDictSerializer<P> {
    /// The key-value items pushed to the builder so far, in order.
    pub closed spec fn entries(&self) -> Seq<(PyV, PyV)> {
        self.builder.entries()
    }

    /// Converts one field value and pushes it under the static field name.
    pub fn serialize_field(&mut self, key: &str, value: &SourceValue) -> (r: Result<
        (),
        PythonizeError,
    >)
        ensures
            r is Ok ==> final(self).entries() == old(self).entries().push(
                (PyV::Str(key@), pythonized::<P>(value@)),
            ),
            infallible_types::<P>() ==> r is Ok,
        decreases value, 3int,
    {
        let converted = pythonize_custom::<P>(value)?;
        self.builder.push_item(PyValue::Str(key.to_owned()), converted)?;
        Ok(())
    }

    /// Finishes the mapping builder.
    pub fn end(self) -> (r: Result<PyValue, PythonizeError>)
        ensures
            r matches Ok(p) ==> p@ == PyV::Dict(self.entries()),
            infallible_types::<P>() ==> r is Ok,
    {
        self.builder.finish()
    }
}

/// Serializer for struct-shaped enum variants: a struct serializer plus the
/// variant name the result is wrapped under.
pub struct PythonStructVariantSerializer<P: PythonizeTypes> {
    name: String,
    variant: String,
    inner: PythonStructDictSerializer<P>,
}

impl<P: PythonizeTypes> PythonStructVariantSerializer<P> {
    /// The variant name the payload will be wrapped under.
    pub closed spec fn variant_name(&self) -> Seq<char> {
        self.variant@
    }

    /// The key-value items pushed for the payload so far, in order.
    pub closed spec fn entries(&self) -> Seq<(PyV, PyV)> {
        self.inner.entries()
    }

    /// Converts one payload field and pushes it under the static field name.
    pub fn serialize_field(&mut self, key: &str, value: &SourceValue) -> (r: Result<
        (),
        PythonizeError,
    >)
        ensures
            r is Ok ==> final(self).entries() == old(self).entries().push(
                (PyV::Str(key@), pythonized::<P>(value@)),
            ),
            final(self).variant_name() == old(self).variant_name(),
            infallible_types::<P>() ==> r is Ok,
        decreases value, 4int,
    {
        self.inner.serialize_field(key, value)
    }

    /// Builds the payload mapping, then wraps it in a single-entry named
    /// mapping keyed by the variant name.
    pub fn end(self) -> (r: Result<PyValue, PythonizeError>)
        ensures
            r matches Ok(p) ==> p@ == PyV::Dict(
                seq![(PyV::Str(self.variant_name()), PyV::Dict(self.entries()))],
            ),
            infallible_types::<P>() ==> r is Ok,
    {
        let ghost var_name = self.variant@;
        let ghost payload_model = PyV::Dict(self.entries());
        let PythonStructVariantSerializer { name, variant, inner } = self;
        let payload = inner.end()?;
        let mut m = <P::NamedMap as PythonizeNamedMappingType>::create_builder(1, name.as_str())?;
        m.push_item(PyValue::Str(variant), payload)?;
        proof {
            assert(m.entries() =~= seq![(PyV::Str(var_name), payload_model)]);
        }
        m.finish()
    }
}

impl<P: PythonizeTypes> Pythonizer<P> {
    /// Converts a bool to the foreign bool scalar.
    pub fn serialize_bool(self, v: bool) -> (r: Result<PyValue, PythonizeError>)
        ensures
            r matches Ok(p) ==> p@ == PyV::Bool(v),
            r is Ok,
    {
        Ok(PyValue::Bool(v))
    }

    /// Converts a signed 8-bit integer to the foreign integer scalar.
    pub fn serialize_i8(self, v: i8) -> (r: Result<PyValue, PythonizeError>)
        ensures
            r matches Ok(p) ==> p@ == PyV::Int(v as int),
            r is Ok,
    {
        Ok(PyValue::Int(v as i128))
    }

    /// Converts a signed 16-bit integer to the foreign integer scalar.
    pub fn serialize_i16(self, v: i16) -> (r: Result<PyValue, PythonizeError>)
        ensures
            r matches Ok(p) ==> p@ == PyV::Int(v as int),
            r is Ok,
    {
        Ok(PyValue::Int(v as i128))
    }

    /// Converts a signed 32-bit integer to the foreign integer scalar.
    pub fn serialize_i32(self, v: i32) -> (r: Result<PyValue, PythonizeError>)
        ensures
            r matches Ok(p) ==> p@ == PyV::Int(v as int),
            r is Ok,
    {
        Ok(PyValue::Int(v as i128))
    }

    /// Converts a signed 64-bit integer to the foreign integer scalar.
    pub fn serialize_i64(self, v: i64) -> (r: Result<PyValue, PythonizeError>)
        ensures
            r matches Ok(p) ==> p@ == PyV::Int(v as int),
            r is Ok,
    {
        Ok(PyValue::Int(v as i128))
    }

    /// Converts an unsigned 8-bit integer to the foreign integer scalar.
    pub fn serialize_u8(self, v: u8) -> (r: Result<PyValue, PythonizeError>)
        ensures
            r matches Ok(p) ==> p@ == PyV::Int(v as int),
            r is Ok,
    {
        Ok(PyValue::Int(v as i128))
    }

    /// Converts an unsigned 16-bit integer to the foreign integer scalar.
    pub fn serialize_u16(self, v: u16) -> (r: Result<PyValue, PythonizeError>)
        ensures
            r matches Ok(p) ==> p@ == PyV::Int(v as int),
            r is Ok,
    {
        Ok(PyValue::Int(v as i128))
    }

    /// Converts an unsigned 32-bit integer to the foreign integer scalar.
    pub fn serialize_u32(self, v: u32) -> (r: Result<PyValue, PythonizeError>)
        ensures
            r matches Ok(p) ==> p@ == PyV::Int(v as int),
            r is Ok,
    {
        Ok(PyValue::Int(v as i128))
    }

    /// Converts an unsigned 64-bit integer to the foreign integer scalar.
    pub fn serialize_u64(self, v: u64) -> (r: Result<PyValue, PythonizeError>)
        ensures
            r matches Ok(p) ==> p@ == PyV::Int(v as int),
            r is Ok,
    {
        Ok(PyValue::Int(v as i128))
    }

    /// Converts a char via its single-character string representation.
    pub fn serialize_char(self, v: char) -> (r: Result<PyValue, PythonizeError>)
        ensures
            r matches Ok(p) ==> p@ == PyV::Str(seq![v]),
            r is Ok,
    {
        let mut s = String::new();
        push_char(&mut s, v);
        proof {
            assert(s@ =~= seq![v]);
        }
        Ok(PyValue::Str(s))
    }

    /// Converts a string to the foreign string scalar.
    pub fn serialize_str(self, v: &str) -> (r: Result<PyValue, PythonizeError>)
        ensures
            r matches Ok(p) ==> p@ == PyV::Str(v@),
            r is Ok,
    {
        Ok(PyValue::Str(v.to_owned()))
    }

    /// Converts a byte string to the foreign byte scalar.
    pub fn serialize_bytes(self, v: &[u8]) -> (r: Result<PyValue, PythonizeError>)
        ensures
            r matches Ok(p) ==> p@ == PyV::Bytes(v@),
            r is Ok,
    {
        Ok(PyValue::Bytes(vstd::slice::slice_to_vec(v)))
    }

    /// Converts an absent option to the foreign null value.
    pub fn serialize_none(self) -> (r: Result<PyValue, PythonizeError>)
        ensures
            r matches Ok(p) ==> p@ == PyV::Null,
            r is Ok,
    {
        Ok(PyValue::Null)
    }

    /// Converts a present option by converting the wrapped value.
    pub fn serialize_some(self, value: &SourceValue) -> (r: Result<PyValue, PythonizeError>)
        ensures
            r matches Ok(p) ==> p@ == pythonized::<P>(value@),
            infallible_types::<P>() ==> r is Ok,
        decreases value, 3int,
    {
        pythonize_custom::<P>(value)
    }

    /// Converts unit to the foreign null value.
    pub fn serialize_unit(self) -> (r: Result<PyValue, PythonizeError>)
        ensures
            r matches Ok(p) ==> p@ == PyV::Null,
            r is Ok,
    {
        self.serialize_none()
    }

    /// Converts a unit struct to the foreign null value.
    pub fn serialize_unit_struct(self, _name: &str) -> (r: Result<PyValue, PythonizeError>)
        ensures
            r matches Ok(p) ==> p@ == PyV::Null,
            r is Ok,
    {
        self.serialize_none()
    }

    /// Converts a unit variant to its variant name as a bare string.
    pub fn serialize_unit_variant(
        self,
        _name: &str,
        _variant_index: u32,
        variant: &str,
    ) -> (r: Result<PyValue, PythonizeError>)
        ensures
            r matches Ok(p) ==> p@ == PyV::Str(variant@),
            r is Ok,
    {
        self.serialize_str(variant)
    }

    /// Converts a newtype struct by converting the wrapped value.
    pub fn serialize_newtype_struct(self, _name: &str, value: &SourceValue) -> (r: Result<
        PyValue,
        PythonizeError,
    >)
        ensures
            r matches Ok(p) ==> p@ == pythonized::<P>(value@),
            infallible_types::<P>() ==> r is Ok,
        decreases value, 3int,
    {
        pythonize_custom::<P>(value)
    }

    /// Converts a newtype variant: the converted payload is wrapped in a
    /// single-entry named mapping keyed by the variant name.
    pub fn serialize_newtype_variant(
        self,
        name: &str,
        _variant_index: u32,
        variant: &str,
        value: &SourceValue,
    ) -> (r: Result<PyValue, PythonizeError>)
        ensures
            r matches Ok(p) ==> p@ == PyV::Dict(
                seq![(PyV::Str(variant@), pythonized::<P>(value@))],
            ),
            infallible_types::<P>() ==> r is Ok,
        decreases value, 3int,
    {
        let converted = pythonize_custom::<P>(value)?;
        let mut m = <P::NamedMap as PythonizeNamedMappingType>::create_builder(1, name)?;
        m.push_item(PyValue::Str(variant.to_owned()), converted)?;
        proof {
            assert(m.entries() =~= seq![(PyV::Str(variant@), pythonized::<P>(value@))]);
        }
        m.finish()
    }

    /// Opens a collection serializer for a sequence of optionally declared
    /// length.
    pub fn serialize_seq(self, len: Option<usize>) -> (r: Result<
        PythonCollectionSerializer<P>,
        PythonizeError,
    >)
        ensures
            r matches Ok(c) ==> c.converted() == Seq::<PyV>::empty(),
            r is Ok,
    {
        let items: Vec<PyValue> = match len {
            Some(n) => Vec::with_capacity(n),
            None => Vec::new(),
        };
        Ok(PythonCollectionSerializer { items, _types: PhantomData })
    }

    /// Opens a collection serializer for a tuple of the given arity.
    pub fn serialize_tuple(self, len: usize) -> (r: Result<
        PythonCollectionSerializer<P>,
        PythonizeError,
    >)
        ensures
            r matches Ok(c) ==> c.converted() == Seq::<PyV>::empty(),
            r is Ok,
    {
        self.serialize_seq(Some(len))
    }

    /// Opens a collection serializer for a tuple struct of the given arity.
    pub fn serialize_tuple_struct(self, _name: &str, len: usize) -> (r: Result<
        PythonCollectionSerializer<P>,
        PythonizeError,
    >)
        ensures
            r matches Ok(c) ==> c.converted() == Seq::<PyV>::empty(),
            r is Ok,
    {
        self.serialize_seq(Some(len))
    }

    /// Opens a serializer for a tuple-shaped enum variant.
    pub fn serialize_tuple_variant(
        self,
        name: &str,
        _variant_index: u32,
        variant: &str,
        len: usize,
    ) -> (r: Result<PythonTupleVariantSerializer<P>, PythonizeError>)
        ensures
            r matches Ok(s) ==> s.converted() == Seq::<PyV>::empty() && s.variant_name()
                == variant@,
            r is Ok,
    {
        let inner = self.serialize_tuple(len)?;
        Ok(
            PythonTupleVariantSerializer {
                name: name.to_owned(),
                variant: variant.to_owned(),
                inner,
            },
        )
    }

    /// Opens a serializer for a generic map of optionally declared length.
    pub fn serialize_map(self, len: Option<usize>) -> (r: Result<
        PythonMapSerializer<P>,
        PythonizeError,
    >)
        ensures
            r matches Ok(m) ==> m.entries() == Seq::<(PyV, PyV)>::empty() && m.pending() is None,
            infallible_types::<P>() ==> r is Ok,
    {
        let builder = <P::Map as PythonizeMappingType>::create_builder(len)?;
        Ok(PythonMapSerializer { builder, key: None })
    }

    /// Opens a serializer for a struct with the given type name and declared
    /// field count.
    pub fn serialize_struct(self, name: &str, len: usize) -> (r: Result<
        PythonStructDictSerializer<P>,
        PythonizeError,
    >)
        ensures
            r matches Ok(s) ==> s.entries() == Seq::<(PyV, PyV)>::empty(),
            infallible_types::<P>() ==> r is Ok,
    {
        let builder = <P::NamedMap as PythonizeNamedMappingType>::create_builder(len, name)?;
        Ok(PythonStructDictSerializer { builder })
    }

    /// Opens a serializer for a struct-shaped enum variant.
    pub fn serialize_struct_variant(
        self,
        name: &str,
        _variant_index: u32,
        variant: &str,
        len: usize,
    ) -> (r: Result<PythonStructVariantSerializer<P>, PythonizeError>)
        ensures
            r matches Ok(s) ==> s.entries() == Seq::<(PyV, PyV)>::empty() && s.variant_name()
                == variant@,
            infallible_types::<P>() ==> r is Ok,
    {
        let builder = <P::NamedMap as PythonizeNamedMappingType>::create_builder(len, variant)?;
        Ok(
            PythonStructVariantSerializer {
                name: name.to_owned(),
                variant: variant.to_owned(),
                inner: PythonStructDictSerializer { builder },
            },
        )
    }
}

/// Attempt to convert the given source value into a foreign value using the
/// default type set. With the default types no builder can fail, so the
/// conversion always succeeds.
pub fn pythonize(value: &SourceValue) -> (r: Result<PyValue, PythonizeError>)
    ensures
        r matches Ok(p) ==> p@ == pythonized::<PythonizeDefault>(value@),
        r is Ok,
{
    pythonize_custom::<PythonizeDefault>(value)
}

/// Attempt to convert the given source value into a foreign value, using the
/// mapping and sequence types named by `P` for every container in the tree.
pub fn pythonize_custom<P: PythonizeTypes>(value: &SourceValue) -> (r: Result<
    PyValue,
    PythonizeError,
>)
    ensures
        r matches Ok(p) ==> p@ == pythonized::<P>(value@),
        infallible_types::<P>() ==> r is Ok,
    decreases value, 2int,
{
    let ser = Pythonizer::<PythonizeDefault>::custom::<P>();
    match value {
        SourceValue::Bool(b) => ser.serialize_bool(*b),
        SourceValue::I8(n) => ser.serialize_i8(*n),
        SourceValue::I16(n) => ser.serialize_i16(*n),
        SourceValue::I32(n) => ser.serialize_i32(*n),
        SourceValue::I64(n) => ser.serialize_i64(*n),
        SourceValue::U8(n) => ser.serialize_u8(*n),
        SourceValue::U16(n) => ser.serialize_u16(*n),
        SourceValue::U32(n) => ser.serialize_u32(*n),
        SourceValue::U64(n) => ser.serialize_u64(*n),
        SourceValue::Char(c) => ser.serialize_char(*c),
        SourceValue::Str(s) => ser.serialize_str(s.as_str()),
        SourceValue::Bytes(b) => ser.serialize_bytes(b.as_slice()),
        SourceValue::Unit => ser.serialize_unit(),
        SourceValue::UnitStruct(name) => ser.serialize_unit_struct(name.as_str()),
        SourceValue::NewtypeStruct(name, b) => {
            proof {
                assert(decreases_to!(*value => value->NewtypeStruct_1));
            }
            ser.serialize_newtype_struct(name.as_str(), &**b)
        },
        SourceValue::Absent => ser.serialize_none(),
        SourceValue::Present(b) => {
            proof {
                assert(decreases_to!(*value => value->Present_0));
            }
            ser.serialize_some(&**b)
        },
        SourceValue::UnitVariant(name, idx, variant) => ser.serialize_unit_variant(
            name.as_str(),
            *idx,
            variant.as_str(),
        ),
        SourceValue::NewtypeVariant(name, idx, variant, b) => {
            proof {
                assert(decreases_to!(*value => value->NewtypeVariant_3));
            }
            ser.serialize_newtype_variant(name.as_str(), *idx, variant.as_str(), &**b)
        },
        SourceValue::Sequence(items) => {
            let mut col = ser.serialize_seq(Some(items.len()))?;
            serialize_collection_items::<P>(value, items, &mut col)?;
            finish_collection::<P>(value, items, col)
        },
        SourceValue::Tuple(items) => {
            let mut col = ser.serialize_tuple(items.len())?;
            serialize_collection_items::<P>(value, items, &mut col)?;
            finish_collection::<P>(value, items, col)
        },
        SourceValue::TupleStruct(name, items) => {
            let mut col = ser.serialize_tuple_struct(name.as_str(), items.len())?;
            serialize_collection_items::<P>(value, items, &mut col)?;
            finish_collection::<P>(value, items, col)
        },
        SourceValue::TupleVariant(name, idx, variant, items) => {
            let mut tv = ser.serialize_tuple_variant(
                name.as_str(),
                *idx,
                variant.as_str(),
                items.len(),
            )?;
            let mut i: usize = 0;
            while i < items.len()
                invariant
                    i <= items.len(),
                    value is TupleVariant,
                    items == value->TupleVariant_3,
                    tv.variant_name() == value->TupleVariant_2@,
                    tv.converted().len() == i as int,
                    forall|j: int|
                        0 <= j < i ==> tv.converted()[j] == pythonized::<P>(
                            source_view(items@[j]),
                        ),
                decreases items.len() - i,
            {
                proof {
                    assert(decreases_to!(*value => value->TupleVariant_3));
                    assert(decreases_to!(value->TupleVariant_3 => value->TupleVariant_3@));
                    assert(decreases_to!(
                        value->TupleVariant_3@ => value->TupleVariant_3@[i as int]));
                    assert(decreases_to!(*value => value->TupleVariant_3@[i as int]));
                }
                tv.serialize_field(&items[i])?;
                i += 1;
            }
            proof {
                lemma_source_views(items@);
                lemma_pythonized_all::<P>(source_views(items@));
                assert(tv.converted() =~= pythonized_all::<P>(source_views(items@)));
            }
            let r = tv.end()?;
            proof {
                assert(r@ =~~= pythonized::<P>(value@));
            }
            Ok(r)
        },
        SourceValue::Mapping(pairs) => {
            let mut map = ser.serialize_map(Some(pairs.len()))?;
            let mut i: usize = 0;
            while i < pairs.len()
                invariant
                    i <= pairs.len(),
                    value is Mapping,
                    pairs == value->Mapping_0,
                    map.entries().len() == i as int,
                    map.pending() is None || i == 0,
                    forall|j: int|
                        0 <= j < i ==> map.entries()[j] == (
                            pythonized::<P>(source_view(pairs@[j].0)),
                            pythonized::<P>(source_view(pairs@[j].1)),
                        ),
                decreases pairs.len() - i,
            {
                proof {
                    assert(decreases_to!(*value => value->Mapping_0));
                    assert(decreases_to!(value->Mapping_0 => value->Mapping_0@));
                    assert(decreases_to!(value->Mapping_0@ => value->Mapping_0@[i as int]));
                    assert(decreases_to!(
                        value->Mapping_0@[i as int] => value->Mapping_0@[i as int].0));
                    assert(decreases_to!(
                        value->Mapping_0@[i as int] => value->Mapping_0@[i as int].1));
                    assert(decreases_to!(*value => value->Mapping_0@[i as int].0));
                    assert(decreases_to!(*value => value->Mapping_0@[i as int].1));
                }
                let pair = &pairs[i];
                map.serialize_key(&pair.0)?;
                map.serialize_value(&pair.1)?;
                i += 1;
            }
            proof {
                lemma_source_pair_views(pairs@);
                lemma_pythonized_pairs::<P>(source_pair_views(pairs@));
                assert(map.entries() =~= pythonized_pairs::<P>(source_pair_views(pairs@)));
            }
            let r = map.end()?;
            proof {
                assert(r@ =~~= pythonized::<P>(value@));
            }
            Ok(r)
        },
        SourceValue::Struct(name, fields) => {
            let mut st = ser.serialize_struct(name.as_str(), fields.len())?;
            let mut i: usize = 0;
            while i < fields.len()
                invariant
                    i <= fields.len(),
                    value is Struct,
                    fields == value->Struct_1,
                    st.entries().len() == i as int,
                    forall|j: int|
                        0 <= j < i ==> st.entries()[j] == (
                            PyV::Str(fields@[j].0@),
                            pythonized::<P>(source_view(fields@[j].1)),
                        ),
                decreases fields.len() - i,
            {
                proof {
                    assert(decreases_to!(*value => value->Struct_1));
                    assert(decreases_to!(value->Struct_1 => value->Struct_1@));
                    assert(decreases_to!(value->Struct_1@ => value->Struct_1@[i as int]));
                    assert(decreases_to!(
                        value->Struct_1@[i as int] => value->Struct_1@[i as int].1));
                    assert(decreases_to!(*value => value->Struct_1@[i as int].1));
                }
                let field = &fields[i];
                st.serialize_field(field.0.as_str(), &field.1)?;
                i += 1;
            }
            proof {
                lemma_source_field_views(fields@);
                lemma_pythonized_fields::<P>(source_field_views(fields@));
                assert(st.entries() =~= pythonized_fields::<P>(source_field_views(fields@)));
            }
            let r = st.end()?;
            proof {
                assert(r@ =~~= pythonized::<P>(value@));
            }
            Ok(r)
        },
        SourceValue::StructVariant(name, idx, variant, fields) => {
            let mut sv = ser.serialize_struct_variant(
                name.as_str(),
                *idx,
                variant.as_str(),
                fields.len(),
            )?;
            let mut i: usize = 0;
            while i < fields.len()
                invariant
                    i <= fields.len(),
                    value is StructVariant,
                    fields == value->StructVariant_3,
                    sv.variant_name() == value->StructVariant_2@,
                    sv.entries().len() == i as int,
                    forall|j: int|
                        0 <= j < i ==> sv.entries()[j] == (
                            PyV::Str(fields@[j].0@),
                            pythonized::<P>(source_view(fields@[j].1)),
                        ),
                decreases fields.len() - i,
            {
                proof {
                    assert(decreases_to!(*value => value->StructVariant_3));
                    assert(decreases_to!(value->StructVariant_3 => value->StructVariant_3@));
                    assert(decreases_to!(
                        value->StructVariant_3@ => value->StructVariant_3@[i as int]));
                    assert(decreases_to!(
                        value->StructVariant_3@[i as int] => value->StructVariant_3@[i as int].1));
                    assert(decreases_to!(*value => value->StructVariant_3@[i as int].1));
                }
                let field = &fields[i];
                sv.serialize_field(field.0.as_str(), &field.1)?;
                i += 1;
            }
            proof {
                lemma_source_field_views(fields@);
                lemma_pythonized_fields::<P>(source_field_views(fields@));
                assert(sv.entries() =~= pythonized_fields::<P>(source_field_views(fields@)));
            }
            let r = sv.end()?;
            proof {
                assert(r@ =~~= pythonized::<P>(value@));
            }
            Ok(r)
        },
    }
}

/// Feeds every element of `items` to the collection serializer in order.
/// `whole` is the source value the items belong to, which bounds the
/// recursion.
fn serialize_collection_items<P: PythonizeTypes>(
    whole: &SourceValue,
    items: &Vec<SourceValue>,
    col: &mut PythonCollectionSerializer<P>,
) -> (r: Result<(), PythonizeError>)
    requires
        (*whole matches SourceValue::Sequence(v) && v == *items) || (
        *whole matches SourceValue::Tuple(v) && v == *items) || (
        *whole matches SourceValue::TupleStruct(_, v) && v == *items),
        old(col).converted() == Seq::<PyV>::empty(),
    ensures
        r is Ok ==> final(col).converted() == pythonized_all::<P>(source_views(items@)),
        infallible_types::<P>() ==> r is Ok,
    decreases whole, 1int,
{
    let mut i: usize = 0;
    while i < items.len()
        invariant
            i <= items.len(),
            (*whole matches SourceValue::Sequence(v) && v == *items) || (
            *whole matches SourceValue::Tuple(v) && v == *items) || (
            *whole matches SourceValue::TupleStruct(_, v) && v == *items),
            col.converted().len() == i as int,
            forall|j: int|
                0 <= j < i ==> col.converted()[j] == pythonized::<P>(source_view(items@[j])),
        decreases items.len() - i,
    {
        proof {
            if whole is Sequence {
                assert(decreases_to!(*whole => whole->Sequence_0));
                assert(decreases_to!(whole->Sequence_0 => whole->Sequence_0@));
                assert(decreases_to!(whole->Sequence_0@ => whole->Sequence_0@[i as int]));
                assert(decreases_to!(*whole => items@[i as int]));
            } else if whole is Tuple {
                assert(decreases_to!(*whole => whole->Tuple_0));
                assert(decreases_to!(whole->Tuple_0 => whole->Tuple_0@));
                assert(decreases_to!(whole->Tuple_0@ => whole->Tuple_0@[i as int]));
                assert(decreases_to!(*whole => items@[i as int]));
            } else {
                assert(decreases_to!(*whole => whole->TupleStruct_1));
                assert(decreases_to!(whole->TupleStruct_1 => whole->TupleStruct_1@));
                assert(decreases_to!(whole->TupleStruct_1@ => whole->TupleStruct_1@[i as int]));
                assert(decreases_to!(*whole => items@[i as int]));
            }
        }
        col.serialize_element(&items[i])?;
        i += 1;
    }
    proof {
        lemma_source_views(items@);
        lemma_pythonized_all::<P>(source_views(items@));
        assert(col.converted() =~= pythonized_all::<P>(source_views(items@)));
    }
    Ok(())
}

/// Closes a collection serializer holding the converted elements of `items`
/// and relates the result to the conversion of the whole source value.
fn finish_collection<P: PythonizeTypes>(
    whole: &SourceValue,
    items: &Vec<SourceValue>,
    col: PythonCollectionSerializer<P>,
) -> (r: Result<PyValue, PythonizeError>)
    requires
        (*whole matches SourceValue::Sequence(v) && v == *items) || (
        *whole matches SourceValue::Tuple(v) && v == *items) || (
        *whole matches SourceValue::TupleStruct(_, v) && v == *items),
        col.converted() == pythonized_all::<P>(source_views(items@)),
    ensures
        r matches Ok(p) ==> p@ == pythonized::<P>(whole@),
        infallible_types::<P>() ==> r is Ok,
{
    let r = col.end()?;
    proof {
        assert(r@ =~~= pythonized::<P>(whole@));
    }
    Ok(r)
}

} // verus!

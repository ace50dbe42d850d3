//! The output model: synthesized schema values describing a type's
//! wire-level shape, together with their mathematical models and views.

use vstd::prelude::*;
use crate::descriptor::{TypeDescriptor, TypeDescV, ty_view};

verus! {

// ---------------------------------------------------------------------------
// Executable output model
// ---------------------------------------------------------------------------

/// An unresolved reference to another type's own derivation. The emission
/// collaborator turns a `Call` into an invocation of that type's derivation
/// entry point; an `Opaque` reference is a fully qualified external path
/// left as it stands.
#[derive(Debug, PartialEq)]
pub enum Deferred {
    Call {
        /// Path of the type whose derivation is called.
        path: Vec<String>,
        /// The namespace handed to that derivation.
        namespace: String,
        /// The single type parameter of a parameterized derivation, if any.
        parameter: Option<Box<TypeDescriptor>>,
    },
    Opaque {
        /// The already-qualified external path, kept unresolved.
        path: Vec<String>,
    },
}

/// One field of a record schema.
#[derive(Debug, PartialEq)]
pub struct RecordField {
    pub name: String,
    pub schema: SchemaValue,
    pub position: usize,
}

/// A record schema: an ordered field list plus a name-to-position lookup
/// table.
#[derive(Debug, PartialEq)]
pub struct RecordSchema {
    pub name: String,
    pub namespace: String,
    pub fields: Vec<RecordField>,
    pub lookup: Vec<(String, usize)>,
}

/// A plain enumeration schema: ordered symbol names.
#[derive(Debug, PartialEq)]
pub struct EnumSchema {
    pub name: String,
    pub namespace: String,
    pub symbols: Vec<String>,
}

/// A synthesized schema value.
#[derive(Debug, PartialEq)]
pub enum SchemaValue {
    Null,
    Primitive(String),
    Deferred(Deferred),
    Array(Box<SchemaValue>),
    Record(RecordSchema),
    Enum(EnumSchema),
    Union(Vec<SchemaValue>),
}

// ---------------------------------------------------------------------------
// Mathematical models
// ---------------------------------------------------------------------------

/// Model of `Deferred`.
pub enum DeferredV {
    Call { path: Seq<Seq<char>>, namespace: Seq<char>, parameter: Option<Box<TypeDescV>> },
    Opaque { path: Seq<Seq<char>> },
}

/// Model of `RecordField`.
pub struct RecordFieldV {
    pub name: Seq<char>,
    pub schema: SchemaV,
    pub position: int,
}

/// Model of `RecordSchema`.
pub struct RecordSchemaV {
    pub name: Seq<char>,
    pub namespace: Seq<char>,
    pub fields: Seq<RecordFieldV>,
    pub lookup: Seq<(Seq<char>, int)>,
}

/// Model of `EnumSchema`.
pub struct EnumSchemaV {
    pub name: Seq<char>,
    pub namespace: Seq<char>,
    pub symbols: Seq<Seq<char>>,
}

/// Model of `SchemaValue`.
pub enum SchemaV {
    Null,
    Primitive { name: Seq<char> },
    Deferred { deferred: DeferredV },
    Array { elem: Box<SchemaV> },
    Record { record: RecordSchemaV },
    Enum { data: EnumSchemaV },
    Union { branches: Seq<SchemaV> },
}

// ---------------------------------------------------------------------------
// View functions
// ---------------------------------------------------------------------------

pub open spec fn strings_view(s: Seq<String>) -> Seq<Seq<char>> {
    s.map_values(|x: String| x@)
}

pub open spec fn lookup_view(s: Seq<(String, usize)>) -> Seq<(Seq<char>, int)> {
    s.map_values(|p: (String, usize)| (p.0@, p.1 as int))
}

pub open spec fn deferred_view(d: Deferred) -> DeferredV {
    match d {
        Deferred::Call { path, namespace, parameter } => DeferredV::Call {
            path: strings_view(path@),
            namespace: namespace@,
            parameter: match parameter {
                Option::Some(p) => Option::Some(Box::new(ty_view(*p))),
                Option::None => Option::None,
            },
        },
        Deferred::Opaque { path } => DeferredV::Opaque { path: strings_view(path@) },
    }
}

pub open spec fn schema_view(s: SchemaValue) -> SchemaV
    decreases s, 2int,
{
    match s {
        SchemaValue::Null => SchemaV::Null,
        SchemaValue::Primitive(name) => SchemaV::Primitive { name: name@ },
        SchemaValue::Deferred(d) => SchemaV::Deferred { deferred: deferred_view(d) },
        SchemaValue::Array(elem) => SchemaV::Array { elem: Box::new(schema_view(*elem)) },
        SchemaValue::Record(r) => SchemaV::Record { record: record_view(r) },
        SchemaValue::Enum(e) => SchemaV::Enum { data: enum_view(e) },
        SchemaValue::Union(branches) => SchemaV::Union { branches: schemas_view(branches@) },
    }
}

pub open spec fn schemas_view(s: Seq<SchemaValue>) -> Seq<SchemaV>
    decreases s, 0int,
{
    if s.len() == 0 {
        Seq::empty()
    } else {
        schemas_view(s.drop_last()).push(schema_view(s.last()))
    }
}

pub open spec fn rfield_view(f: RecordField) -> RecordFieldV
    decreases f, 1int,
{
    RecordFieldV { name: f.name@, schema: schema_view(f.schema), position: f.position as int }
}

pub open spec fn rfields_view(s: Seq<RecordField>) -> Seq<RecordFieldV>
    decreases s, 0int,
{
    if s.len() == 0 {
        Seq::empty()
    } else {
        rfields_view(s.drop_last()).push(rfield_view(s.last()))
    }
}

pub open spec fn record_view(r: RecordSchema) -> RecordSchemaV
    decreases r, 1int,
{
    RecordSchemaV {
        name: r.name@,
        namespace: r.namespace@,
        fields: rfields_view(r.fields@),
        lookup: lookup_view(r.lookup@),
    }
}

pub open spec fn enum_view(e: EnumSchema) -> EnumSchemaV {
    EnumSchemaV { name: e.name@, namespace: e.namespace@, symbols: strings_view(e.symbols@) }
}

impl View for Deferred {
    type V = DeferredV;

    open spec fn view(&self) -> DeferredV {
        deferred_view(*self)
    }
}

impl View for RecordField {
    type V = RecordFieldV;

    open spec fn view(&self) -> RecordFieldV {
        rfield_view(*self)
    }
}

impl View for RecordSchema {
    type V = RecordSchemaV;

    open spec fn view(&self) -> RecordSchemaV {
        record_view(*self)
    }
}

impl View for EnumSchema {
    type V = EnumSchemaV;

    open spec fn view(&self) -> EnumSchemaV {
        enum_view(*self)
    }
}

impl View for SchemaValue {
    type V = SchemaV;

    open spec fn view(&self) -> SchemaV {
        schema_view(*self)
    }
}

// ---------------------------------------------------------------------------
// Pointwise characterisation of the sequence views
// ---------------------------------------------------------------------------

pub proof fn lemma_schemas_view(s: Seq<SchemaValue>)
    ensures
        schemas_view(s).len() == s.len(),
        forall|i: int| 0 <= i < s.len() ==> schemas_view(s)[i] == schema_view(s[i]),
    decreases s.len(),
{
    if s.len() > 0 {
        lemma_schemas_view(s.drop_last());
    }
}

pub proof fn lemma_rfields_view(s: Seq<RecordField>)
    ensures
        rfields_view(s).len() == s.len(),
        forall|i: int| 0 <= i < s.len() ==> rfields_view(s)[i] == rfield_view(s[i]),
    decreases s.len(),
{
    if s.len() > 0 {
        lemma_rfields_view(s.drop_last());
    }
}

} // verus!

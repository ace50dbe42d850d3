//! A schema-derivation engine: given the structural description of a type
//! (its fields or variants and their declared element types), it
//! synthesizes the canonical wire-schema value describing that type.
//! Container schemas are built recursively from the schemas of their
//! element types; references to other named types stay deferred calls to
//! those types' own derivations.

pub mod descriptor;
pub mod error;
pub mod laws;
pub mod maps;
pub mod namespace;
pub mod render;
pub mod schema;

use vstd::prelude::*;
use crate::descriptor::{
    FieldDescriptor, FieldV, TypeData, TypeDataV, VariantDescriptor, VariantPayload, VariantV,
    fields_view, lemma_variants_view, variant_view, variants_view,
};
use crate::error::{Error, ErrorV};
use crate::maps::{
    map_enum, map_struct, map_union, out_view, spec_all_kept_unit, spec_map_enum,
    spec_map_struct, spec_map_union,
};
use crate::namespace::{resolve, spec_resolve};
use crate::schema::{SchemaV, SchemaValue};

verus! {

/// What deriving a struct produces: a record schema named after the
/// struct, in the namespace of the parent extended by the struct's name.
pub open spec fn spec_derive_struct(
    name: Seq<char>,
    parent: Option<Seq<char>>,
    fields: Seq<FieldV>,
) -> Result<SchemaV, ErrorV> {
    match spec_map_struct(name, spec_resolve(parent, name), fields) {
        Result::Ok(r) => Result::Ok(SchemaV::Record { record: r }),
        Result::Err(e) => Result::Err(e),
    }
}

/// What deriving an enum produces: a plain enumeration schema when every
/// surviving variant is a unit variant, else a union with one branch per
/// surviving variant.
pub open spec fn spec_derive_enum(
    name: Seq<char>,
    parent: Option<Seq<char>>,
    variants: Seq<VariantV>,
) -> Result<SchemaV, ErrorV> {
    if spec_all_kept_unit(variants) {
        Result::Ok(SchemaV::Enum { data: spec_map_enum(name, parent, variants) })
    } else {
        spec_map_union(spec_resolve(parent, name), variants)
    }
}

/// What deriving a type produces, by the shape of its body.
pub open spec fn spec_derive(
    name: Seq<char>,
    parent: Option<Seq<char>>,
    data: TypeDataV,
) -> Result<SchemaV, ErrorV> {
    match data {
        TypeDataV::Struct { fields } => spec_derive_struct(name, parent, fields),
        TypeDataV::Enum { variants } => spec_derive_enum(name, parent, variants),
    }
}

/// Derives the record schema of a struct called `name` with the given
/// field list, inside the optional parent namespace.
pub fn derive_struct(
    name: &String,
    parent_namespace: &Option<String>,
    fields: &Vec<FieldDescriptor>,
) -> (r: Result<SchemaValue, Error>)
    ensures
        out_view(r) == spec_derive_struct(
            name@,
            parent_namespace.deep_view(),
            fields_view(fields@),
        ),
{
    let ns = resolve(parent_namespace, name);
    match map_struct(name, &ns, fields) {
        Result::Ok(rec) => Result::Ok(SchemaValue::Record(rec)),
        Result::Err(e) => Result::Err(e),
    }
}

/// Derives the schema of an enum called `name` with the given variant
/// list: an enumeration when every surviving variant is unit, else a
/// union.
pub fn derive_enum(
    name: &String,
    parent_namespace: &Option<String>,
    variants: &Vec<VariantDescriptor>,
) -> (r: Result<SchemaValue, Error>)
    ensures
        out_view(r) == spec_derive_enum(
            name@,
            parent_namespace.deep_view(),
            variants_view(variants@),
        ),
{
    proof {
        lemma_variants_view(variants@);
    }
    let ghost vvars = variants_view(variants@);
    let mut all_unit = true;
    let mut i: usize = 0;
    while i < variants.len()
        invariant
            0 <= i <= variants@.len(),
            vvars == variants_view(variants@),
            vvars.len() == variants@.len(),
            forall|j: int| 0 <= j < variants@.len() ==> vvars[j] == variant_view(variants@[j]),
            all_unit == (forall|j: int|
                0 <= j < i as int && !(#[trigger] vvars[j]).excluded ==> vvars[j].payload
                    is Unit),
        decreases variants@.len() - i,
    {
        let v = &variants[i];
        let unit = match &v.payload {
            VariantPayload::Unit => true,
            VariantPayload::Tuple(_) => false,
            VariantPayload::Struct(_) => false,
        };
        if !v.excluded && !unit {
            all_unit = false;
        }
        proof {
            assert(vvars[i as int] == variant_view(variants@[i as int]));
            assert(vvars[i as int].excluded == v.excluded);
            assert(unit == (vvars[i as int].payload is Unit));
        }
        i = i + 1;
    }
    proof {
        assert(all_unit == spec_all_kept_unit(vvars));
    }
    if all_unit {
        let e = map_enum(name, parent_namespace, variants);
        Result::Ok(SchemaValue::Enum(e))
    } else {
        let ns = resolve(parent_namespace, name);
        map_union(&ns, variants)
    }
}

/// The derivation entry point of a type: its name, the optional enclosing
/// namespace, and its body as a field or variant list.
pub fn derive(
    name: &String,
    parent_namespace: &Option<String>,
    data: &TypeData,
) -> (r: Result<SchemaValue, Error>)
    ensures
        out_view(r) == spec_derive(name@, parent_namespace.deep_view(), data@),
{
    match data {
        TypeData::Struct(fields) => derive_struct(name, parent_namespace, fields),
        TypeData::Enum(variants) => derive_enum(name, parent_namespace, variants),
    }
}

} // verus!

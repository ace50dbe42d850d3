//! The schema synthesis engine: the recursive mapping from type descriptors
//! to schema values, the generic dispatch table for the indirection,
//! optional and list wrappers, and the record builder for tuples and
//! named-field records.

use vstd::prelude::*;
use crate::descriptor::{
    ArgumentV, ArgumentsV, FieldDescriptor, FieldV, GenericArgument, PathSegment,
    PayloadV, SegmentArguments, SegmentV, TypeDescV, TypeDescriptor, VariantDescriptor, VariantPayload,
    VariantV, arg_seq_view, arg_view, clone_ty, field_view, fields_view, lemma_arg_seq_view,
    lemma_fields_view, lemma_segs_view, lemma_tys_view, lemma_variants_view, seg_view,
    segs_view, ty_view, tys_view, variant_view, variants_view,
};
use crate::error::{Error, ErrorV};
use crate::namespace::spec_resolve;
use crate::render::{
    decimal_string, render_seg, render_segs, render_ty, spec_decimal, spec_tuple_name,
    text_seg, text_segs, text_ty, tuple_name,
};
use crate::schema::{
    Deferred, DeferredV, EnumSchema, EnumSchemaV, RecordField, RecordFieldV, RecordSchema,
    RecordSchemaV, SchemaV, SchemaValue, lemma_rfields_view, lemma_schemas_view, lookup_view,
    rfield_view, rfields_view, schema_view, schemas_view, strings_view,
};

verus! {

// ---------------------------------------------------------------------------
// Views of results
// ---------------------------------------------------------------------------

pub open spec fn out_view(r: Result<SchemaValue, Error>) -> Result<SchemaV, ErrorV> {
    match r {
        Result::Ok(s) => Result::Ok(schema_view(s)),
        Result::Err(e) => Result::Err(e@),
    }
}

pub open spec fn recout_view(r: Result<RecordSchema, Error>) -> Result<RecordSchemaV, ErrorV> {
    match r {
        Result::Ok(s) => Result::Ok(s@),
        Result::Err(e) => Result::Err(e@),
    }
}

pub open spec fn opt_ref_view(v: Option<&String>) -> Option<Seq<char>> {
    match v {
        Option::Some(s) => Option::Some(s@),
        Option::None => Option::None,
    }
}

// ---------------------------------------------------------------------------
// The mathematical model of the engine
// ---------------------------------------------------------------------------

/// A deferred call to the derivation of the type called `name`, handed the
/// namespace `ns`.
pub open spec fn spec_map_id(ns: Seq<char>, name: Seq<char>) -> SchemaV {
    SchemaV::Deferred {
        deferred: DeferredV::Call {
            path: seq![name],
            namespace: ns,
            parameter: Option::None,
        },
    }
}

/// The names the generic dispatch table special-cases: the indirection,
/// optional and list wrappers.
pub open spec fn spec_is_wrapper_name(name: Seq<char>) -> bool {
    name == "Box"@ || name == "Option"@ || name == "Vec"@
}

/// What `deriveSchema` produces for a descriptor `d` in namespace `ns`.
pub open spec fn spec_map_ty(d: TypeDescV, ns: Seq<char>) -> Result<SchemaV, ErrorV>
    decreases d, 0int,
{
    match d {
        TypeDescV::Primitive { name } => Result::Ok(spec_map_id(ns, name)),
        TypeDescV::Text => Result::Ok(spec_map_id(ns, "String"@)),
        TypeDescV::Named { segments } => spec_map_path(segments, ns),
        TypeDescV::FixedArray { elem } => match spec_map_ty(*elem, ns) {
            Result::Ok(s) => Result::Ok(SchemaV::Array { elem: Box::new(s) }),
            Result::Err(e) => Result::Err(e),
        },
        TypeDescV::Tuple { elems } => match spec_map_tuple(elems, ns, Option::None) {
            Result::Ok(r) => Result::Ok(SchemaV::Record { record: r }),
            Result::Err(e) => Result::Err(e),
        },
    }
}

/// The names of the segments of an already-qualified external path that
/// carry no generic arguments.
pub open spec fn spec_plain_names(s: Seq<SegmentV>) -> Seq<Seq<char>>
    decreases s,
{
    if s.len() == 0 {
        Seq::empty()
    } else if s.last().arguments is Missing {
        spec_plain_names(s.drop_last()).push(s.last().name)
    } else {
        spec_plain_names(s.drop_last())
    }
}

pub open spec fn spec_map_path(segs: Seq<SegmentV>, ns: Seq<char>) -> Result<SchemaV, ErrorV>
    decreases segs, 2int,
{
    if segs.len() == 0 {
        Result::Err(ErrorV::EmptyPath { text: text_segs(segs) })
    } else if segs.len() == 1 {
        if spec_is_wrapper_name(segs[0].name) || !(segs[0].arguments is Missing) {
            spec_map_segs(segs[0], ns)
        } else {
            Result::Ok(spec_map_id(ns, segs[0].name))
        }
    } else {
        Result::Ok(
            SchemaV::Deferred { deferred: DeferredV::Opaque { path: spec_plain_names(segs) } },
        )
    }
}

pub open spec fn spec_map_segs(seg: SegmentV, ns: Seq<char>) -> Result<SchemaV, ErrorV>
    decreases seg, 1int,
{
    if seg.name == "Box"@ {
        spec_map_box(seg, ns)
    } else if seg.name == "Option"@ {
        spec_map_option(seg, ns)
    } else if seg.name == "Vec"@ {
        spec_map_vec(seg, ns)
    } else {
        match seg.arguments {
            ArgumentsV::Missing => Result::Err(
                ErrorV::MissingAngleBrackets { text: text_seg(seg) },
            ),
            ArgumentsV::AngleBracketed { args } => {
                if args.len() == 0 {
                    Result::Err(ErrorV::MissingArgs { text: text_seg(seg) })
                } else if args.len() == 1 {
                    match args[0] {
                        ArgumentV::TypeArgument { ty } => Result::Ok(
                            SchemaV::Deferred {
                                deferred: DeferredV::Call {
                                    path: seq![seg.name],
                                    namespace: ns,
                                    parameter: Option::Some(ty),
                                },
                            },
                        ),
                        ArgumentV::NonType { .. } => Result::Err(
                            ErrorV::NonTypeGenericArgument { text: text_seg(seg) },
                        ),
                    }
                } else {
                    Result::Err(ErrorV::MultipleArgs { text: text_seg(seg) })
                }
            },
        }
    }
}

/// The indirection wrapper is transparent: the parameter's own schema, with
/// no schema-level trace of the indirection.
pub open spec fn spec_map_box(seg: SegmentV, ns: Seq<char>) -> Result<SchemaV, ErrorV>
    decreases seg, 0int,
{
    match seg.arguments {
        ArgumentsV::Missing => Result::Err(ErrorV::MissingAngleBrackets { text: text_seg(seg) }),
        ArgumentsV::AngleBracketed { args } => {
            if args.len() == 0 {
                Result::Err(ErrorV::MissingArgs { text: text_seg(seg) })
            } else if args.len() == 1 {
                match args[0] {
                    ArgumentV::TypeArgument { ty } => spec_map_ty(*ty, ns),
                    ArgumentV::NonType { .. } => Result::Err(
                        ErrorV::NonTypeGenericArgument { text: text_seg(seg) },
                    ),
                }
            } else {
                Result::Err(ErrorV::MultipleArgs { text: text_seg(seg) })
            }
        },
    }
}

/// The optional wrapper: a union of the null schema and the parameter's own
/// schema.
pub open spec fn spec_map_option(seg: SegmentV, ns: Seq<char>) -> Result<SchemaV, ErrorV>
    decreases seg, 0int,
{
    match seg.arguments {
        ArgumentsV::Missing => Result::Err(ErrorV::MissingAngleBrackets { text: text_seg(seg) }),
        ArgumentsV::AngleBracketed { args } => {
            if args.len() == 0 {
                Result::Err(ErrorV::MissingArgs { text: text_seg(seg) })
            } else if args.len() == 1 {
                match args[0] {
                    ArgumentV::TypeArgument { ty } => match spec_map_ty(*ty, ns) {
                        Result::Ok(inner) => Result::Ok(
                            SchemaV::Union { branches: seq![SchemaV::Null, inner] },
                        ),
                        Result::Err(e) => Result::Err(e),
                    },
                    ArgumentV::NonType { .. } => Result::Err(
                        ErrorV::NonTypeGenericArgument { text: text_seg(seg) },
                    ),
                }
            } else {
                Result::Err(ErrorV::MultipleArgs { text: text_seg(seg) })
            }
        },
    }
}

/// The list wrapper: an array of the parameter's own schema.
pub open spec fn spec_map_vec(seg: SegmentV, ns: Seq<char>) -> Result<SchemaV, ErrorV>
    decreases seg, 0int,
{
    match seg.arguments {
        ArgumentsV::Missing => Result::Err(ErrorV::MissingAngleBrackets { text: text_seg(seg) }),
        ArgumentsV::AngleBracketed { args } => {
            if args.len() == 0 {
                Result::Err(ErrorV::MissingArgs { text: text_seg(seg) })
            } else if args.len() == 1 {
                match args[0] {
                    ArgumentV::TypeArgument { ty } => match spec_map_ty(*ty, ns) {
                        Result::Ok(inner) => Result::Ok(
                            SchemaV::Array { elem: Box::new(inner) },
                        ),
                        Result::Err(e) => Result::Err(e),
                    },
                    ArgumentV::NonType { .. } => Result::Err(
                        ErrorV::NonTypeGenericArgument { text: text_seg(seg) },
                    ),
                }
            } else {
                Result::Err(ErrorV::MultipleArgs { text: text_seg(seg) })
            }
        },
    }
}

/// The schemas of the elements `elems[i..]`, derived in order with the
/// namespace `ns`, stopping at the first error.
pub open spec fn spec_elem_schemas(elems: Seq<TypeDescV>, ns: Seq<char>, i: int) -> Result<
    Seq<SchemaV>,
    ErrorV,
>
    decreases elems, elems.len() - i,
{
    if i < 0 || i >= elems.len() {
        Result::Ok(Seq::empty())
    } else {
        match spec_map_ty(elems[i], ns) {
            Result::Err(e) => Result::Err(e),
            Result::Ok(s) => match spec_elem_schemas(elems, ns, i + 1) {
                Result::Err(e) => Result::Err(e),
                Result::Ok(rest) => Result::Ok(seq![s] + rest),
            },
        }
    }
}

pub open spec fn combine_schemas(done: Seq<SchemaV>, rest: Result<Seq<SchemaV>, ErrorV>) -> Result<
    Seq<SchemaV>,
    ErrorV,
> {
    match rest {
        Result::Ok(r) => Result::Ok(done + r),
        Result::Err(e) => Result::Err(e),
    }
}

/// The record synthesized for a tuple: fields named by their decimal
/// positions, a synthetic record name derived from the element types, and a
/// namespace extended by the variant name when the tuple is a variant
/// payload.
pub open spec fn spec_map_tuple(
    elems: Seq<TypeDescV>,
    ns: Seq<char>,
    variant: Option<Seq<char>>,
) -> Result<RecordSchemaV, ErrorV>
    decreases elems, elems.len() + 1int,
{
    let ns2 = match variant {
        Option::Some(v) => spec_resolve(Option::Some(ns), v),
        Option::None => ns,
    };
    match spec_elem_schemas(elems, ns2, 0) {
        Result::Err(e) => Result::Err(e),
        Result::Ok(schemas) => Result::Ok(
            RecordSchemaV {
                name: spec_tuple_name(elems),
                namespace: ns2,
                fields: Seq::new(
                    schemas.len(),
                    |i: int| RecordFieldV {
                        name: spec_decimal(i as nat),
                        schema: schemas[i],
                        position: i,
                    },
                ),
                lookup: Seq::new(schemas.len(), |i: int| (spec_decimal(i as nat), i)),
            },
        ),
    }
}

// ---------------------------------------------------------------------------
// The executable engine
// ---------------------------------------------------------------------------

/// Whether the name held by `s` is the literal `lit`.
fn is_called(s: &String, lit: &str) -> (b: bool)
    ensures
        b == (s@ == lit@),
{
    let other = String::from_str(lit);
    *s == other
}

/// A deferred call to the derivation of the type called `name`, handed the
/// namespace `ns`.
pub fn map_id(ns: &String, name: &String) -> (r: SchemaValue)
    ensures
        r@ == spec_map_id(ns@, name@),
{
    let path: Vec<String> = vec![name.clone()];
    proof {
        assert(strings_view(path@) =~= seq![name@]);
    }
    SchemaValue::Deferred(
        Deferred::Call { path, namespace: ns.clone(), parameter: Option::None },
    )
}

/// The schema of the type descriptor `ty` in namespace `ns`: the recursive
/// core of the engine.
pub fn map_ty(ns: &String, ty: &TypeDescriptor) -> (r: Result<SchemaValue, Error>)
    ensures
        out_view(r) == spec_map_ty(ty@, ns@),
    decreases ty, 3int,
{
    match ty {
        TypeDescriptor::Primitive(name) => Result::Ok(map_id(ns, name)),
        TypeDescriptor::Text => Result::Ok(map_id(ns, &String::from_str("String"))),
        TypeDescriptor::Named(segments) => map_path(ns, segments),
        TypeDescriptor::FixedArray(elem) => match map_ty(ns, elem) {
            Result::Ok(s) => Result::Ok(SchemaValue::Array(Box::new(s))),
            Result::Err(e) => Result::Err(e),
        },
        TypeDescriptor::Tuple(elems) => match map_tuple(ns, Option::None, elems) {
            Result::Ok(rec) => Result::Ok(SchemaValue::Record(rec)),
            Result::Err(e) => Result::Err(e),
        },
    }
}

/// Dispatch over the shape of a named reference: empty paths fail, a single
/// plain identifier defers to that type's derivation, a single generic
/// segment goes through the dispatch table, and a longer path is kept as an
/// opaque qualified reference.
pub fn map_path(ns: &String, segments: &Vec<PathSegment>) -> (r: Result<SchemaValue, Error>)
    ensures
        out_view(r) == spec_map_path(segs_view(segments@), ns@),
    decreases segments, 2int,
{
    proof {
        lemma_segs_view(segments@);
    }
    let ghost vsegs = segs_view(segments@);
    if segments.len() == 0 {
        Result::Err(Error::EmptyPath(render_segs(segments)))
    } else if segments.len() == 1 {
        let seg = &segments[0];
        let wrapper = is_called(&seg.name, "Box") || is_called(&seg.name, "Option")
            || is_called(&seg.name, "Vec");
        let plain = match &seg.arguments {
            SegmentArguments::Missing => true,
            SegmentArguments::AngleBracketed(_) => false,
        };
        if wrapper || !plain {
            map_segs(ns, seg)
        } else {
            Result::Ok(map_id(ns, &seg.name))
        }
    } else {
        let mut path: Vec<String> = Vec::new();
        let mut i: usize = 0;
        while i < segments.len()
            invariant
                0 <= i <= segments@.len(),
                vsegs == segs_view(segments@),
                vsegs.len() == segments@.len(),
                forall|j: int| 0 <= j < segments@.len() ==> vsegs[j] == seg_view(segments@[j]),
                strings_view(path@) == spec_plain_names(vsegs.take(i as int)),
            decreases segments@.len() - i,
        {
            let keep = match &segments[i].arguments {
                SegmentArguments::Missing => true,
                SegmentArguments::AngleBracketed(_) => false,
            };
            if keep {
                let n = segments[i].name.clone();
                path.push(n);
            }
            proof {
                assert(vsegs.take(i + 1int).drop_last() =~= vsegs.take(i as int));
                assert(vsegs.take(i + 1int).last() == vsegs[i as int]);
                assert(strings_view(path@) =~= spec_plain_names(vsegs.take(i + 1int)));
            }
            i = i + 1;
        }
        proof {
            assert(vsegs.take(segments@.len() as int) =~= vsegs);
        }
        Result::Ok(SchemaValue::Deferred(Deferred::Opaque { path }))
    }
}

/// The generic dispatch table: the three special-cased wrapper names, and
/// the general handling of any other named generic with one type parameter.
pub fn map_segs(ns: &String, seg: &PathSegment) -> (r: Result<SchemaValue, Error>)
    ensures
        out_view(r) == spec_map_segs(seg@, ns@),
    decreases seg, 2int,
{
    if is_called(&seg.name, "Box") {
        map_box(ns, seg)
    } else if is_called(&seg.name, "Option") {
        map_option(ns, seg)
    } else if is_called(&seg.name, "Vec") {
        map_vec(ns, seg)
    } else {
        match &seg.arguments {
            SegmentArguments::Missing => Result::Err(
                Error::MissingAngleBrackets(render_seg(seg)),
            ),
            SegmentArguments::AngleBracketed(args) => {
                proof {
                    lemma_arg_seq_view(args@);
                }
                if args.len() == 0 {
                    Result::Err(Error::MissingArgs(render_seg(seg)))
                } else if args.len() == 1 {
                    match &args[0] {
                        GenericArgument::TypeArgument(t) => {
                            let path: Vec<String> = vec![seg.name.clone()];
                            proof {
                                assert(strings_view(path@) =~= seq![seg.name@]);
                            }
                            Result::Ok(
                                SchemaValue::Deferred(
                                    Deferred::Call {
                                        path,
                                        namespace: ns.clone(),
                                        parameter: Option::Some(Box::new(clone_ty(t))),
                                    },
                                ),
                            )
                        },
                        GenericArgument::NonType(_) => Result::Err(
                            Error::NonTypeGenericArgument(render_seg(seg)),
                        ),
                    }
                } else {
                    Result::Err(Error::MultipleArgs(render_seg(seg)))
                }
            },
        }
    }
}

/// The indirection wrapper is transparent: it recurses into its single
/// type parameter with the same namespace, leaving no trace of itself.
pub fn map_box(ns: &String, seg: &PathSegment) -> (r: Result<SchemaValue, Error>)
    ensures
        out_view(r) == spec_map_box(seg@, ns@),
    decreases seg, 1int,
{
    match &seg.arguments {
        SegmentArguments::Missing => Result::Err(Error::MissingAngleBrackets(render_seg(seg))),
        SegmentArguments::AngleBracketed(args) => {
            proof {
                lemma_arg_seq_view(args@);
            }
            if args.len() == 0 {
                Result::Err(Error::MissingArgs(render_seg(seg)))
            } else if args.len() == 1 {
                match &args[0] {
                    GenericArgument::TypeArgument(t) => map_ty(ns, t),
                    GenericArgument::NonType(_) => Result::Err(
                        Error::NonTypeGenericArgument(render_seg(seg)),
                    ),
                }
            } else {
                Result::Err(Error::MultipleArgs(render_seg(seg)))
            }
        },
    }
}

/// The optional wrapper: a union of the null schema and the parameter's
/// schema.
pub fn map_option(ns: &String, seg: &PathSegment) -> (r: Result<SchemaValue, Error>)
    ensures
        out_view(r) == spec_map_option(seg@, ns@),
    decreases seg, 1int,
{
    match &seg.arguments {
        SegmentArguments::Missing => Result::Err(Error::MissingAngleBrackets(render_seg(seg))),
        SegmentArguments::AngleBracketed(args) => {
            proof {
                lemma_arg_seq_view(args@);
            }
            if args.len() == 0 {
                Result::Err(Error::MissingArgs(render_seg(seg)))
            } else if args.len() == 1 {
                match &args[0] {
                    GenericArgument::TypeArgument(t) => match map_ty(ns, t) {
                        Result::Ok(inner) => {
                            let branches: Vec<SchemaValue> = vec![SchemaValue::Null, inner];
                            proof {
                                lemma_schemas_view(branches@);
                                assert(schemas_view(branches@) =~= seq![
                                    SchemaV::Null,
                                    schema_view(branches@[1]),
                                ]);
                            }
                            Result::Ok(SchemaValue::Union(branches))
                        },
                        Result::Err(e) => Result::Err(e),
                    },
                    GenericArgument::NonType(_) => Result::Err(
                        Error::NonTypeGenericArgument(render_seg(seg)),
                    ),
                }
            } else {
                Result::Err(Error::MultipleArgs(render_seg(seg)))
            }
        },
    }
}

/// The list wrapper: an array of the parameter's schema.
pub fn map_vec(ns: &String, seg: &PathSegment) -> (r: Result<SchemaValue, Error>)
    ensures
        out_view(r) == spec_map_vec(seg@, ns@),
    decreases seg, 1int,
{
    match &seg.arguments {
        SegmentArguments::Missing => Result::Err(Error::MissingAngleBrackets(render_seg(seg))),
        SegmentArguments::AngleBracketed(args) => {
            proof {
                lemma_arg_seq_view(args@);
            }
            if args.len() == 0 {
                Result::Err(Error::MissingArgs(render_seg(seg)))
            } else if args.len() == 1 {
                match &args[0] {
                    GenericArgument::TypeArgument(t) => match map_ty(ns, t) {
                        Result::Ok(inner) => Result::Ok(SchemaValue::Array(Box::new(inner))),
                        Result::Err(e) => Result::Err(e),
                    },
                    GenericArgument::NonType(_) => Result::Err(
                        Error::NonTypeGenericArgument(render_seg(seg)),
                    ),
                }
            } else {
                Result::Err(Error::MultipleArgs(render_seg(seg)))
            }
        },
    }
}

/// The record synthesized for a tuple type, or for a tuple variant payload
/// when `variant` carries the variant's name.
pub fn map_tuple(
    namespace: &String,
    variant: Option<&String>,
    tys: &Vec<TypeDescriptor>,
) -> (r: Result<RecordSchema, Error>)
    ensures
        recout_view(r) == spec_map_tuple(tys_view(tys@), namespace@, opt_ref_view(variant)),
    decreases tys, 4int,
{
    proof {
        lemma_tys_view(tys@);
    }
    let ghost velems = tys_view(tys@);
    let ns2: String = match variant {
        Option::Some(v) => namespace.clone().concat(".").concat(v.as_str()),
        Option::None => namespace.clone(),
    };
    let ghost vns2 = ns2@;
    proof {
        assert(vns2 == (match opt_ref_view(variant) {
            Option::Some(v) => spec_resolve(Option::Some(namespace@), v),
            Option::None => namespace@,
        }));
    }
    let name = tuple_name(tys);
    let mut fields: Vec<RecordField> = Vec::new();
    let mut lookup: Vec<(String, usize)> = Vec::new();
    let ghost mut gschemas: Seq<SchemaV> = Seq::empty();
    proof {
        let first = spec_elem_schemas(velems, vns2, 0);
        assert(first matches Result::Ok(rs) ==> Seq::<SchemaV>::empty() + rs =~= rs);
    }
    let mut i: usize = 0;
    while i < tys.len()
        invariant
            0 <= i <= tys@.len(),
            velems == tys_view(tys@),
            vns2 == ns2@,
            vns2 == (match opt_ref_view(variant) {
                Option::Some(v) => spec_resolve(Option::Some(namespace@), v),
                Option::None => namespace@,
            }),
            velems.len() == tys@.len(),
            forall|j: int| 0 <= j < tys@.len() ==> velems[j] == ty_view(tys@[j]),
            gschemas.len() == i as int,
            fields@.len() == i as int,
            lookup@.len() == i as int,
            forall|j: int|
                0 <= j < i as int ==> rfield_view(fields@[j]) == (RecordFieldV {
                    name: spec_decimal(j as nat),
                    schema: gschemas[j],
                    position: j,
                }),
            forall|j: int|
                0 <= j < i as int ==> (lookup@[j].0@ == spec_decimal(j as nat) && lookup@[j].1
                    == j),
            spec_elem_schemas(velems, vns2, 0) == combine_schemas(
                gschemas,
                spec_elem_schemas(velems, vns2, i as int),
            ),
        decreases tys@.len() - i,
    {
        let e = map_ty(&ns2, &tys[i]);
        match e {
            Result::Err(err) => {
                proof {
                    assert(spec_elem_schemas(velems, vns2, i as int) == Result::Err::<
                        Seq<SchemaV>,
                        ErrorV,
                    >(err@));
                }
                return Result::Err(err);
            },
            Result::Ok(s) => {
                let ghost sv = schema_view(s);
                let fname = decimal_string(i);
                fields.push(RecordField { name: fname.clone(), schema: s, position: i });
                lookup.push((fname, i));
                proof {
                    let rest = spec_elem_schemas(velems, vns2, i + 1int);
                    assert(rest matches Result::Ok(rs) ==> gschemas + (seq![sv] + rs)
                        =~= gschemas.push(sv) + rs);
                    gschemas = gschemas.push(sv);
                }
                i = i + 1;
            },
        }
    }
    proof {
        assert(spec_elem_schemas(velems, vns2, i as int) == Result::Ok::<Seq<SchemaV>, ErrorV>(
            Seq::empty(),
        ));
        assert(gschemas + Seq::<SchemaV>::empty() =~= gschemas);
    }
    let rec = RecordSchema { name, namespace: ns2, fields, lookup };
    proof {
        lemma_rfields_view(rec.fields@);
        assert(rfields_view(rec.fields@) =~= Seq::new(
            gschemas.len(),
            |j: int| RecordFieldV {
                name: spec_decimal(j as nat),
                schema: gschemas[j],
                position: j,
            },
        ));
        assert(lookup_view(rec.lookup@) =~= Seq::new(
            gschemas.len(),
            |j: int| (spec_decimal(j as nat), j),
        ));
    }
    Result::Ok(rec)
}



// ---------------------------------------------------------------------------
// The skip filter and the record builder for named fields
// ---------------------------------------------------------------------------

pub open spec fn pairs_view(s: Seq<(String, TypeDescriptor)>) -> Seq<(Seq<char>, TypeDescV)> {
    s.map_values(|p: (String, TypeDescriptor)| (p.0@, ty_view(p.1)))
}

pub open spec fn pairsout_view(r: Result<Vec<(String, TypeDescriptor)>, Error>) -> Result<
    Seq<(Seq<char>, TypeDescV)>,
    ErrorV,
> {
    match r {
        Result::Ok(v) => Result::Ok(pairs_view(v@)),
        Result::Err(e) => Result::Err(e@),
    }
}

/// The names and types of the fields `fields[i..]` that survive the skip
/// filter, in declaration order; a surviving field without a name is the
/// first error.
pub open spec fn spec_extract(fields: Seq<FieldV>, i: int) -> Result<
    Seq<(Seq<char>, TypeDescV)>,
    ErrorV,
>
    decreases fields.len() - i,
{
    if i < 0 || i >= fields.len() {
        Result::Ok(Seq::empty())
    } else if fields[i].excluded {
        spec_extract(fields, i + 1)
    } else {
        match fields[i].name {
            Option::None => Result::Err(
                ErrorV::NamedFieldMissingIdent { text: text_ty(fields[i].ty) },
            ),
            Option::Some(n) => match spec_extract(fields, i + 1) {
                Result::Err(e) => Result::Err(e),
                Result::Ok(rest) => Result::Ok(seq![(n, fields[i].ty)] + rest),
            },
        }
    }
}

pub open spec fn combine_pairs(
    done: Seq<(Seq<char>, TypeDescV)>,
    rest: Result<Seq<(Seq<char>, TypeDescV)>, ErrorV>,
) -> Result<Seq<(Seq<char>, TypeDescV)>, ErrorV> {
    match rest {
        Result::Ok(r) => Result::Ok(done + r),
        Result::Err(e) => Result::Err(e),
    }
}

/// The skip filter for fields: strips excluded fields, keeps declaration
/// order, and demands a name on every survivor.
pub fn extract_named_fields(fields: &Vec<FieldDescriptor>) -> (r: Result<
    Vec<(String, TypeDescriptor)>,
    Error,
>)
    ensures
        pairsout_view(r) == spec_extract(fields_view(fields@), 0),
{
    proof {
        lemma_fields_view(fields@);
    }
    let ghost vfields = fields_view(fields@);
    let mut out: Vec<(String, TypeDescriptor)> = Vec::new();
    let ghost mut gpairs: Seq<(Seq<char>, TypeDescV)> = Seq::empty();
    proof {
        let first = spec_extract(vfields, 0);
        assert(first matches Result::Ok(rs) ==> Seq::<(Seq<char>, TypeDescV)>::empty() + rs
            =~= rs);
    }
    let mut i: usize = 0;
    while i < fields.len()
        invariant
            0 <= i <= fields@.len(),
            vfields == fields_view(fields@),
            vfields.len() == fields@.len(),
            forall|j: int| 0 <= j < fields@.len() ==> vfields[j] == field_view(fields@[j]),
            gpairs.len() == out@.len(),
            pairs_view(out@) == gpairs,
            spec_extract(vfields, 0) == combine_pairs(gpairs, spec_extract(vfields, i as int)),
        decreases fields@.len() - i,
    {
        let f = &fields[i];
        if !f.excluded {
            match &f.name {
                Option::None => {
                    let e = Error::NamedFieldMissingIdent(render_ty(&f.ty));
                    proof {
                        assert(spec_extract(vfields, i as int) == Result::Err::<
                            Seq<(Seq<char>, TypeDescV)>,
                            ErrorV,
                        >(e@));
                    }
                    return Result::Err(e);
                },
                Option::Some(n) => {
                    let pair = (n.clone(), clone_ty(&f.ty));
                    let ghost gp = (n@, ty_view(f.ty));
                    out.push(pair);
                    proof {
                        let rest = spec_extract(vfields, i + 1int);
                        assert(rest matches Result::Ok(rs) ==> gpairs + (seq![gp] + rs)
                            =~= gpairs.push(gp) + rs);
                        assert(pairs_view(out@) =~= gpairs.push(gp));
                        gpairs = gpairs.push(gp);
                    }
                },
            }
        }
        i = i + 1;
    }
    proof {
        assert(spec_extract(vfields, i as int) == Result::Ok::<
            Seq<(Seq<char>, TypeDescV)>,
            ErrorV,
        >(Seq::empty()));
        assert(gpairs + Seq::<(Seq<char>, TypeDescV)>::empty() =~= gpairs);
    }
    Result::Ok(out)
}

/// The schemas of the extracted fields `pairs[i..]`, each derived in the
/// namespace of the record extended by the field's own name, stopping at
/// the first error.
pub open spec fn spec_pair_entries(
    pairs: Seq<(Seq<char>, TypeDescV)>,
    ns: Seq<char>,
    i: int,
) -> Result<Seq<(Seq<char>, SchemaV)>, ErrorV>
    decreases pairs.len() - i,
{
    if i < 0 || i >= pairs.len() {
        Result::Ok(Seq::empty())
    } else {
        match spec_map_ty(pairs[i].1, spec_resolve(Option::Some(ns), pairs[i].0)) {
            Result::Err(e) => Result::Err(e),
            Result::Ok(s) => match spec_pair_entries(pairs, ns, i + 1) {
                Result::Err(e) => Result::Err(e),
                Result::Ok(rest) => Result::Ok(seq![(pairs[i].0, s)] + rest),
            },
        }
    }
}

pub open spec fn combine_entries(
    done: Seq<(Seq<char>, SchemaV)>,
    rest: Result<Seq<(Seq<char>, SchemaV)>, ErrorV>,
) -> Result<Seq<(Seq<char>, SchemaV)>, ErrorV> {
    match rest {
        Result::Ok(r) => Result::Ok(done + r),
        Result::Err(e) => Result::Err(e),
    }
}

/// The record built from an ordered list of named entries: positions are
/// the indices of the post-exclusion list and the lookup table is exactly
/// the inverse of position to name.
pub open spec fn spec_entries_record(
    name: Seq<char>,
    ns: Seq<char>,
    entries: Seq<(Seq<char>, SchemaV)>,
) -> RecordSchemaV {
    RecordSchemaV {
        name,
        namespace: ns,
        fields: Seq::new(
            entries.len(),
            |i: int| RecordFieldV { name: entries[i].0, schema: entries[i].1, position: i },
        ),
        lookup: Seq::new(entries.len(), |i: int| (entries[i].0, i)),
    }
}

/// The record builder: skip filter, then one schema per surviving field in
/// declaration order.
pub open spec fn spec_map_struct(name: Seq<char>, ns: Seq<char>, fields: Seq<FieldV>) -> Result<
    RecordSchemaV,
    ErrorV,
> {
    match spec_extract(fields, 0) {
        Result::Err(e) => Result::Err(e),
        Result::Ok(pairs) => match spec_pair_entries(pairs, ns, 0) {
            Result::Err(e) => Result::Err(e),
            Result::Ok(entries) => Result::Ok(spec_entries_record(name, ns, entries)),
        },
    }
}

/// Builds the record schema of a named-field list: the record is called
/// `name`, lives in `namespace`, and each surviving field's type is derived
/// in `namespace` extended by the field's name.
pub fn map_struct(
    name: &String,
    namespace: &String,
    fields: &Vec<FieldDescriptor>,
) -> (r: Result<RecordSchema, Error>)
    ensures
        recout_view(r) == spec_map_struct(name@, namespace@, fields_view(fields@)),
{
    let ghost vfields = fields_view(fields@);
    let pairs = match extract_named_fields(fields) {
        Result::Err(e) => {
            return Result::Err(e);
        },
        Result::Ok(p) => p,
    };
    let ghost vpairs = pairs_view(pairs@);
    let ghost vns = namespace@;
    proof {
        let first = spec_pair_entries(vpairs, vns, 0);
        assert(first matches Result::Ok(rs) ==> Seq::<(Seq<char>, SchemaV)>::empty() + rs
            =~= rs);
    }
    let mut rfields: Vec<RecordField> = Vec::new();
    let mut lookup: Vec<(String, usize)> = Vec::new();
    let ghost mut gentries: Seq<(Seq<char>, SchemaV)> = Seq::empty();
    let mut i: usize = 0;
    while i < pairs.len()
        invariant
            0 <= i <= pairs@.len(),
            vns == namespace@,
            vpairs == pairs_view(pairs@),
            vpairs.len() == pairs@.len(),
            forall|j: int|
                0 <= j < pairs@.len() ==> vpairs[j] == (pairs@[j].0@, ty_view(pairs@[j].1)),
            spec_extract(vfields, 0) == Result::Ok::<Seq<(Seq<char>, TypeDescV)>, ErrorV>(
                vpairs,
            ),
            vfields == fields_view(fields@),
            gentries.len() == i as int,
            rfields@.len() == i as int,
            lookup@.len() == i as int,
            forall|j: int|
                0 <= j < i as int ==> rfield_view(rfields@[j]) == (RecordFieldV {
                    name: gentries[j].0,
                    schema: gentries[j].1,
                    position: j,
                }),
            forall|j: int|
                0 <= j < i as int ==> (lookup@[j].0@ == gentries[j].0 && lookup@[j].1 == j),
            spec_pair_entries(vpairs, vns, 0) == combine_entries(
                gentries,
                spec_pair_entries(vpairs, vns, i as int),
            ),
        decreases pairs@.len() - i,
    {
        let pair = &pairs[i];
        let child_ns = namespace.clone().concat(".").concat(pair.0.as_str());
        let e = map_ty(&child_ns, &pair.1);
        match e {
            Result::Err(err) => {
                proof {
                    assert(spec_pair_entries(vpairs, vns, i as int) == Result::Err::<
                        Seq<(Seq<char>, SchemaV)>,
                        ErrorV,
                    >(err@));
                }
                return Result::Err(err);
            },
            Result::Ok(s) => {
                let ghost ge = (pair.0@, schema_view(s));
                let pos: usize = i;
                rfields.push(RecordField { name: pair.0.clone(), schema: s, position: pos });
                lookup.push((pair.0.clone(), pos));
                proof {
                    let rest = spec_pair_entries(vpairs, vns, i + 1int);
                    assert(rest matches Result::Ok(rs) ==> gentries + (seq![ge] + rs)
                        =~= gentries.push(ge) + rs);
                    gentries = gentries.push(ge);
                }
                i = i + 1;
            },
        }
    }
    proof {
        assert(spec_pair_entries(vpairs, vns, i as int) == Result::Ok::<
            Seq<(Seq<char>, SchemaV)>,
            ErrorV,
        >(Seq::empty()));
        assert(gentries + Seq::<(Seq<char>, SchemaV)>::empty() =~= gentries);
    }
    let rec = RecordSchema {
        name: name.clone(),
        namespace: namespace.clone(),
        fields: rfields,
        lookup,
    };
    proof {
        lemma_rfields_view(rec.fields@);
        assert(rfields_view(rec.fields@) =~= Seq::new(
            gentries.len(),
            |j: int| RecordFieldV { name: gentries[j].0, schema: gentries[j].1, position: j },
        ));
        assert(lookup_view(rec.lookup@) =~= Seq::new(
            gentries.len(),
            |j: int| (gentries[j].0, j),
        ));
    }
    Result::Ok(rec)
}


// ---------------------------------------------------------------------------
// The union and enum builders
// ---------------------------------------------------------------------------

/// The union branch contributed by one surviving variant: the null schema
/// for a unit payload, a synthetic tuple record for a tuple payload, and a
/// named record for a struct payload.
pub open spec fn spec_variant_branch(v: VariantV, enum_ns: Seq<char>) -> Result<SchemaV, ErrorV> {
    match v.payload {
        PayloadV::Unit => Result::Ok(SchemaV::Null),
        PayloadV::Tuple { elems } => match spec_map_tuple(elems, enum_ns, Option::Some(v.name)) {
            Result::Ok(r) => Result::Ok(SchemaV::Record { record: r }),
            Result::Err(e) => Result::Err(e),
        },
        PayloadV::Struct { fields } => match spec_map_struct(
            v.name,
            spec_resolve(Option::Some(enum_ns), v.name),
            fields,
        ) {
            Result::Ok(r) => Result::Ok(SchemaV::Record { record: r }),
            Result::Err(e) => Result::Err(e),
        },
    }
}

/// The branches contributed by the variants `vs[i..]`, in declaration
/// order, excluded variants contributing none.
pub open spec fn spec_union_branches(vs: Seq<VariantV>, enum_ns: Seq<char>, i: int) -> Result<
    Seq<SchemaV>,
    ErrorV,
>
    decreases vs.len() - i,
{
    if i < 0 || i >= vs.len() {
        Result::Ok(Seq::empty())
    } else if vs[i].excluded {
        spec_union_branches(vs, enum_ns, i + 1)
    } else {
        match spec_variant_branch(vs[i], enum_ns) {
            Result::Err(e) => Result::Err(e),
            Result::Ok(b) => match spec_union_branches(vs, enum_ns, i + 1) {
                Result::Err(e) => Result::Err(e),
                Result::Ok(rest) => Result::Ok(seq![b] + rest),
            },
        }
    }
}

pub open spec fn spec_map_union(enum_ns: Seq<char>, vs: Seq<VariantV>) -> Result<
    SchemaV,
    ErrorV,
> {
    match spec_union_branches(vs, enum_ns, 0) {
        Result::Err(e) => Result::Err(e),
        Result::Ok(branches) => Result::Ok(SchemaV::Union { branches }),
    }
}

/// The names of the surviving variants `vs[i..]`, in declaration order.
pub open spec fn spec_symbols_from(vs: Seq<VariantV>, i: int) -> Seq<Seq<char>>
    decreases vs.len() - i,
{
    if i < 0 || i >= vs.len() {
        Seq::empty()
    } else if vs[i].excluded {
        spec_symbols_from(vs, i + 1)
    } else {
        seq![vs[i].name] + spec_symbols_from(vs, i + 1)
    }
}

/// The symbols of a plain enumeration: the surviving variant names in
/// declaration order.
pub open spec fn spec_symbols(vs: Seq<VariantV>) -> Seq<Seq<char>> {
    spec_symbols_from(vs, 0)
}

pub open spec fn spec_map_enum(
    name: Seq<char>,
    parent: Option<Seq<char>>,
    vs: Seq<VariantV>,
) -> EnumSchemaV {
    EnumSchemaV {
        name,
        namespace: spec_resolve(parent, name),
        symbols: spec_symbols(vs),
    }
}

/// Whether every variant that survives the skip filter has a unit payload.
pub open spec fn spec_all_kept_unit(vs: Seq<VariantV>) -> bool {
    forall|i: int| 0 <= i < vs.len() && !vs[i].excluded ==> vs[i].payload is Unit
}

/// Builds the union schema of a variant list: one branch per surviving
/// variant, in declaration order.
pub fn map_union(enum_namespace: &String, variants: &Vec<VariantDescriptor>) -> (r: Result<
    SchemaValue,
    Error,
>)
    ensures
        out_view(r) == spec_map_union(enum_namespace@, variants_view(variants@)),
{
    proof {
        lemma_variants_view(variants@);
    }
    let ghost vvars = variants_view(variants@);
    let ghost vens = enum_namespace@;
    let mut branches: Vec<SchemaValue> = Vec::new();
    let ghost mut gbranches: Seq<SchemaV> = Seq::empty();
    proof {
        let first = spec_union_branches(vvars, vens, 0);
        assert(first matches Result::Ok(rs) ==> Seq::<SchemaV>::empty() + rs =~= rs);
    }
    let mut i: usize = 0;
    while i < variants.len()
        invariant
            0 <= i <= variants@.len(),
            vens == enum_namespace@,
            vvars == variants_view(variants@),
            vvars.len() == variants@.len(),
            forall|j: int| 0 <= j < variants@.len() ==> vvars[j] == variant_view(variants@[j]),
            gbranches.len() == branches@.len(),
            forall|j: int|
                0 <= j < branches@.len() ==> schema_view(branches@[j]) == gbranches[j],
            spec_union_branches(vvars, vens, 0) == combine_schemas(
                gbranches,
                spec_union_branches(vvars, vens, i as int),
            ),
        decreases variants@.len() - i,
    {
        let v = &variants[i];
        if !v.excluded {
            let branch: SchemaValue = match &v.payload {
                VariantPayload::Unit => SchemaValue::Null,
                VariantPayload::Tuple(elems) => {
                    match map_tuple(enum_namespace, Option::Some(&v.name), elems) {
                        Result::Ok(rec) => SchemaValue::Record(rec),
                        Result::Err(e) => {
                            proof {
                                assert(spec_variant_branch(vvars[i as int], vens)
                                    == Result::Err::<SchemaV, ErrorV>(e@));
                                assert(spec_union_branches(vvars, vens, i as int)
                                    == Result::Err::<Seq<SchemaV>, ErrorV>(e@));
                            }
                            return Result::Err(e);
                        },
                    }
                },
                VariantPayload::Struct(fields) => {
                    let vns = enum_namespace.clone().concat(".").concat(v.name.as_str());
                    match map_struct(&v.name, &vns, fields) {
                        Result::Ok(rec) => SchemaValue::Record(rec),
                        Result::Err(e) => {
                            proof {
                                assert(spec_variant_branch(vvars[i as int], vens)
                                    == Result::Err::<SchemaV, ErrorV>(e@));
                                assert(spec_union_branches(vvars, vens, i as int)
                                    == Result::Err::<Seq<SchemaV>, ErrorV>(e@));
                            }
                            return Result::Err(e);
                        },
                    }
                },
            };
            let ghost gb = schema_view(branch);
            branches.push(branch);
            proof {
                assert(spec_variant_branch(vvars[i as int], vens) == Result::Ok::<
                    SchemaV,
                    ErrorV,
                >(gb));
                let rest = spec_union_branches(vvars, vens, i + 1int);
                assert(rest matches Result::Ok(rs) ==> gbranches + (seq![gb] + rs)
                    =~= gbranches.push(gb) + rs);
                gbranches = gbranches.push(gb);
            }
        }
        i = i + 1;
    }
    proof {
        assert(spec_union_branches(vvars, vens, i as int) == Result::Ok::<Seq<SchemaV>, ErrorV>(
            Seq::empty(),
        ));
        assert(gbranches + Seq::<SchemaV>::empty() =~= gbranches);
        lemma_schemas_view(branches@);
        assert(schemas_view(branches@) =~= gbranches);
    }
    Result::Ok(SchemaValue::Union(branches))
}

/// Builds the plain enumeration schema of an all-unit variant list: the
/// surviving variant names become the symbols, in declaration order.
pub fn map_enum(
    name: &String,
    parent_namespace: &Option<String>,
    variants: &Vec<VariantDescriptor>,
) -> (r: EnumSchema)
    ensures
        r@ == spec_map_enum(name@, parent_namespace.deep_view(), variants_view(variants@)),
{
    proof {
        lemma_variants_view(variants@);
    }
    let ghost vvars = variants_view(variants@);
    let ns = crate::namespace::resolve(parent_namespace, name);
    let mut symbols: Vec<String> = Vec::new();
    proof {
        assert(Seq::<Seq<char>>::empty() + spec_symbols_from(vvars, 0) =~= spec_symbols_from(
            vvars,
            0,
        ));
    }
    let mut i: usize = 0;
    while i < variants.len()
        invariant
            0 <= i <= variants@.len(),
            vvars == variants_view(variants@),
            vvars.len() == variants@.len(),
            forall|j: int| 0 <= j < variants@.len() ==> vvars[j] == variant_view(variants@[j]),
            spec_symbols_from(vvars, 0) == strings_view(symbols@) + spec_symbols_from(
                vvars,
                i as int,
            ),
        decreases variants@.len() - i,
    {
        let v = &variants[i];
        if !v.excluded {
            let ghost before = strings_view(symbols@);
            symbols.push(v.name.clone());
            proof {
                assert(strings_view(symbols@) =~= before.push(v.name@));
                assert(before + (seq![v.name@] + spec_symbols_from(vvars, i + 1int))
                    =~= before.push(v.name@) + spec_symbols_from(vvars, i + 1int));
            }
        }
        i = i + 1;
    }
    proof {
        assert(spec_symbols_from(vvars, i as int) =~= Seq::<Seq<char>>::empty());
        assert(strings_view(symbols@) + Seq::<Seq<char>>::empty() =~= strings_view(symbols@));
    }
    EnumSchema { name: name.clone(), namespace: ns, symbols }
}

} // verus!

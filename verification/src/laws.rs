//! The laws of the engine, stated over its mathematical model and proved
//! once and for all: that the indirection wrapper is transparent, what the
//! optional and list wrappers produce, how an enum's variants pick the
//! enumeration or the union encoding, and how the dispatch table rejects
//! misused wrapper names.

use vstd::prelude::*;
use crate::descriptor::{ArgumentV, ArgumentsV, FieldV, SegmentV, TypeDescV, VariantV};
use crate::error::ErrorV;
use crate::maps::{
    spec_all_kept_unit, spec_elem_schemas, spec_extract, spec_map_enum, spec_map_struct,
    spec_map_tuple, spec_map_ty, spec_map_union, spec_pair_entries, spec_symbols_from,
    spec_union_branches, spec_variant_branch,
};
use crate::namespace::spec_resolve;
use crate::render::{spec_decimal, spec_tuple_name, text_seg};
use crate::schema::SchemaV;
use crate::spec_derive_enum;

verus! {

/// The descriptor of the single-parameter generic `wrapper<t>`.
pub open spec fn spec_wrapped(wrapper: Seq<char>, t: TypeDescV) -> TypeDescV {
    TypeDescV::Named {
        segments: seq![
            SegmentV {
                name: wrapper,
                arguments: ArgumentsV::AngleBracketed {
                    args: seq![ArgumentV::TypeArgument { ty: Box::new(t) }],
                },
            },
        ],
    }
}

/// The descriptor of a wrapper name carrying the given argument shape.
pub open spec fn spec_named_seg(name: Seq<char>, arguments: ArgumentsV) -> TypeDescV {
    TypeDescV::Named { segments: seq![SegmentV { name, arguments }] }
}

/// Indirection is transparent: an indirection-wrapped type produces
/// exactly the schema of the unwrapped inner type, with no trace of the
/// wrapper.
pub proof fn lemma_indirection_transparent(t: TypeDescV, ns: Seq<char>)
    ensures
        spec_map_ty(spec_wrapped("Box"@, t), ns) == spec_map_ty(t, ns),
{
    let d = spec_wrapped("Box"@, t);
    let seg = SegmentV {
        name: "Box"@,
        arguments: ArgumentsV::AngleBracketed {
            args: seq![ArgumentV::TypeArgument { ty: Box::new(t) }],
        },
    };
    let segs: Seq<SegmentV> = seq![seg];
    assert(d == TypeDescV::Named { segments: segs });
    assert(segs.len() == 1);
    assert(segs[0] == seg);
    assert(spec_map_ty(d, ns) == crate::maps::spec_map_path(segs, ns));
    assert(crate::maps::spec_is_wrapper_name(seg.name));
    assert(crate::maps::spec_map_path(segs, ns) == crate::maps::spec_map_segs(seg, ns));
    assert(crate::maps::spec_map_segs(seg, ns) == crate::maps::spec_map_box(seg, ns));
    assert(crate::maps::spec_map_box(seg, ns) == spec_map_ty(t, ns));
}

/// The list wrapper always produces an array of the inner type's schema,
/// and fails exactly when the inner derivation fails.
pub proof fn lemma_list_wrapper(t: TypeDescV, ns: Seq<char>)
    ensures
        spec_map_ty(spec_wrapped("Vec"@, t), ns) == (match spec_map_ty(t, ns) {
            Result::Ok(s) => Result::Ok(SchemaV::Array { elem: Box::new(s) }),
            Result::Err(e) => Result::Err::<SchemaV, ErrorV>(e),
        }),
{
    reveal_strlit("Vec");
    reveal_strlit("Box");
    reveal_strlit("Option");
    assert("Vec"@[0] == 'V' && "Box"@[0] == 'B');
    assert("Vec"@.len() == 3 && "Option"@.len() == 6);
    assert("Vec"@ != "Box"@);
    assert("Vec"@ != "Option"@);
    let d = spec_wrapped("Vec"@, t);
    let seg = SegmentV {
        name: "Vec"@,
        arguments: ArgumentsV::AngleBracketed {
            args: seq![ArgumentV::TypeArgument { ty: Box::new(t) }],
        },
    };
    let segs: Seq<SegmentV> = seq![seg];
    assert(d == TypeDescV::Named { segments: segs });
    assert(segs.len() == 1 && segs[0] == seg);
    assert(spec_map_ty(d, ns) == crate::maps::spec_map_path(segs, ns));
    assert(crate::maps::spec_map_path(segs, ns) == crate::maps::spec_map_segs(seg, ns));
    assert(crate::maps::spec_map_segs(seg, ns) == crate::maps::spec_map_vec(seg, ns));
}

/// Nested list wrappers produce arrays nested to the same depth.
pub proof fn lemma_list_nesting(t: TypeDescV, ns: Seq<char>)
    ensures
        spec_map_ty(spec_wrapped("Vec"@, spec_wrapped("Vec"@, t)), ns) == (match spec_map_ty(
            t,
            ns,
        ) {
            Result::Ok(s) => Result::Ok(
                SchemaV::Array {
                    elem: Box::new(SchemaV::Array { elem: Box::new(s) }),
                },
            ),
            Result::Err(e) => Result::Err::<SchemaV, ErrorV>(e),
        }),
{
    lemma_list_wrapper(spec_wrapped("Vec"@, t), ns);
    lemma_list_wrapper(t, ns);
}

/// The optional wrapper produces a union of the null schema and the inner
/// type's schema, and fails exactly when the inner derivation fails.
pub proof fn lemma_optional_wrapper(t: TypeDescV, ns: Seq<char>)
    ensures
        spec_map_ty(spec_wrapped("Option"@, t), ns) == (match spec_map_ty(t, ns) {
            Result::Ok(s) => Result::Ok(SchemaV::Union { branches: seq![SchemaV::Null, s] }),
            Result::Err(e) => Result::Err::<SchemaV, ErrorV>(e),
        }),
{
    reveal_strlit("Vec");
    reveal_strlit("Box");
    reveal_strlit("Option");
    assert("Option"@.len() == 6 && "Box"@.len() == 3 && "Vec"@.len() == 3);
    assert("Option"@ != "Box"@);
    assert("Option"@ != "Vec"@);
    let d = spec_wrapped("Option"@, t);
    let seg = SegmentV {
        name: "Option"@,
        arguments: ArgumentsV::AngleBracketed {
            args: seq![ArgumentV::TypeArgument { ty: Box::new(t) }],
        },
    };
    let segs: Seq<SegmentV> = seq![seg];
    assert(d == TypeDescV::Named { segments: segs });
    assert(segs.len() == 1 && segs[0] == seg);
    assert(spec_map_ty(d, ns) == crate::maps::spec_map_path(segs, ns));
    assert(crate::maps::spec_map_path(segs, ns) == crate::maps::spec_map_segs(seg, ns));
    assert(crate::maps::spec_map_segs(seg, ns) == crate::maps::spec_map_option(seg, ns));
}

/// Misuse of a wrapper name fails with the matching error, each carrying
/// the offending segment's text: no bracket list at all, an empty bracket
/// list, more than one argument, or a single argument that is not a type.
pub proof fn lemma_wrapper_misuse(name: Seq<char>, arguments: ArgumentsV, ns: Seq<char>)
    requires
        name == "Box"@ || name == "Option"@ || name == "Vec"@,
    ensures
        arguments is Missing ==> spec_map_ty(spec_named_seg(name, arguments), ns)
            == Result::Err::<SchemaV, ErrorV>(
            ErrorV::MissingAngleBrackets { text: text_seg(SegmentV { name, arguments }) },
        ),
        (arguments matches ArgumentsV::AngleBracketed { args } && args.len() == 0)
            ==> spec_map_ty(spec_named_seg(name, arguments), ns) == Result::Err::<
            SchemaV,
            ErrorV,
        >(ErrorV::MissingArgs { text: text_seg(SegmentV { name, arguments }) }),
        (arguments matches ArgumentsV::AngleBracketed { args } && args.len() > 1)
            ==> spec_map_ty(spec_named_seg(name, arguments), ns) == Result::Err::<
            SchemaV,
            ErrorV,
        >(ErrorV::MultipleArgs { text: text_seg(SegmentV { name, arguments }) }),
        (arguments matches ArgumentsV::AngleBracketed { args } && args.len() == 1 && args[0]
            is NonType) ==> spec_map_ty(spec_named_seg(name, arguments), ns) == Result::Err::<
            SchemaV,
            ErrorV,
        >(ErrorV::NonTypeGenericArgument { text: text_seg(SegmentV { name, arguments }) }),
{
    reveal_strlit("Vec");
    reveal_strlit("Box");
    reveal_strlit("Option");
    assert("Option"@.len() == 6 && "Box"@.len() == 3 && "Vec"@.len() == 3);
    assert("Vec"@[0] == 'V' && "Box"@[0] == 'B');
    assert("Option"@ != "Box"@ && "Option"@ != "Vec"@ && "Vec"@ != "Box"@);
    let d = spec_named_seg(name, arguments);
    let seg = SegmentV { name, arguments };
    let segs: Seq<SegmentV> = seq![seg];
    assert(d == TypeDescV::Named { segments: segs });
    assert(segs.len() == 1 && segs[0] == seg);
    assert(crate::maps::spec_is_wrapper_name(name));
    assert(spec_map_ty(d, ns) == crate::maps::spec_map_path(segs, ns));
    assert(crate::maps::spec_map_path(segs, ns) == crate::maps::spec_map_segs(seg, ns));
    if name == "Box"@ {
        assert(crate::maps::spec_map_segs(seg, ns) == crate::maps::spec_map_box(seg, ns));
    } else if name == "Option"@ {
        assert(crate::maps::spec_map_segs(seg, ns) == crate::maps::spec_map_option(seg, ns));
    } else {
        assert(crate::maps::spec_map_segs(seg, ns) == crate::maps::spec_map_vec(seg, ns));
    }
}

/// The surviving variants among `vs[i..]`, in declaration order.
pub open spec fn spec_kept_variants_from(vs: Seq<VariantV>, i: int) -> Seq<VariantV>
    decreases vs.len() - i,
{
    if i < 0 || i >= vs.len() {
        Seq::empty()
    } else if vs[i].excluded {
        spec_kept_variants_from(vs, i + 1)
    } else {
        seq![vs[i]] + spec_kept_variants_from(vs, i + 1)
    }
}


/// The enumeration's symbols are exactly the names of the surviving
/// variants, in declaration order.
pub proof fn lemma_symbols_are_kept_names(vs: Seq<VariantV>, i: int)
    ensures
        spec_symbols_from(vs, i).len() == spec_kept_variants_from(vs, i).len(),
        forall|k: int|
            0 <= k < spec_symbols_from(vs, i).len() ==> spec_symbols_from(vs, i)[k]
                == spec_kept_variants_from(vs, i)[k].name,
    decreases vs.len() - i,
{
    if 0 <= i && i < vs.len() {
        lemma_symbols_are_kept_names(vs, i + 1);
    }
}

/// A union holds one branch per surviving variant, in declaration order,
/// each the branch its variant's payload demands.
pub proof fn lemma_union_branches_are_kept(vs: Seq<VariantV>, enum_ns: Seq<char>, i: int)
    ensures
        spec_union_branches(vs, enum_ns, i) matches Result::Ok(bs) ==> {
            &&& bs.len() == spec_kept_variants_from(vs, i).len()
            &&& forall|k: int|
                0 <= k < bs.len() ==> spec_variant_branch(
                    spec_kept_variants_from(vs, i)[k],
                    enum_ns,
                ) == Result::Ok::<SchemaV, ErrorV>(bs[k])
        },
    decreases vs.len() - i,
{
    if 0 <= i && i < vs.len() {
        lemma_union_branches_are_kept(vs, enum_ns, i + 1);
    }
}

/// The two encodings of a sum type: when every surviving variant is unit,
/// the derivation produces the plain enumeration whose symbols are the
/// surviving names; one surviving non-unit variant forces the union
/// encoding, whose successful result is always a union value.
pub proof fn lemma_enum_dispatch(name: Seq<char>, parent: Option<Seq<char>>, vs: Seq<VariantV>)
    ensures
        spec_all_kept_unit(vs) ==> spec_derive_enum(name, parent, vs) == Result::Ok::<
            SchemaV,
            ErrorV,
        >(SchemaV::Enum { data: spec_map_enum(name, parent, vs) }),
        !spec_all_kept_unit(vs) ==> spec_derive_enum(name, parent, vs) == spec_map_union(
            spec_resolve(parent, name),
            vs,
        ),
        spec_derive_enum(name, parent, vs) matches Result::Ok(s) ==> (if spec_all_kept_unit(
            vs,
        ) {
            s is Enum
        } else {
            s is Union
        }),
{
}


// ---------------------------------------------------------------------------
// The record builder's guarantees
// ---------------------------------------------------------------------------

/// The non-excluded fields among `fields[i..]`, in declaration order.
pub open spec fn spec_kept_fields_from(fields: Seq<FieldV>, i: int) -> Seq<FieldV>
    decreases fields.len() - i,
{
    if i < 0 || i >= fields.len() {
        Seq::empty()
    } else if fields[i].excluded {
        spec_kept_fields_from(fields, i + 1)
    } else {
        seq![fields[i]] + spec_kept_fields_from(fields, i + 1)
    }
}

/// The non-excluded fields of a field list, in declaration order.
pub open spec fn spec_kept_fields(fields: Seq<FieldV>) -> Seq<FieldV> {
    spec_kept_fields_from(fields, 0)
}

proof fn lemma_extract_kept(fields: Seq<FieldV>, i: int)
    ensures
        spec_extract(fields, i) matches Result::Ok(pairs) ==> {
            &&& pairs.len() == spec_kept_fields_from(fields, i).len()
            &&& forall|k: int|
                0 <= k < pairs.len() ==> (spec_kept_fields_from(fields, i)[k].name
                    == Option::Some(pairs[k].0) && spec_kept_fields_from(fields, i)[k].ty
                    == pairs[k].1)
        },
    decreases fields.len() - i,
{
    if 0 <= i && i < fields.len() {
        lemma_extract_kept(fields, i + 1);
    }
}

proof fn lemma_entries_of_pairs(pairs: Seq<(Seq<char>, TypeDescV)>, ns: Seq<char>, i: int)
    requires
        0 <= i <= pairs.len(),
    ensures
        spec_pair_entries(pairs, ns, i) matches Result::Ok(entries) ==> {
            &&& entries.len() == pairs.len() - i
            &&& forall|k: int|
                0 <= k < entries.len() ==> (entries[k].0 == pairs[i + k].0 && spec_map_ty(
                    pairs[i + k].1,
                    spec_resolve(Option::Some(ns), pairs[i + k].0),
                ) == Result::Ok::<SchemaV, ErrorV>(entries[k].1))
        },
    decreases pairs.len() - i,
{
    if i < pairs.len() {
        lemma_entries_of_pairs(pairs, ns, i + 1);
    }
}

/// What the record builder guarantees of a successful record: it carries
/// one field per surviving input field, in declaration order; positions
/// are exactly the indices of that post-exclusion list, with no gaps; the
/// lookup table is exactly the inverse of position to name; and each
/// field's schema is the one derived for its declared type in the record's
/// namespace extended by the field's own name.
pub proof fn lemma_record_builder(name: Seq<char>, ns: Seq<char>, fields: Seq<FieldV>)
    ensures
        spec_map_struct(name, ns, fields) matches Result::Ok(r) ==> {
            let kept = spec_kept_fields(fields);
            &&& r.name == name
            &&& r.namespace == ns
            &&& r.fields.len() == kept.len()
            &&& r.lookup.len() == kept.len()
            &&& forall|i: int| 0 <= i < kept.len() ==> r.fields[i].position == i
            &&& forall|i: int|
                0 <= i < kept.len() ==> r.lookup[i] == (r.fields[i].name, i)
            &&& forall|i: int|
                0 <= i < kept.len() ==> kept[i].name == Option::Some(r.fields[i].name)
            &&& forall|i: int|
                0 <= i < kept.len() ==> spec_map_ty(
                    kept[i].ty,
                    spec_resolve(Option::Some(ns), r.fields[i].name),
                ) == Result::Ok::<SchemaV, ErrorV>(r.fields[i].schema)
        },
{
    lemma_extract_kept(fields, 0);
    match spec_extract(fields, 0) {
        Result::Ok(pairs) => {
            lemma_entries_of_pairs(pairs, ns, 0);
        },
        Result::Err(_) => {},
    }
}

// ---------------------------------------------------------------------------
// Exclusion leaves the rest untouched
// ---------------------------------------------------------------------------

proof fn lemma_extract_skip_tail(a: Seq<FieldV>, f: FieldV, b: Seq<FieldV>, k: int)
    requires
        a.len() <= k,
    ensures
        spec_extract(a + seq![f] + b, k + 1) == spec_extract(a + b, k),
    decreases (a + b).len() - k,
{
    if k < (a + b).len() {
        assert((a + seq![f] + b)[k + 1] == (a + b)[k]);
        lemma_extract_skip_tail(a, f, b, k + 1);
    }
}

proof fn lemma_extract_skip_head(a: Seq<FieldV>, f: FieldV, b: Seq<FieldV>, k: int)
    requires
        f.excluded,
        0 <= k <= a.len(),
    ensures
        spec_extract(a + seq![f] + b, k) == spec_extract(a + b, k),
    decreases a.len() - k,
{
    if k == a.len() {
        assert((a + seq![f] + b)[k] == f);
        lemma_extract_skip_tail(a, f, b, k);
    } else {
        assert((a + seq![f] + b)[k] == (a + b)[k]);
        lemma_extract_skip_head(a, f, b, k + 1);
    }
}

/// Excluding a field is invisible to the rest of the record: deriving a
/// record from a field list with an excluded field spliced in anywhere
/// gives exactly the record derived without it, so sibling fields keep
/// their positions.
pub proof fn lemma_excluded_field_invisible(
    name: Seq<char>,
    ns: Seq<char>,
    a: Seq<FieldV>,
    f: FieldV,
    b: Seq<FieldV>,
)
    requires
        f.excluded,
    ensures
        spec_map_struct(name, ns, a + seq![f] + b) == spec_map_struct(name, ns, a + b),
{
    lemma_extract_skip_head(a, f, b, 0);
}

proof fn lemma_branches_skip_tail(
    a: Seq<VariantV>,
    v: VariantV,
    b: Seq<VariantV>,
    enum_ns: Seq<char>,
    k: int,
)
    requires
        a.len() <= k,
    ensures
        spec_union_branches(a + seq![v] + b, enum_ns, k + 1) == spec_union_branches(
            a + b,
            enum_ns,
            k,
        ),
        spec_symbols_from(a + seq![v] + b, k + 1) == spec_symbols_from(a + b, k),
    decreases (a + b).len() - k,
{
    if k < (a + b).len() {
        assert((a + seq![v] + b)[k + 1] == (a + b)[k]);
        lemma_branches_skip_tail(a, v, b, enum_ns, k + 1);
    }
}

proof fn lemma_branches_skip_head(
    a: Seq<VariantV>,
    v: VariantV,
    b: Seq<VariantV>,
    enum_ns: Seq<char>,
    k: int,
)
    requires
        v.excluded,
        0 <= k <= a.len(),
    ensures
        spec_union_branches(a + seq![v] + b, enum_ns, k) == spec_union_branches(
            a + b,
            enum_ns,
            k,
        ),
        spec_symbols_from(a + seq![v] + b, k) == spec_symbols_from(a + b, k),
    decreases a.len() - k,
{
    if k == a.len() {
        assert((a + seq![v] + b)[k] == v);
        lemma_branches_skip_tail(a, v, b, enum_ns, k);
    } else {
        assert((a + seq![v] + b)[k] == (a + b)[k]);
        lemma_branches_skip_head(a, v, b, enum_ns, k + 1);
    }
}

/// Excluding a variant is invisible to the rest of the enum: deriving an
/// enum from a variant list with an excluded variant spliced in anywhere
/// gives exactly the schema derived without it, whether the enumeration or
/// the union encoding is taken.
pub proof fn lemma_excluded_variant_invisible(
    name: Seq<char>,
    parent: Option<Seq<char>>,
    a: Seq<VariantV>,
    v: VariantV,
    b: Seq<VariantV>,
)
    requires
        v.excluded,
    ensures
        spec_derive_enum(name, parent, a + seq![v] + b) == spec_derive_enum(name, parent, a + b),
{
    let ins = a + seq![v] + b;
    let orig = a + b;
    let enum_ns = spec_resolve(parent, name);
    lemma_branches_skip_head(a, v, b, enum_ns, 0);
    if spec_all_kept_unit(ins) {
        assert forall|i: int|
            0 <= i < orig.len() && !(#[trigger] orig[i]).excluded implies orig[i].payload
            is Unit by {
            if i < a.len() {
                assert(orig[i] == ins[i]);
            } else {
                assert(orig[i] == ins[i + 1]);
            }
        }
        assert(spec_all_kept_unit(orig));
    } else {
        let j = choose|j: int|
            0 <= j < ins.len() && !(#[trigger] ins[j]).excluded && !(ins[j].payload is Unit);
        if j < a.len() {
            assert(orig[j] == ins[j]);
            assert(!spec_all_kept_unit(orig));
        } else {
            assert(ins[j] != v);
            assert(orig[j - 1] == ins[j]);
            assert(!spec_all_kept_unit(orig));
        }
    }
}


proof fn lemma_elem_schemas_shape(elems: Seq<TypeDescV>, ns: Seq<char>, i: int)
    requires
        0 <= i <= elems.len(),
    ensures
        spec_elem_schemas(elems, ns, i) matches Result::Ok(schemas) ==> {
            &&& schemas.len() == elems.len() - i
            &&& forall|k: int|
                0 <= k < schemas.len() ==> spec_map_ty(elems[i + k], ns) == Result::Ok::<
                    SchemaV,
                    ErrorV,
                >(schemas[k])
        },
    decreases elems.len() - i,
{
    if i < elems.len() {
        lemma_elem_schemas_shape(elems, ns, i + 1);
    }
}

/// What the tuple builder guarantees of a successful synthetic record: one
/// field per element type, named by its decimal position, positions exactly
/// the element indices, the lookup table the inverse of position to name,
/// and each field's schema the one derived for its element type in the
/// tuple's namespace.
pub proof fn lemma_tuple_builder(elems: Seq<TypeDescV>, ns: Seq<char>, variant: Option<Seq<char>>)
    ensures
        spec_map_tuple(elems, ns, variant) matches Result::Ok(r) ==> {
            let ns2 = match variant {
                Option::Some(v) => spec_resolve(Option::Some(ns), v),
                Option::None => ns,
            };
            &&& r.name == spec_tuple_name(elems)
            &&& r.namespace == ns2
            &&& r.fields.len() == elems.len()
            &&& r.lookup.len() == elems.len()
            &&& forall|i: int| 0 <= i < elems.len() ==> r.fields[i].position == i
            &&& forall|i: int|
                0 <= i < elems.len() ==> r.fields[i].name == spec_decimal(i as nat)
            &&& forall|i: int|
                0 <= i < elems.len() ==> r.lookup[i] == (r.fields[i].name, i)
            &&& forall|i: int|
                0 <= i < elems.len() ==> spec_map_ty(elems[i], ns2) == Result::Ok::<
                    SchemaV,
                    ErrorV,
                >(r.fields[i].schema)
        },
{
    let ns2 = match variant {
        Option::Some(v) => spec_resolve(Option::Some(ns), v),
        Option::None => ns,
    };
    lemma_elem_schemas_shape(elems, ns2, 0);
}


proof fn lemma_extract_ok_iff(fields: Seq<FieldV>, i: int)
    ensures
        (spec_extract(fields, i) is Ok) <==> (forall|k: int|
            0 <= k < spec_kept_fields_from(fields, i).len()
                ==> (#[trigger] spec_kept_fields_from(fields, i)[k]).name is Some),
    decreases fields.len() - i,
{
    if 0 <= i && i < fields.len() {
        lemma_extract_ok_iff(fields, i + 1);
        if !fields[i].excluded {
            let kept = spec_kept_fields_from(fields, i);
            let rest = spec_kept_fields_from(fields, i + 1);
            assert(kept == seq![fields[i]] + rest);
            assert(kept[0] == fields[i]);
            assert forall|k: int| 0 <= k < rest.len() implies rest[k] == kept[k + 1] by {}
            if fields[i].name is Some {
                if spec_extract(fields, i + 1) is Ok {
                    assert forall|k: int| 0 <= k < kept.len() implies (#[trigger] kept[k]).name
                        is Some by {
                        if k > 0 {
                            assert(kept[k] == rest[k - 1]);
                        }
                    }
                } else {
                    let k0 = choose|k: int|
                        0 <= k < rest.len() && !((#[trigger] rest[k]).name is Some);
                    assert(kept[k0 + 1] == rest[k0]);
                    assert(!(kept[k0 + 1].name is Some));
                }
            } else {
                assert(!(kept[0].name is Some));
            }
        }
    }
}

proof fn lemma_pair_entries_ok_iff(pairs: Seq<(Seq<char>, TypeDescV)>, ns: Seq<char>, i: int)
    requires
        0 <= i <= pairs.len(),
    ensures
        (spec_pair_entries(pairs, ns, i) is Ok) <==> (forall|k: int|
            i <= k < pairs.len() ==> spec_map_ty(
                (#[trigger] pairs[k]).1,
                spec_resolve(Option::Some(ns), pairs[k].0),
            ) is Ok),
    decreases pairs.len() - i,
{
    if i < pairs.len() {
        lemma_pair_entries_ok_iff(pairs, ns, i + 1);
    }
}

/// When the record builder owes success: it returns a record exactly when
/// every surviving field carries a name and every surviving field's type
/// derives a schema in the record's namespace extended by that name; on
/// any other field list it returns the first error met.
pub proof fn lemma_record_builder_success(name: Seq<char>, ns: Seq<char>, fields: Seq<FieldV>)
    ensures
        (spec_map_struct(name, ns, fields) is Ok) <==> (forall|k: int|
            0 <= k < spec_kept_fields(fields).len()
                ==> ((#[trigger] spec_kept_fields(fields)[k]).name matches Option::Some(n)
                && spec_map_ty(
                spec_kept_fields(fields)[k].ty,
                spec_resolve(Option::Some(ns), n),
            ) is Ok)),
{
    lemma_extract_ok_iff(fields, 0);
    lemma_extract_kept(fields, 0);
    let kept = spec_kept_fields(fields);
    match spec_extract(fields, 0) {
        Result::Ok(pairs) => {
            lemma_pair_entries_ok_iff(pairs, ns, 0);
            assert forall|k: int| 0 <= k < kept.len() implies (#[trigger] kept[k]).name
                == Option::Some(pairs[k].0) && kept[k].ty == pairs[k].1 by {}
        },
        Result::Err(_) => {},
    }
}

} // verus!

//! The input model: structural descriptions of types, fields and variants,
//! as handed in by the reflection collaborator, together with their
//! mathematical models (the `...V` types) and view functions.

use vstd::prelude::*;

verus! {

// ---------------------------------------------------------------------------
// Executable input model
// ---------------------------------------------------------------------------

/// The structural description of a type: a primitive scalar name, the text
/// scalar, a (possibly generic) named reference, a fixed-size array, or a
/// tuple.
#[derive(Debug, PartialEq)]
pub enum TypeDescriptor {
    /// A fixed scalar such as a boolean or a fixed-width integer kind.
    Primitive(String),
    /// The string scalar.
    Text,
    /// A reference to another type by path.
    Named(Vec<PathSegment>),
    /// A fixed-size array of one element type.
    FixedArray(Box<TypeDescriptor>),
    /// An ordered tuple of element types.
    Tuple(Vec<TypeDescriptor>),
}

/// One segment of a named reference: an identifier and its generic arguments.
#[derive(Debug, PartialEq)]
pub struct PathSegment {
    pub name: String,
    pub arguments: SegmentArguments,
}

/// The generic arguments of a path segment.
#[derive(Debug, PartialEq)]
pub enum SegmentArguments {
    /// No bracket list at all.
    Missing,
    /// An angle-bracketed argument list, possibly empty.
    AngleBracketed(Vec<GenericArgument>),
}

/// One generic argument slot.
#[derive(Debug, PartialEq)]
pub enum GenericArgument {
    /// A type argument.
    TypeArgument(Box<TypeDescriptor>),
    /// Something other than a type (a lifetime or a constant), carried as
    /// text.
    NonType(String),
}

/// A declared field: its name if it has one, its type, and whether it is
/// excluded from schema generation.
#[derive(Debug, PartialEq)]
pub struct FieldDescriptor {
    pub name: Option<String>,
    pub ty: TypeDescriptor,
    pub excluded: bool,
}

/// The payload of an enum variant.
#[derive(Debug, PartialEq)]
pub enum VariantPayload {
    Unit,
    Tuple(Vec<TypeDescriptor>),
    Struct(Vec<FieldDescriptor>),
}

/// A declared enum variant.
#[derive(Debug, PartialEq)]
pub struct VariantDescriptor {
    pub name: String,
    pub payload: VariantPayload,
    pub excluded: bool,
}

/// The body of the type being derived: a struct's field list or an enum's
/// variant list.
#[derive(Debug, PartialEq)]
pub enum TypeData {
    Struct(Vec<FieldDescriptor>),
    Enum(Vec<VariantDescriptor>),
}

// ---------------------------------------------------------------------------
// Mathematical models
// ---------------------------------------------------------------------------

/// Model of `TypeDescriptor`.
pub enum TypeDescV {
    Primitive { name: Seq<char> },
    Text,
    Named { segments: Seq<SegmentV> },
    FixedArray { elem: Box<TypeDescV> },
    Tuple { elems: Seq<TypeDescV> },
}

/// Model of `PathSegment`.
pub struct SegmentV {
    pub name: Seq<char>,
    pub arguments: ArgumentsV,
}

/// Model of `SegmentArguments`.
pub enum ArgumentsV {
    Missing,
    AngleBracketed { args: Seq<ArgumentV> },
}

/// Model of `GenericArgument`.
pub enum ArgumentV {
    TypeArgument { ty: Box<TypeDescV> },
    NonType { text: Seq<char> },
}

/// Model of `FieldDescriptor`.
pub struct FieldV {
    pub name: Option<Seq<char>>,
    pub ty: TypeDescV,
    pub excluded: bool,
}

/// Model of `VariantPayload`.
pub enum PayloadV {
    Unit,
    Tuple { elems: Seq<TypeDescV> },
    Struct { fields: Seq<FieldV> },
}

/// Model of `VariantDescriptor`.
pub struct VariantV {
    pub name: Seq<char>,
    pub payload: PayloadV,
    pub excluded: bool,
}

/// Model of `TypeData`.
pub enum TypeDataV {
    Struct { fields: Seq<FieldV> },
    Enum { variants: Seq<VariantV> },
}

// ---------------------------------------------------------------------------
// View functions
// ---------------------------------------------------------------------------

pub open spec fn ty_view(d: TypeDescriptor) -> TypeDescV
    decreases d, 1int,
{
    match d {
        TypeDescriptor::Primitive(name) => TypeDescV::Primitive { name: name@ },
        TypeDescriptor::Text => TypeDescV::Text,
        TypeDescriptor::Named(segments) => TypeDescV::Named { segments: segs_view(segments@) },
        TypeDescriptor::FixedArray(elem) => TypeDescV::FixedArray {
            elem: Box::new(ty_view(*elem)),
        },
        TypeDescriptor::Tuple(elems) => TypeDescV::Tuple { elems: tys_view(elems@) },
    }
}

pub open spec fn tys_view(s: Seq<TypeDescriptor>) -> Seq<TypeDescV>
    decreases s, 0int,
{
    if s.len() == 0 {
        Seq::empty()
    } else {
        tys_view(s.drop_last()).push(ty_view(s.last()))
    }
}

pub open spec fn segs_view(s: Seq<PathSegment>) -> Seq<SegmentV>
    decreases s, 0int,
{
    if s.len() == 0 {
        Seq::empty()
    } else {
        segs_view(s.drop_last()).push(seg_view(s.last()))
    }
}

pub open spec fn seg_view(s: PathSegment) -> SegmentV
    decreases s, 1int,
{
    SegmentV { name: s.name@, arguments: args_view(s.arguments) }
}

pub open spec fn args_view(a: SegmentArguments) -> ArgumentsV
    decreases a, 1int,
{
    match a {
        SegmentArguments::Missing => ArgumentsV::Missing,
        SegmentArguments::AngleBracketed(args) => ArgumentsV::AngleBracketed {
            args: arg_seq_view(args@),
        },
    }
}

pub open spec fn arg_seq_view(s: Seq<GenericArgument>) -> Seq<ArgumentV>
    decreases s, 0int,
{
    if s.len() == 0 {
        Seq::empty()
    } else {
        arg_seq_view(s.drop_last()).push(arg_view(s.last()))
    }
}

pub open spec fn arg_view(a: GenericArgument) -> ArgumentV
    decreases a, 1int,
{
    match a {
        GenericArgument::TypeArgument(ty) => ArgumentV::TypeArgument {
            ty: Box::new(ty_view(*ty)),
        },
        GenericArgument::NonType(text) => ArgumentV::NonType { text: text@ },
    }
}

pub open spec fn field_view(f: FieldDescriptor) -> FieldV {
    FieldV {
        name: match f.name {
            Option::Some(n) => Option::Some(n@),
            Option::None => Option::None,
        },
        ty: ty_view(f.ty),
        excluded: f.excluded,
    }
}

pub open spec fn fields_view(s: Seq<FieldDescriptor>) -> Seq<FieldV>
    decreases s,
{
    if s.len() == 0 {
        Seq::empty()
    } else {
        fields_view(s.drop_last()).push(field_view(s.last()))
    }
}

pub open spec fn payload_view(p: VariantPayload) -> PayloadV {
    match p {
        VariantPayload::Unit => PayloadV::Unit,
        VariantPayload::Tuple(elems) => PayloadV::Tuple { elems: tys_view(elems@) },
        VariantPayload::Struct(fields) => PayloadV::Struct { fields: fields_view(fields@) },
    }
}

pub open spec fn variant_view(v: VariantDescriptor) -> VariantV {
    VariantV { name: v.name@, payload: payload_view(v.payload), excluded: v.excluded }
}

pub open spec fn variants_view(s: Seq<VariantDescriptor>) -> Seq<VariantV>
    decreases s,
{
    if s.len() == 0 {
        Seq::empty()
    } else {
        variants_view(s.drop_last()).push(variant_view(s.last()))
    }
}

pub open spec fn data_view(d: TypeData) -> TypeDataV {
    match d {
        TypeData::Struct(fields) => TypeDataV::Struct { fields: fields_view(fields@) },
        TypeData::Enum(variants) => TypeDataV::Enum { variants: variants_view(variants@) },
    }
}

impl View for TypeDescriptor {
    type V = TypeDescV;

    open spec fn view(&self) -> TypeDescV {
        ty_view(*self)
    }
}

impl View for PathSegment {
    type V = SegmentV;

    open spec fn view(&self) -> SegmentV {
        seg_view(*self)
    }
}

impl View for SegmentArguments {
    type V = ArgumentsV;

    open spec fn view(&self) -> ArgumentsV {
        args_view(*self)
    }
}

impl View for GenericArgument {
    type V = ArgumentV;

    open spec fn view(&self) -> ArgumentV {
        arg_view(*self)
    }
}

impl View for FieldDescriptor {
    type V = FieldV;

    open spec fn view(&self) -> FieldV {
        field_view(*self)
    }
}

impl View for VariantPayload {
    type V = PayloadV;

    open spec fn view(&self) -> PayloadV {
        payload_view(*self)
    }
}

impl View for VariantDescriptor {
    type V = VariantV;

    open spec fn view(&self) -> VariantV {
        variant_view(*self)
    }
}

impl View for TypeData {
    type V = TypeDataV;

    open spec fn view(&self) -> TypeDataV {
        data_view(*self)
    }
}

// ---------------------------------------------------------------------------
// Pointwise characterisation of the sequence views
// ---------------------------------------------------------------------------

pub proof fn lemma_tys_view(s: Seq<TypeDescriptor>)
    ensures
        tys_view(s).len() == s.len(),
        forall|i: int| 0 <= i < s.len() ==> tys_view(s)[i] == ty_view(s[i]),
    decreases s.len(),
{
    if s.len() > 0 {
        lemma_tys_view(s.drop_last());
    }
}

pub proof fn lemma_segs_view(s: Seq<PathSegment>)
    ensures
        segs_view(s).len() == s.len(),
        forall|i: int| 0 <= i < s.len() ==> segs_view(s)[i] == seg_view(s[i]),
    decreases s.len(),
{
    if s.len() > 0 {
        lemma_segs_view(s.drop_last());
    }
}

pub proof fn lemma_arg_seq_view(s: Seq<GenericArgument>)
    ensures
        arg_seq_view(s).len() == s.len(),
        forall|i: int| 0 <= i < s.len() ==> arg_seq_view(s)[i] == arg_view(s[i]),
    decreases s.len(),
{
    if s.len() > 0 {
        lemma_arg_seq_view(s.drop_last());
    }
}

pub proof fn lemma_fields_view(s: Seq<FieldDescriptor>)
    ensures
        fields_view(s).len() == s.len(),
        forall|i: int| 0 <= i < s.len() ==> fields_view(s)[i] == field_view(s[i]),
    decreases s.len(),
{
    if s.len() > 0 {
        lemma_fields_view(s.drop_last());
    }
}

pub proof fn lemma_variants_view(s: Seq<VariantDescriptor>)
    ensures
        variants_view(s).len() == s.len(),
        forall|i: int| 0 <= i < s.len() ==> variants_view(s)[i] == variant_view(s[i]),
    decreases s.len(),
{
    if s.len() > 0 {
        lemma_variants_view(s.drop_last());
    }
}


pub fn clone_ty(d: &TypeDescriptor) -> (r: TypeDescriptor)
    ensures
        r@ == d@,
    decreases d, 1int,
{
    match d {
        TypeDescriptor::Primitive(name) => TypeDescriptor::Primitive(name.clone()),
        TypeDescriptor::Text => TypeDescriptor::Text,
        TypeDescriptor::Named(segments) => TypeDescriptor::Named(clone_segs(segments)),
        TypeDescriptor::FixedArray(elem) => TypeDescriptor::FixedArray(
            Box::new(clone_ty(elem)),
        ),
        TypeDescriptor::Tuple(elems) => TypeDescriptor::Tuple(clone_tys(elems)),
    }
}

pub fn clone_tys(s: &Vec<TypeDescriptor>) -> (r: Vec<TypeDescriptor>)
    ensures
        tys_view(r@) == tys_view(s@),
        r@.len() == s@.len(),
    decreases s, 0int,
{
    proof {
        lemma_tys_view(s@);
    }
    let mut r: Vec<TypeDescriptor> = Vec::new();
    let mut i: usize = 0;
    while i < s.len()
        invariant
            0 <= i <= s@.len(),
            r@.len() == i,
            forall|j: int| 0 <= j < i ==> ty_view(r@[j]) == ty_view(s@[j]),
        decreases s@.len() - i,
    {
        let c = clone_ty(&s[i]);
        r.push(c);
        i = i + 1;
    }
    proof {
        lemma_tys_view(r@);
        assert(tys_view(r@) =~= tys_view(s@));
    }
    r
}

pub fn clone_seg(s: &PathSegment) -> (r: PathSegment)
    ensures
        r@ == s@,
    decreases s, 3int,
{
    PathSegment { name: s.name.clone(), arguments: clone_args(&s.arguments) }
}

pub fn clone_segs(s: &Vec<PathSegment>) -> (r: Vec<PathSegment>)
    ensures
        segs_view(r@) == segs_view(s@),
        r@.len() == s@.len(),
    decreases s, 0int,
{
    proof {
        lemma_segs_view(s@);
    }
    let mut r: Vec<PathSegment> = Vec::new();
    let mut i: usize = 0;
    while i < s.len()
        invariant
            0 <= i <= s@.len(),
            r@.len() == i,
            forall|j: int| 0 <= j < i ==> seg_view(r@[j]) == seg_view(s@[j]),
        decreases s@.len() - i,
    {
        let c = clone_seg(&s[i]);
        r.push(c);
        i = i + 1;
    }
    proof {
        lemma_segs_view(r@);
        assert(segs_view(r@) =~= segs_view(s@));
    }
    r
}

pub fn clone_args(a: &SegmentArguments) -> (r: SegmentArguments)
    ensures
        r@ == a@,
    decreases a, 2int,
{
    match a {
        SegmentArguments::Missing => SegmentArguments::Missing,
        SegmentArguments::AngleBracketed(args) => SegmentArguments::AngleBracketed(
            clone_arg_vec(args),
        ),
    }
}

pub fn clone_arg_vec(s: &Vec<GenericArgument>) -> (r: Vec<GenericArgument>)
    ensures
        arg_seq_view(r@) == arg_seq_view(s@),
        r@.len() == s@.len(),
    decreases s, 0int,
{
    proof {
        lemma_arg_seq_view(s@);
    }
    let mut r: Vec<GenericArgument> = Vec::new();
    let mut i: usize = 0;
    while i < s.len()
        invariant
            0 <= i <= s@.len(),
            r@.len() == i,
            forall|j: int| 0 <= j < i ==> arg_view(r@[j]) == arg_view(s@[j]),
        decreases s@.len() - i,
    {
        let c = clone_arg(&s[i]);
        r.push(c);
        i = i + 1;
    }
    proof {
        lemma_arg_seq_view(r@);
        assert(arg_seq_view(r@) =~= arg_seq_view(s@));
    }
    r
}

pub fn clone_arg(a: &GenericArgument) -> (r: GenericArgument)
    ensures
        r@ == a@,
    decreases a, 1int,
{
    match a {
        GenericArgument::TypeArgument(ty) => GenericArgument::TypeArgument(
            Box::new(clone_ty(ty)),
        ),
        GenericArgument::NonType(text) => GenericArgument::NonType(text.clone()),
    }
}

} // verus!

// Verus sees nothing of a derived `Clone`, so the input model gets explicit
// clone functions whose results are proved equal to their arguments' models.

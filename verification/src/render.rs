//! Rendering of type descriptors as text: the offending-expression payloads
//! of errors, the synthetic names of tuple records, and the decimal field
//! names of tuple positions.

use vstd::prelude::*;
use crate::descriptor::{
    ArgumentV, ArgumentsV, GenericArgument, PathSegment, SegmentArguments, SegmentV,
    TypeDescV, TypeDescriptor, arg_seq_view, arg_view, lemma_arg_seq_view, lemma_segs_view,
    lemma_tys_view, seg_view, segs_view, ty_view, tys_view,
};

verus! {

// ---------------------------------------------------------------------------
// Text of a type expression
// ---------------------------------------------------------------------------

pub open spec fn text_ty(d: TypeDescV) -> Seq<char>
    decreases d, 1int,
{
    match d {
        TypeDescV::Primitive { name } => name,
        TypeDescV::Text => "String"@,
        TypeDescV::Named { segments } => text_segs(segments),
        TypeDescV::FixedArray { elem } => "["@ + text_ty(*elem) + "]"@,
        TypeDescV::Tuple { elems } => "("@ + text_tys(elems) + ")"@,
    }
}

/// Element type texts joined by a comma.
pub open spec fn text_tys(s: Seq<TypeDescV>) -> Seq<char>
    decreases s, 0int,
{
    if s.len() == 0 {
        Seq::empty()
    } else if s.len() == 1 {
        text_ty(s[0])
    } else {
        text_tys(s.drop_last()) + ","@ + text_ty(s.last())
    }
}

/// Segment texts joined by a double colon.
pub open spec fn text_segs(s: Seq<SegmentV>) -> Seq<char>
    decreases s, 0int,
{
    if s.len() == 0 {
        Seq::empty()
    } else if s.len() == 1 {
        text_seg(s[0])
    } else {
        text_segs(s.drop_last()) + "::"@ + text_seg(s.last())
    }
}

pub open spec fn text_seg(s: SegmentV) -> Seq<char>
    decreases s, 2int,
{
    match s.arguments {
        ArgumentsV::Missing => s.name,
        ArgumentsV::AngleBracketed { args } => s.name + "<"@ + text_args(args) + ">"@,
    }
}

/// Argument texts joined by a comma.
pub open spec fn text_args(s: Seq<ArgumentV>) -> Seq<char>
    decreases s, 0int,
{
    if s.len() == 0 {
        Seq::empty()
    } else if s.len() == 1 {
        text_arg(s[0])
    } else {
        text_args(s.drop_last()) + ","@ + text_arg(s.last())
    }
}

pub open spec fn text_arg(a: ArgumentV) -> Seq<char>
    decreases a, 1int,
{
    match a {
        ArgumentV::TypeArgument { ty } => text_ty(*ty),
        ArgumentV::NonType { text } => text,
    }
}

/// The synthetic name of a tuple record, derived from its element types.
pub open spec fn spec_tuple_name(elems: Seq<TypeDescV>) -> Seq<char> {
    "Tuple("@ + text_tys(elems) + ")"@
}

// ---------------------------------------------------------------------------
// Executable rendering
// ---------------------------------------------------------------------------

pub fn render_ty(d: &TypeDescriptor) -> (r: String)
    ensures
        r@ == text_ty(d@),
    decreases d, 1int,
{
    match d {
        TypeDescriptor::Primitive(name) => name.clone(),
        TypeDescriptor::Text => String::from_str("String"),
        TypeDescriptor::Named(segments) => render_segs(segments),
        TypeDescriptor::FixedArray(elem) => {
            let inner = render_ty(elem);
            String::from_str("[").concat(inner.as_str()).concat("]")
        },
        TypeDescriptor::Tuple(elems) => {
            let inner = render_tys(elems);
            String::from_str("(").concat(inner.as_str()).concat(")")
        },
    }
}

pub fn render_tys(elems: &Vec<TypeDescriptor>) -> (r: String)
    ensures
        r@ == text_tys(tys_view(elems@)),
    decreases elems, 0int,
{
    proof {
        lemma_tys_view(elems@);
    }
    let ghost vs = tys_view(elems@);
    let mut acc = String::new();
    let mut i: usize = 0;
    while i < elems.len()
        invariant
            0 <= i <= elems.len(),
            vs == tys_view(elems@),
            vs.len() == elems@.len(),
            forall|j: int| 0 <= j < elems@.len() ==> vs[j] == ty_view(elems@[j]),
            acc@ == text_tys(vs.take(i as int)),
        decreases elems.len() - i,
    {
        let piece = render_ty(&elems[i]);
        if i > 0 {
            acc = acc.concat(",");
        }
        acc = acc.concat(piece.as_str());
        proof {
            assert(vs.take(i + 1int).drop_last() =~= vs.take(i as int));
            assert(vs.take(i + 1int).last() == vs[i as int]);
            assert(vs.take(i + 1int)[0] == vs[0]) by {
                assert(0 < i + 1int);
            }
            assert(acc@ =~= text_tys(vs.take(i + 1int)));
        }
        i = i + 1;
    }
    proof {
        assert(vs.take(elems@.len() as int) =~= vs);
    }
    acc
}

pub fn render_segs(segments: &Vec<PathSegment>) -> (r: String)
    ensures
        r@ == text_segs(segs_view(segments@)),
    decreases segments, 0int,
{
    proof {
        lemma_segs_view(segments@);
    }
    let ghost vs = segs_view(segments@);
    let mut acc = String::new();
    let mut i: usize = 0;
    while i < segments.len()
        invariant
            0 <= i <= segments.len(),
            vs == segs_view(segments@),
            vs.len() == segments@.len(),
            forall|j: int| 0 <= j < segments@.len() ==> vs[j] == seg_view(segments@[j]),
            acc@ == text_segs(vs.take(i as int)),
        decreases segments.len() - i,
    {
        let piece = render_seg(&segments[i]);
        if i > 0 {
            acc = acc.concat("::");
        }
        acc = acc.concat(piece.as_str());
        proof {
            assert(vs.take(i + 1int).drop_last() =~= vs.take(i as int));
            assert(vs.take(i + 1int).last() == vs[i as int]);
            assert(vs.take(i + 1int)[0] == vs[0]) by {
                assert(0 < i + 1int);
            }
            assert(acc@ =~= text_segs(vs.take(i + 1int)));
        }
        i = i + 1;
    }
    proof {
        assert(vs.take(segments@.len() as int) =~= vs);
    }
    acc
}

pub fn render_seg(s: &PathSegment) -> (r: String)
    ensures
        r@ == text_seg(s@),
    decreases s, 2int,
{
    match &s.arguments {
        SegmentArguments::Missing => s.name.clone(),
        SegmentArguments::AngleBracketed(args) => {
            let inner = render_args(args);
            s.name.clone().concat("<").concat(inner.as_str()).concat(">")
        },
    }
}

pub fn render_args(args: &Vec<GenericArgument>) -> (r: String)
    ensures
        r@ == text_args(arg_seq_view(args@)),
    decreases args, 0int,
{
    proof {
        lemma_arg_seq_view(args@);
    }
    let ghost vs = arg_seq_view(args@);
    let mut acc = String::new();
    let mut i: usize = 0;
    while i < args.len()
        invariant
            0 <= i <= args.len(),
            vs == arg_seq_view(args@),
            vs.len() == args@.len(),
            forall|j: int| 0 <= j < args@.len() ==> vs[j] == arg_view(args@[j]),
            acc@ == text_args(vs.take(i as int)),
        decreases args.len() - i,
    {
        let piece = render_arg(&args[i]);
        if i > 0 {
            acc = acc.concat(",");
        }
        acc = acc.concat(piece.as_str());
        proof {
            assert(vs.take(i + 1int).drop_last() =~= vs.take(i as int));
            assert(vs.take(i + 1int).last() == vs[i as int]);
            assert(vs.take(i + 1int)[0] == vs[0]) by {
                assert(0 < i + 1int);
            }
            assert(acc@ =~= text_args(vs.take(i + 1int)));
        }
        i = i + 1;
    }
    proof {
        assert(vs.take(args@.len() as int) =~= vs);
    }
    acc
}

pub fn render_arg(a: &GenericArgument) -> (r: String)
    ensures
        r@ == text_arg(a@),
    decreases a, 1int,
{
    match a {
        GenericArgument::TypeArgument(ty) => render_ty(ty),
        GenericArgument::NonType(text) => text.clone(),
    }
}

/// The synthetic name of a tuple record.
pub fn tuple_name(elems: &Vec<TypeDescriptor>) -> (r: String)
    ensures
        r@ == spec_tuple_name(tys_view(elems@)),
{
    let inner = render_tys(elems);
    String::from_str("Tuple(").concat(inner.as_str()).concat(")")
}

// ---------------------------------------------------------------------------
// Decimal rendering of positions
// ---------------------------------------------------------------------------

pub open spec fn spec_digit_char(d: nat) -> char {
    if d == 0 {
        '0'
    } else if d == 1 {
        '1'
    } else if d == 2 {
        '2'
    } else if d == 3 {
        '3'
    } else if d == 4 {
        '4'
    } else if d == 5 {
        '5'
    } else if d == 6 {
        '6'
    } else if d == 7 {
        '7'
    } else if d == 8 {
        '8'
    } else {
        '9'
    }
}

/// The decimal digits of `n`, most significant first.
pub open spec fn spec_decimal(n: nat) -> Seq<char>
    decreases n,
{
    if n < 10 {
        seq![spec_digit_char(n)]
    } else {
        spec_decimal(n / 10).push(spec_digit_char(n % 10))
    }
}

fn digit_str(d: usize) -> (r: &'static str)
    requires
        d < 10,
    ensures
        r@ == seq![spec_digit_char(d as nat)],
{
    proof {
        reveal_strlit("0");
        reveal_strlit("1");
        reveal_strlit("2");
        reveal_strlit("3");
        reveal_strlit("4");
        reveal_strlit("5");
        reveal_strlit("6");
        reveal_strlit("7");
        reveal_strlit("8");
        reveal_strlit("9");
    }
    let r = if d == 0 {
        "0"
    } else if d == 1 {
        "1"
    } else if d == 2 {
        "2"
    } else if d == 3 {
        "3"
    } else if d == 4 {
        "4"
    } else if d == 5 {
        "5"
    } else if d == 6 {
        "6"
    } else if d == 7 {
        "7"
    } else if d == 8 {
        "8"
    } else {
        "9"
    };
    proof {
        assert(r@ =~= seq![spec_digit_char(d as nat)]);
    }
    r
}

/// The decimal text of a position, used as the field name of a tuple
/// element.
pub fn decimal_string(n: usize) -> (r: String)
    ensures
        r@ == spec_decimal(n as nat),
    decreases n,
{
    if n < 10 {
        String::from_str(digit_str(n))
    } else {
        let prefix = decimal_string(n / 10);
        let r = prefix.concat(digit_str(n % 10));
        proof {
            assert(r@ =~= spec_decimal(n as nat));
        }
        r
    }
}

} // verus!

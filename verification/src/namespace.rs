//! Namespace resolution: dot-joined qualification paths scoping generated
//! record and enum names.

use vstd::prelude::*;

verus! {

/// The namespace of a child item: `local` when no parent namespace is given,
/// else the parent namespace, a dot, and the local name.
pub open spec fn spec_resolve(parent: Option<Seq<char>>, local: Seq<char>) -> Seq<char> {
    match parent {
        Option::None => local,
        Option::Some(p) => p + "."@ + local,
    }
}

/// Namespace resolver, called at every recursive descent into a field or
/// variant.
pub fn resolve(parent: &Option<String>, local: &String) -> (r: String)
    ensures
        r@ == spec_resolve(parent.deep_view(), local@),
{
    match parent {
        Option::None => local.clone(),
        Option::Some(p) => p.clone().concat(".").concat(local.as_str()),
    }
}

} // verus!

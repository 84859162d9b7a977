//! Structural classification of declared types.
//!
//! A declared type matches a wrapper name exactly when its outermost form is
//! a single path segment equal to that name carrying exactly one
//! angle-bracketed type argument.  Everything else — a multi-segment path, a
//! non-path type, no arguments, several arguments, a lifetime argument —
//! yields no match.  The match is on the declared spelling only.

use vstd::prelude::*;

use crate::model::{GenArg, TypeExpr};

verus! {

/// The name of the optional-value wrapper recognized by the generator.
pub open spec fn optional_wrapper() -> Seq<char> {
    "Option"@
}

/// The name of the sequence wrapper recognized by the generator.
pub open spec fn sequence_wrapper() -> Seq<char> {
    "Vec"@
}

/// The optional-value wrapper's name, as a value.
pub fn optional_wrapper_name() -> (r: String)
    ensures
        r@ == optional_wrapper(),
{
    String::from_str("Option")
}

/// The sequence wrapper's name, as a value.
pub fn sequence_wrapper_name() -> (r: String)
    ensures
        r@ == sequence_wrapper(),
{
    String::from_str("Vec")
}

/// Whether `t` is a single path segment named `w` carrying exactly one
/// angle-bracketed type argument.
pub open spec fn wrapper_match(t: TypeExpr, w: Seq<char>) -> bool {
    &&& t matches TypeExpr::Path { segments, .. }
    &&& segments@.len() == 1
    &&& segments@[0].name@ == w
    &&& segments@[0].args@.len() == 1
    &&& segments@[0].args@[0] is Ty
}

/// The sole type argument of a matching wrapper.
pub open spec fn wrapper_inner(t: TypeExpr, w: Seq<char>) -> TypeExpr
    recommends
        wrapper_match(t, w),
{
    *(t->Path_segments@[0].args@[0]->0)
}

/// Whether `t` is exactly the plain identifier `name`: a single path
/// segment with no generic arguments.
pub open spec fn is_ident_type(t: TypeExpr, name: Seq<char>) -> bool {
    &&& t matches TypeExpr::Path { segments, .. }
    &&& segments@.len() == 1
    &&& segments@[0].name@ == name
    &&& segments@[0].args@.len() == 0
}

/// Classify `t` against the wrapper name `w`: when `t` is a single path
/// segment named `w` with exactly one type argument, return that argument.
pub fn classify<'a>(t: &'a TypeExpr, w: &String) -> (r: Option<&'a TypeExpr>)
    ensures
        r is Some <==> wrapper_match(*t, w@),
        r matches Some(inner) ==> *inner == wrapper_inner(*t, w@),
{
    match t {
        TypeExpr::Path { segments, .. } => {
            if segments.len() == 1 {
                let seg = &segments[0];
                if seg.name == *w && seg.args.len() == 1 {
                    match &seg.args[0] {
                        GenArg::Ty(inner) => Some(&**inner),
                        GenArg::NonType => None,
                    }
                } else {
                    None
                }
            } else {
                None
            }
        },
        TypeExpr::Other { .. } => None,
    }
}

/// Whether `t` is exactly the plain identifier `name`.
pub fn is_ident(t: &TypeExpr, name: &String) -> (r: bool)
    ensures
        r == is_ident_type(*t, name@),
{
    match t {
        TypeExpr::Path { segments, .. } => {
            segments.len() == 1 && segments[0].name == *name && segments[0].args.len() == 0
        },
        TypeExpr::Other { .. } => false,
    }
}

} // verus!

//! Inference of the formatting-capability bounds on generic parameters.
//!
//! A parameter requires the bound exactly when some field's declared type
//! either is that parameter directly, or is a recognized single-level
//! generic wrapper (the optional-value or sequence wrapper) whose sole
//! argument is that parameter.  Detection stops at one level of nesting: a
//! parameter reachable only through an unrecognized wrapper, or buried two
//! or more wrapper layers deep, is never matched and thus never bounded.
//! That one-level limit is a conscious scope boundary, not an oversight to
//! repair with deeper recursion.

use vstd::prelude::*;

use crate::model::{FieldDescriptor, TypeExpr};
use crate::shape::{
    classify, is_ident, is_ident_type, optional_wrapper, optional_wrapper_name, sequence_wrapper,
    sequence_wrapper_name, wrapper_inner, wrapper_match,
};

verus! {

/// Whether the declared type `t` forces the bound onto the parameter `p`:
/// `t` is `p` itself, or a recognized wrapper applied directly to `p`.
pub open spec fn spec_needs_bound(t: TypeExpr, p: Seq<char>) -> bool {
    ||| is_ident_type(t, p)
    ||| (wrapper_match(t, optional_wrapper()) && is_ident_type(
        wrapper_inner(t, optional_wrapper()),
        p,
    ))
    ||| (wrapper_match(t, sequence_wrapper()) && is_ident_type(
        wrapper_inner(t, sequence_wrapper()),
        p,
    ))
}

/// Whether some field of the record forces the bound onto the parameter
/// `p`.
pub open spec fn spec_param_bounded(fields: Seq<FieldDescriptor>, p: Seq<char>) -> bool {
    exists|i: int| 0 <= i < fields.len() && spec_needs_bound(#[trigger] fields[i].ty, p)
}

/// The subset of the parameters `generics` that some field forces the
/// bound onto, kept in declaration order.
pub open spec fn spec_bounded_params(generics: Seq<String>, fields: Seq<FieldDescriptor>) -> Seq<
    String,
>
    decreases generics.len(),
{
    if generics.len() == 0 {
        Seq::empty()
    } else {
        spec_bounded_params(generics.drop_last(), fields) + if spec_param_bounded(
            fields,
            generics.last()@,
        ) {
            seq![generics.last()]
        } else {
            Seq::empty()
        }
    }
}

/// Whether the declared type `t` forces the bound onto the parameter `p`.
pub fn needs_bound(t: &TypeExpr, p: &String) -> (r: bool)
    ensures
        r == spec_needs_bound(*t, p@),
{
    if is_ident(t, p) {
        return true;
    }
    let opt = optional_wrapper_name();
    match classify(t, &opt) {
        Some(inner) => {
            if is_ident(inner, p) {
                return true;
            }
        },
        None => {},
    }
    let seq_w = sequence_wrapper_name();
    match classify(t, &seq_w) {
        Some(inner) => {
            if is_ident(inner, p) {
                return true;
            }
        },
        None => {},
    }
    false
}

/// Whether some field's declared type forces the bound onto `p`.
fn param_bounded(fields: &Vec<FieldDescriptor>, p: &String) -> (r: bool)
    ensures
        r == spec_param_bounded(fields@, p@),
{
    let mut i: usize = 0;
    while i < fields.len()
        invariant
            i <= fields.len(),
            forall|j: int| 0 <= j < i ==> !spec_needs_bound(#[trigger] fields@[j].ty, p@),
        decreases fields.len() - i,
    {
        if needs_bound(&fields[i].ty, p) {
            return true;
        }
        i = i + 1;
    }
    false
}

/// Compute the parameters that must carry the formatting bound on the
/// generated implementation: exactly those that some field's declared type
/// is, or wraps directly under a recognized wrapper.
pub fn infer_bounds(generics: &Vec<String>, fields: &Vec<FieldDescriptor>) -> (r: Vec<String>)
    ensures
        r@ == spec_bounded_params(generics@, fields@),
{
    let mut out: Vec<String> = Vec::new();
    let mut i: usize = 0;
    while i < generics.len()
        invariant
            i <= generics.len(),
            out@ == spec_bounded_params(generics@.take(i as int), fields@),
        decreases generics.len() - i,
    {
        proof {
            assert(generics@.take(i + 1).drop_last() =~= generics@.take(i as int));
            assert(generics@.take(i + 1).last() == generics@[i as int]);
        }
        if param_bounded(fields, &generics[i]) {
            let g = generics[i].clone();
            out.push(g);
        }
        i = i + 1;
    }
    proof {
        assert(generics@.take(generics@.len() as int) =~= generics@);
    }
    out
}

/// A declared parameter is in the inferred set exactly when some field's
/// declared type forces the bound onto it: no parameter is bounded
/// needlessly, and none that needs the bound is missed.
pub proof fn lemma_bounded_params_membership(
    generics: Seq<String>,
    fields: Seq<FieldDescriptor>,
    g: String,
)
    requires
        generics.contains(g),
    ensures
        spec_bounded_params(generics, fields).contains(g) <==> spec_param_bounded(fields, g@),
{
    lemma_bounded_params_subset(generics, fields);
    if spec_param_bounded(fields, g@) {
        lemma_bounded_params_complete(generics, fields, g);
    }
}

/// Every member of the inferred set is a parameter that some field forces
/// the bound onto.
pub proof fn lemma_bounded_params_subset(generics: Seq<String>, fields: Seq<FieldDescriptor>)
    ensures
        forall|g: String|
            #[trigger] spec_bounded_params(generics, fields).contains(g) ==> generics.contains(g)
                && spec_param_bounded(fields, g@),
    decreases generics.len(),
{
    if generics.len() > 0 {
        lemma_bounded_params_subset(generics.drop_last(), fields);
        assert forall|g: String| #[trigger]
            spec_bounded_params(generics, fields).contains(g) implies generics.contains(g)
            && spec_param_bounded(fields, g@) by {
            let s = spec_bounded_params(generics, fields);
            let prefix = spec_bounded_params(generics.drop_last(), fields);
            let k = choose|k: int| 0 <= k < s.len() && s[k] == g;
            if k < prefix.len() {
                assert(prefix.contains(g));
                assert(generics.drop_last().contains(g));
                let m = choose|m: int|
                    0 <= m < generics.drop_last().len() && generics.drop_last()[m] == g;
                assert(generics[m] == g);
            } else {
                assert(g == generics.last());
                assert(generics[generics.len() - 1] == g);
            }
        }
    }
}

/// A parameter that some field forces the bound onto is in the inferred
/// set.
pub proof fn lemma_bounded_params_complete(
    generics: Seq<String>,
    fields: Seq<FieldDescriptor>,
    g: String,
)
    requires
        generics.contains(g),
        spec_param_bounded(fields, g@),
    ensures
        spec_bounded_params(generics, fields).contains(g),
    decreases generics.len(),
{
    let s = spec_bounded_params(generics, fields);
    let prefix = spec_bounded_params(generics.drop_last(), fields);
    if generics.last() == g {
        assert(s[s.len() - 1] == g);
    } else {
        let m = choose|m: int| 0 <= m < generics.len() && generics[m] == g;
        assert(generics.drop_last()[m] == g);
        lemma_bounded_params_complete(generics.drop_last(), fields, g);
        let k = choose|k: int| 0 <= k < prefix.len() && prefix[k] == g;
        assert(s[k] == g);
    }
}

} // verus!

//! The meaning of the operations the emitted code performs, verified once
//! over all schemas.
//!
//! The emitted builder keeps one optional-value slot per field and the
//! emitted formatting operation renders a named aggregate.  The functions
//! here are those operations, stated over any element type and any slot
//! contents: what a setter stores, what the element-appending operation
//! does to an empty or filled slot, what finalize yields for each field
//! mode, which unset required field finalize names first, and how the
//! aggregate rendering is assembled.

use vstd::prelude::*;
use vstd::string::StringExecFns;

use crate::builder_gen::{FieldMode, FieldPlan};

verus! {

/// The failure the emitted finalize operation returns when a required
/// field's slot was never filled: it carries that field's name.
#[derive(Debug)]
pub struct UnsetFieldError {
    pub field: String,
}

impl UnsetFieldError {
    /// The failure's message, naming the field.
    pub fn message(&self) -> (r: String)
        ensures
            r@ == self.field@ + " is not set"@,
    {
        let mut m = self.field.clone();
        m.append(" is not set");
        m
    }
}

/// What a setter does: the supplied value is stored in the slot, whatever
/// the slot held before.
pub fn set_value<T>(slot: &mut Option<T>, value: T)
    ensures
        *final(slot) == Some(value),
{
    *slot = Some(value);
}

/// What the element-appending operation does: an empty slot is first
/// initialized to the empty sequence, then the element is appended, so
/// elements end up in call order.
pub fn append_element<T>(slot: &mut Option<Vec<T>>, elem: T)
    ensures
        (*final(slot)) matches Some(items) && items@ == (match *old(slot) {
            None => Seq::<T>::empty(),
            Some(prior) => prior@,
        }).push(elem),
{
    if slot.is_none() {
        *slot = Some(Vec::new());
    }
    match slot {
        Some(items) => items.push(elem),
        None => {
            proof {
                assert(false);
            }
        },
    }
}

/// What the whole-sequence setter of a repeated field does: the slot is
/// replaced wholesale, discarding any elements appended before.
pub fn replace_elements<T>(slot: &mut Option<Vec<T>>, items: Vec<T>)
    ensures
        *final(slot) == Some(items),
{
    *slot = Some(items);
}

/// What finalize yields for a required field: the stored value, or the
/// unset-field error naming the field when the slot is empty.
pub fn finalize_required<T>(slot: Option<T>, field: &String) -> (r: Result<T, UnsetFieldError>)
    ensures
        match r {
            Ok(v) => slot == Some(v),
            Err(e) => slot is None && e.field@ == field@,
        },
{
    match slot {
        Some(v) => Ok(v),
        None => Err(UnsetFieldError { field: field.clone() }),
    }
}

/// What finalize yields for an optional field: the slot's current value,
/// passed through unchanged — an empty slot is a legitimate unset value,
/// never an error.
pub fn finalize_optional<T>(slot: Option<T>) -> (r: Option<T>)
    ensures
        r == slot,
{
    slot
}

/// What finalize yields for a repeated field: the accumulated elements,
/// or the empty sequence when the slot was never touched — never an
/// error.
pub fn finalize_repeated<T>(slot: Option<Vec<T>>) -> (r: Vec<T>)
    ensures
        match slot {
            Some(items) => r == items,
            None => r@ == Seq::<T>::empty(),
        },
{
    match slot {
        Some(items) => items,
        None => Vec::new(),
    }
}

/// Whether the plan's field must be filled before finalize.
pub open spec fn is_required(p: FieldPlan) -> bool {
    p.mode is Required
}

/// The position of the first required field whose slot is empty, if any:
/// the field the emitted finalize operation fails on.
pub open spec fn spec_first_unset(plans: Seq<FieldPlan>, filled: Seq<bool>) -> Option<int>
    decreases plans.len(),
{
    if plans.len() == 0 {
        None
    } else if is_required(plans[0]) && !filled[0] {
        Some(0)
    } else {
        match spec_first_unset(plans.drop_first(), filled.drop_first()) {
            None => None,
            Some(i) => Some(i + 1),
        }
    }
}

/// What the emitted finalize operation decides, given which slots were
/// filled: it succeeds exactly when every required field's slot is
/// filled, and otherwise fails with the unset-field error naming the
/// first required field whose slot is empty.  Optional and repeated
/// fields never contribute a failure.
pub fn finalize_status(plans: &Vec<FieldPlan>, filled: &Vec<bool>) -> (r: Result<
    (),
    UnsetFieldError,
>)
    requires
        plans@.len() == filled@.len(),
    ensures
        match r {
            Ok(()) => forall|i: int|
                0 <= i < plans@.len() && is_required(#[trigger] plans@[i]) ==> filled@[i],
            Err(e) => spec_first_unset(plans@, filled@) matches Some(i) && e.field@
                == plans@[i].name@,
        },
        r is Ok <==> spec_first_unset(plans@, filled@) is None,
{
    proof {
        lemma_first_unset_in_range(plans@, filled@);
    }
    let mut i: usize = 0;
    while i < plans.len()
        invariant
            i <= plans@.len(),
            plans@.len() == filled@.len(),
            forall|j: int| 0 <= j < i && is_required(#[trigger] plans@[j]) ==> filled@[j],
            spec_first_unset(plans@, filled@) matches Some(k) ==> k >= i,
        decreases plans@.len() - i,
    {
        let required = match &plans[i].mode {
            FieldMode::Required { .. } => true,
            _ => false,
        };
        if required && !filled[i] {
            proof {
                lemma_first_unset_here(plans@, filled@, i as int);
            }
            return Err(UnsetFieldError { field: plans[i].name.clone() });
        }
        proof {
            lemma_first_unset_past(plans@, filled@, i as int);
        }
        i = i + 1;
    }
    proof {
        if spec_first_unset(plans@, filled@) matches Some(k) {
            lemma_first_unset_in_range(plans@, filled@);
        }
    }
    Ok(())
}

/// If every slot before `i` passes and the slot at `i` is a required one
/// left empty, `i` is the first unset position.
proof fn lemma_first_unset_here(plans: Seq<FieldPlan>, filled: Seq<bool>, i: int)
    requires
        plans.len() == filled.len(),
        0 <= i < plans.len(),
        forall|j: int| 0 <= j < i ==> !(is_required(#[trigger] plans[j]) && !filled[j]),
        is_required(plans[i]) && !filled[i],
    ensures
        spec_first_unset(plans, filled) == Some(i),
    decreases i,
{
    if i == 0 {
    } else {
        assert(plans.drop_first()[i - 1] == plans[i]);
        assert(forall|j: int|
            0 <= j < i - 1 ==> plans.drop_first()[j] == plans[j + 1] && filled.drop_first()[j]
                == filled[j + 1]);
        lemma_first_unset_here(plans.drop_first(), filled.drop_first(), i - 1);
    }
}

/// If no slot up to and including `i` is a required one left empty, the
/// first unset position, if any, lies beyond `i`.
proof fn lemma_first_unset_past(plans: Seq<FieldPlan>, filled: Seq<bool>, i: int)
    requires
        plans.len() == filled.len(),
        0 <= i < plans.len(),
        forall|j: int| 0 <= j <= i ==> !(is_required(#[trigger] plans[j]) && !filled[j]),
    ensures
        spec_first_unset(plans, filled) matches Some(k) ==> k > i,
    decreases i,
{
    if plans.len() > 0 {
        if i == 0 {
            lemma_first_unset_in_range(plans.drop_first(), filled.drop_first());
        } else {
            assert(forall|j: int|
                0 <= j <= i - 1 ==> plans.drop_first()[j] == plans[j + 1]
                    && filled.drop_first()[j] == filled[j + 1]);
            lemma_first_unset_past(plans.drop_first(), filled.drop_first(), i - 1);
        }
    }
}

/// The first unset position is a position of the record, and it points at
/// a required field left empty.
proof fn lemma_first_unset_in_range(plans: Seq<FieldPlan>, filled: Seq<bool>)
    requires
        plans.len() == filled.len(),
    ensures
        spec_first_unset(plans, filled) matches Some(k) ==> 0 <= k < plans.len() && is_required(
            plans[k],
        ) && !filled[k],
    decreases plans.len(),
{
    if plans.len() > 0 {
        lemma_first_unset_in_range(plans.drop_first(), filled.drop_first());
    }
}

/// A field that is not required never decides the finalize outcome: the
/// outcome is the same however its slot flag is flipped.
pub proof fn lemma_non_required_never_blocks(
    plans: Seq<FieldPlan>,
    filled: Seq<bool>,
    i: int,
    b: bool,
)
    requires
        plans.len() == filled.len(),
        0 <= i < plans.len(),
        !is_required(plans[i]),
    ensures
        spec_first_unset(plans, filled.update(i, b)) == spec_first_unset(plans, filled),
    decreases plans.len(),
{
    if plans.len() > 0 {
        if i == 0 {
            assert(filled.update(0, b).drop_first() =~= filled.drop_first());
            assert(filled.update(0, b)[0] == b);
        } else {
            assert(filled.update(i, b).drop_first() =~= filled.drop_first().update(i - 1, b));
            assert(filled.update(i, b)[0] == filled[0]);
            lemma_non_required_never_blocks(plans.drop_first(), filled.drop_first(), i - 1, b);
        }
    }
}

/// A field declared with the optional-value wrapper never decides the
/// finalize outcome: whether or not its slot was ever filled, finalize
/// succeeds, or fails on the same required field, exactly as before.
pub proof fn lemma_optional_field_never_errors(
    plans: Seq<FieldPlan>,
    filled: Seq<bool>,
    i: int,
    b: bool,
)
    requires
        plans.len() == filled.len(),
        0 <= i < plans.len(),
        plans[i].mode is Optional,
    ensures
        spec_first_unset(plans, filled.update(i, b)) == spec_first_unset(plans, filled),
{
    lemma_non_required_never_blocks(plans, filled, i, b);
}

/// A repeated field never decides the finalize outcome either: left
/// untouched it finalizes to the empty sequence, not to a failure.
pub proof fn lemma_repeated_field_never_errors(
    plans: Seq<FieldPlan>,
    filled: Seq<bool>,
    i: int,
    b: bool,
)
    requires
        plans.len() == filled.len(),
        0 <= i < plans.len(),
        plans[i].mode is Repeated,
    ensures
        spec_first_unset(plans, filled.update(i, b)) == spec_first_unset(plans, filled),
{
    lemma_non_required_never_blocks(plans, filled, i, b);
}

/// The conventional named-aggregate rendering: the record's name alone
/// when there are no fields, and otherwise the name followed by each
/// field as `name: value`, comma-separated inside braces.
pub open spec fn spec_render_fields(fields: Seq<(Seq<char>, Seq<char>)>) -> Seq<char>
    decreases fields.len(),
{
    if fields.len() == 0 {
        Seq::empty()
    } else if fields.len() == 1 {
        fields[0].0 + ": "@ + fields[0].1
    } else {
        spec_render_fields(fields.drop_last()) + ", "@ + fields.last().0 + ": "@ + fields.last().1
    }
}

/// The rendering of a whole record from its name and its fields' already
/// rendered values.
pub open spec fn spec_render_record(name: Seq<char>, fields: Seq<(Seq<char>, Seq<char>)>) -> Seq<
    char,
> {
    if fields.len() == 0 {
        name
    } else {
        name + " { "@ + spec_render_fields(fields) + " }"@
    }
}

/// The spec-level values of rendered field pairs.
pub open spec fn pair_views(fields: Seq<(String, String)>) -> Seq<(Seq<char>, Seq<char>)> {
    fields.map_values(|p: (String, String)| (p.0@, p.1@))
}

/// Render a record as the emitted formatting operation does, from its
/// name and its fields' already rendered values.
pub fn render_record(name: &String, fields: &Vec<(String, String)>) -> (r: String)
    ensures
        r@ == spec_render_record(name@, pair_views(fields@)),
{
    let ghost vs = pair_views(fields@);
    let mut out = name.clone();
    if fields.len() == 0 {
        return out;
    }
    out.append(" { ");
    proof {
        assert(vs.take(0) =~= Seq::<(Seq<char>, Seq<char>)>::empty());
    }
    let mut i: usize = 0;
    while i < fields.len()
        invariant
            i <= fields@.len(),
            fields@.len() > 0,
            vs == pair_views(fields@),
            i == 0 ==> out@ == name@ + " { "@,
            i > 0 ==> out@ == name@ + " { "@ + spec_render_fields(vs.take(i as int)),
        decreases fields@.len() - i,
    {
        proof {
            assert(vs.take(i + 1).drop_last() =~= vs.take(i as int));
            assert(vs.take(i + 1).last() == vs[i as int]);
            assert(vs[i as int] == (fields@[i as int].0@, fields@[i as int].1@));
        }
        if i > 0 {
            out.append(", ");
        }
        out.append(fields[i].0.as_str());
        out.append(": ");
        out.append(fields[i].1.as_str());
        i = i + 1;
    }
    proof {
        assert(vs.take(fields@.len() as int) =~= vs);
    }
    out.append(" }");
    out
}

} // verus!

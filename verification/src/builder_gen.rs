//! Synthesis of the builder companion.
//!
//! For each field the synthesizer first settles a plan.  A field carrying
//! the per-element accessor directive must be declared with the sequence
//! wrapper and becomes a repeated field; a field declared with the
//! optional-value wrapper becomes an optional field; every other field is
//! required.  The emitted companion holds one optional-value slot per
//! field, starts with every slot empty, offers one setter per plain field
//! (taking the unwrapped type for optional fields), an element-appending
//! operation per repeated field — plus a whole-sequence setter under the
//! field's own name when the accessor's configured name differs from it —
//! and a finalize operation that fails on the first required field whose
//! slot was never filled.

use vstd::prelude::*;
use vstd::string::StringExecFns;

use crate::attr::spec_each_directive;
use crate::attr::each_directive;
use crate::model::{FieldDescriptor, GenError, GenErrorView, SchemaShape, TypeDescriptor};
use crate::shape::{
    classify, optional_wrapper, optional_wrapper_name, sequence_wrapper, sequence_wrapper_name,
    wrapper_inner, wrapper_match,
};

verus! {

/// How the builder treats one field.
pub enum FieldMode {
    /// The slot must be filled before finalize; the setter takes the
    /// declared type.
    Required { ty_text: String },
    /// The declared type is the optional-value wrapper; the setter takes
    /// the inner type and an empty slot is a legitimate final value.
    Optional { inner_text: String },
    /// The declared type is the sequence wrapper; elements are appended
    /// one at a time, and an empty slot finalizes to the empty sequence.
    Repeated { elem_text: String, each_name: String, whole_text: String },
}

/// The settled plan for one field: its name and its mode.
pub struct FieldPlan {
    pub name: String,
    pub mode: FieldMode,
}

/// The spec-level value of a [`FieldMode`].
pub enum FieldModeView {
    Required { ty_text: Seq<char> },
    Optional { inner_text: Seq<char> },
    Repeated { elem_text: Seq<char>, each_name: Seq<char>, whole_text: Seq<char> },
}

/// The spec-level value of a [`FieldPlan`].
pub struct FieldPlanView {
    pub name: Seq<char>,
    pub mode: FieldModeView,
}

impl View for FieldMode {
    type V = FieldModeView;

    open spec fn view(&self) -> FieldModeView {
        match self {
            FieldMode::Required { ty_text } => FieldModeView::Required { ty_text: ty_text@ },
            FieldMode::Optional { inner_text } => FieldModeView::Optional {
                inner_text: inner_text@,
            },
            FieldMode::Repeated { elem_text, each_name, whole_text } => FieldModeView::Repeated {
                elem_text: elem_text@,
                each_name: each_name@,
                whole_text: whole_text@,
            },
        }
    }
}

impl View for FieldPlan {
    type V = FieldPlanView;

    open spec fn view(&self) -> FieldPlanView {
        FieldPlanView { name: self.name@, mode: self.mode@ }
    }
}

/// The plan a field settles to, or the error that aborts generation for
/// it: a directive syntax error from the annotation parse, or the shape
/// error of a repeated field not declared with the sequence wrapper.
pub open spec fn spec_plan_field(f: FieldDescriptor) -> Result<FieldPlanView, GenErrorView> {
    match spec_each_directive(f.annotations@) {
        Err(m) => Err(GenErrorView::DirectiveSyntax { message: m }),
        Ok(Some(each)) => if wrapper_match(f.ty, sequence_wrapper()) {
            Ok(
                FieldPlanView {
                    name: f.name@,
                    mode: FieldModeView::Repeated {
                        elem_text: wrapper_inner(f.ty, sequence_wrapper()).spec_text(),
                        each_name: each,
                        whole_text: f.ty.spec_text(),
                    },
                },
            )
        } else {
            Err(GenErrorView::RepeatedShape { field: f.name@ })
        },
        Ok(None) => if wrapper_match(f.ty, optional_wrapper()) {
            Ok(
                FieldPlanView {
                    name: f.name@,
                    mode: FieldModeView::Optional {
                        inner_text: wrapper_inner(f.ty, optional_wrapper()).spec_text(),
                    },
                },
            )
        } else {
            Ok(FieldPlanView { name: f.name@, mode: FieldModeView::Required { ty_text: f.ty.spec_text() } })
        },
    }
}

/// The plans of all fields in declaration order, or the first field's
/// error.
pub open spec fn spec_plan_fields(fields: Seq<FieldDescriptor>) -> Result<
    Seq<FieldPlanView>,
    GenErrorView,
>
    decreases fields.len(),
{
    if fields.len() == 0 {
        Ok(Seq::empty())
    } else {
        match spec_plan_fields(fields.drop_last()) {
            Err(e) => Err(e),
            Ok(ps) => match spec_plan_field(fields.last()) {
                Err(e) => Err(e),
                Ok(p) => Ok(ps.push(p)),
            },
        }
    }
}

/// Settle the plan for one field.
pub fn plan_field(f: &FieldDescriptor) -> (r: Result<FieldPlan, GenError>)
    ensures
        match r {
            Ok(p) => spec_plan_field(*f) == Ok::<FieldPlanView, GenErrorView>(p@),
            Err(e) => spec_plan_field(*f) == Err::<FieldPlanView, GenErrorView>(e@),
        },
{
    let each = match each_directive(&f.annotations) {
        Err(e) => {
            return Err(e);
        },
        Ok(v) => v,
    };
    match each {
        Some(each_name) => {
            let seq_w = sequence_wrapper_name();
            match classify(&f.ty, &seq_w) {
                Some(inner) => Ok(
                    FieldPlan {
                        name: f.name.clone(),
                        mode: FieldMode::Repeated {
                            elem_text: inner.text().clone(),
                            each_name,
                            whole_text: f.ty.text().clone(),
                        },
                    },
                ),
                None => Err(GenError::RepeatedShape { field: f.name.clone() }),
            }
        },
        None => {
            let opt_w = optional_wrapper_name();
            match classify(&f.ty, &opt_w) {
                Some(inner) => Ok(
                    FieldPlan {
                        name: f.name.clone(),
                        mode: FieldMode::Optional { inner_text: inner.text().clone() },
                    },
                ),
                None => Ok(
                    FieldPlan {
                        name: f.name.clone(),
                        mode: FieldMode::Required { ty_text: f.ty.text().clone() },
                    },
                ),
            }
        },
    }
}

/// Settle the plans of all fields, stopping at the first field that
/// reports an error.
pub fn plan_fields(fields: &Vec<FieldDescriptor>) -> (r: Result<Vec<FieldPlan>, GenError>)
    ensures
        match r {
            Ok(ps) => spec_plan_fields(fields@) == Ok::<Seq<FieldPlanView>, GenErrorView>(
                ps@.map_values(|p: FieldPlan| p@),
            ),
            Err(e) => spec_plan_fields(fields@) == Err::<Seq<FieldPlanView>, GenErrorView>(e@),
        },
{
    let mut out: Vec<FieldPlan> = Vec::new();
    proof {
        assert(fields@.take(0) =~= Seq::<FieldDescriptor>::empty());
        assert(out@.map_values(|p: FieldPlan| p@) =~= Seq::<FieldPlanView>::empty());
    }
    let mut i: usize = 0;
    while i < fields.len()
        invariant
            i <= fields.len(),
            spec_plan_fields(fields@.take(i as int)) == Ok::<Seq<FieldPlanView>, GenErrorView>(
                out@.map_values(|p: FieldPlan| p@),
            ),
        decreases fields.len() - i,
    {
        proof {
            assert(fields@.take(i + 1).drop_last() =~= fields@.take(i as int));
            assert(fields@.take(i + 1).last() == fields@[i as int]);
        }
        match plan_field(&fields[i]) {
            Ok(p) => {
                let ghost prev = out@.map_values(|q: FieldPlan| q@);
                out.push(p);
                proof {
                    assert(out@.map_values(|q: FieldPlan| q@) =~= prev.push(p@));
                }
            },
            Err(e) => {
                proof {
                    lemma_plan_fields_error(fields@, i as int, e@);
                }
                return Err(e);
            },
        }
        i = i + 1;
    }
    proof {
        assert(fields@.take(fields@.len() as int) =~= fields@);
    }
    Ok(out)
}

/// The spec-level values of a vector of field plans.
pub open spec fn plan_views(ps: Seq<FieldPlan>) -> Seq<FieldPlanView> {
    ps.map_values(|p: FieldPlan| p@)
}

/// The text of the pieces each field contributes, concatenated in
/// declaration order.
pub open spec fn spec_cat(ps: Seq<FieldPlanView>, f: spec_fn(FieldPlanView) -> Seq<char>) -> Seq<
    char,
>
    decreases ps.len(),
{
    if ps.len() == 0 {
        Seq::empty()
    } else {
        spec_cat(ps.drop_last(), f) + f(ps.last())
    }
}

/// The stored type of a field's slot: optional fields store the inner
/// type, every other field stores the declared type.
pub open spec fn spec_stored_text(m: FieldModeView) -> Seq<char> {
    match m {
        FieldModeView::Required { ty_text } => ty_text,
        FieldModeView::Optional { inner_text } => inner_text,
        FieldModeView::Repeated { whole_text, .. } => whole_text,
    }
}

/// The slot declaration a field contributes to the companion type.
pub open spec fn spec_slot_decl(p: FieldPlanView) -> Seq<char> {
    "    "@ + p.name + ": Option<"@ + spec_stored_text(p.mode) + ">,\n"@
}

/// The empty-slot initializer a field contributes to the constructor.
pub open spec fn spec_init_line(p: FieldPlanView) -> Seq<char> {
    "            "@ + p.name + ": None,\n"@
}

/// The finalize line a field contributes: repeated slots default to the
/// empty sequence, optional slots pass through, required slots fail with
/// the unset-field error when empty.
pub open spec fn spec_build_line(p: FieldPlanView) -> Seq<char> {
    match p.mode {
        FieldModeView::Repeated { .. } => "            "@ + p.name + ": self."@ + p.name
            + ".clone().unwrap_or(vec![]),\n"@,
        FieldModeView::Optional { .. } => "            "@ + p.name + ": self."@ + p.name
            + ".clone(),\n"@,
        FieldModeView::Required { .. } => "            "@ + p.name + ": self."@ + p.name
            + ".clone().ok_or(\""@ + p.name + " is not set\")?,\n"@,
    }
}

/// A setter that stores one supplied value in the field's slot.
pub open spec fn spec_simple_setter(name: Seq<char>, ty: Seq<char>) -> Seq<char> {
    "    fn "@ + name + "(&mut self, "@ + name + ": "@ + ty + ") -> &mut Self {\n        self."@
        + name + " = Some("@ + name + ");\n        self\n    }\n"@
}

/// The element-appending operation of a repeated field: an empty slot is
/// first initialized to the empty sequence, then the element is appended.
pub open spec fn spec_append_setter(each: Seq<char>, slot: Seq<char>, elem: Seq<char>) -> Seq<
    char,
> {
    "    fn "@ + each + "(&mut self, "@ + each + ": "@ + elem + ") -> &mut Self {\n        if self."@
        + slot + ".is_none() {\n            self."@ + slot
        + " = Some(vec![]);\n        }\n        self."@ + slot + ".as_mut().unwrap().push("@ + each
        + ");\n        self\n    }\n"@
}

/// The mutation operations a field contributes: one simple setter for a
/// plain field, the element-appending operation for a repeated field —
/// together with a whole-sequence setter under the field's own name when
/// the accessor's configured name differs from it.
pub open spec fn spec_setters_of(p: FieldPlanView) -> Seq<char> {
    match p.mode {
        FieldModeView::Required { ty_text } => spec_simple_setter(p.name, ty_text),
        FieldModeView::Optional { inner_text } => spec_simple_setter(p.name, inner_text),
        FieldModeView::Repeated { elem_text, each_name, whole_text } => spec_append_setter(
            each_name,
            p.name,
            elem_text,
        ) + if each_name == p.name {
            Seq::<char>::empty()
        } else {
            spec_simple_setter(p.name, whole_text)
        },
    }
}

/// The whole emitted builder fragment for a record named `name` with these
/// field plans.
pub open spec fn spec_builder_code(name: Seq<char>, plans: Seq<FieldPlanView>) -> Seq<char> {
    let bname = name + "Builder"@;
    "impl "@ + name + " {\n    pub fn builder() -> "@ + bname + " {\n        "@ + bname + " {\n"@
        + spec_cat(plans, |p: FieldPlanView| spec_init_line(p)) + "        }\n    }\n}\n\npub struct "@
        + bname + " {\n"@ + spec_cat(plans, |p: FieldPlanView| spec_slot_decl(p))
        + "}\n\nimpl "@ + bname
        + " {\n    pub fn build(&mut self) -> Result<"@ + name
        + ", Box<dyn std::error::Error>> {\n        Ok("@ + name + " {\n"@
        + spec_cat(plans, |p: FieldPlanView| spec_build_line(p)) + "        })\n    }\n\n"@
        + spec_cat(plans, |p: FieldPlanView| spec_setters_of(p)) + "}\n"@
}

/// Append the setter that stores one supplied value.
fn push_simple_setter(out: &mut String, name: &String, ty: &String)
    ensures
        final(out)@ == old(out)@ + spec_simple_setter(name@, ty@),
{
    out.append("    fn ");
    out.append(name.as_str());
    out.append("(&mut self, ");
    out.append(name.as_str());
    out.append(": ");
    out.append(ty.as_str());
    out.append(") -> &mut Self {\n        self.");
    out.append(name.as_str());
    out.append(" = Some(");
    out.append(name.as_str());
    out.append(");\n        self\n    }\n");
    proof {
        assert(out@ =~= old(out)@ + spec_simple_setter(name@, ty@));
    }
}

/// Append the element-appending operation of a repeated field.
fn push_append_setter(out: &mut String, each: &String, slot: &String, elem: &String)
    ensures
        final(out)@ == old(out)@ + spec_append_setter(each@, slot@, elem@),
{
    out.append("    fn ");
    out.append(each.as_str());
    out.append("(&mut self, ");
    out.append(each.as_str());
    out.append(": ");
    out.append(elem.as_str());
    out.append(") -> &mut Self {\n        if self.");
    out.append(slot.as_str());
    out.append(".is_none() {\n            self.");
    out.append(slot.as_str());
    out.append(" = Some(vec![]);\n        }\n        self.");
    out.append(slot.as_str());
    out.append(".as_mut().unwrap().push(");
    out.append(each.as_str());
    out.append(");\n        self\n    }\n");
    proof {
        assert(out@ =~= old(out)@ + spec_append_setter(each@, slot@, elem@));
    }
}

/// Append everything one field contributes to the companion's mutation
/// operations.
fn push_setters_of(out: &mut String, p: &FieldPlan)
    ensures
        final(out)@ == old(out)@ + spec_setters_of(p@),
{
    match &p.mode {
        FieldMode::Required { ty_text } => {
            push_simple_setter(out, &p.name, ty_text);
        },
        FieldMode::Optional { inner_text } => {
            push_simple_setter(out, &p.name, inner_text);
        },
        FieldMode::Repeated { elem_text, each_name, whole_text } => {
            push_append_setter(out, each_name, &p.name, elem_text);
            if !(*each_name == p.name) {
                push_simple_setter(out, &p.name, whole_text);
            }
        },
    }
}

/// Append everything one field contributes to the slot declarations.
fn push_slot_decl(out: &mut String, p: &FieldPlan)
    ensures
        final(out)@ == old(out)@ + spec_slot_decl(p@),
{
    out.append("    ");
    out.append(p.name.as_str());
    out.append(": Option<");
    match &p.mode {
        FieldMode::Required { ty_text } => out.append(ty_text.as_str()),
        FieldMode::Optional { inner_text } => out.append(inner_text.as_str()),
        FieldMode::Repeated { whole_text, .. } => out.append(whole_text.as_str()),
    }
    out.append(">,\n");
    proof {
        assert(out@ =~= old(out)@ + spec_slot_decl(p@));
    }
}

/// Append one field's empty-slot initializer.
fn push_init_line(out: &mut String, p: &FieldPlan)
    ensures
        final(out)@ == old(out)@ + spec_init_line(p@),
{
    out.append("            ");
    out.append(p.name.as_str());
    out.append(": None,\n");
    proof {
        assert(out@ =~= old(out)@ + spec_init_line(p@));
    }
}

/// Append one field's finalize line.
fn push_build_line(out: &mut String, p: &FieldPlan)
    ensures
        final(out)@ == old(out)@ + spec_build_line(p@),
{
    out.append("            ");
    out.append(p.name.as_str());
    out.append(": self.");
    out.append(p.name.as_str());
    match &p.mode {
        FieldMode::Repeated { .. } => {
            out.append(".clone().unwrap_or(vec![]),\n");
        },
        FieldMode::Optional { .. } => {
            out.append(".clone(),\n");
        },
        FieldMode::Required { .. } => {
            out.append(".clone().ok_or(\"");
            out.append(p.name.as_str());
            out.append(" is not set\")?,\n");
        },
    }
    proof {
        assert(out@ =~= old(out)@ + spec_build_line(p@));
    }
}

/// Append every field's empty-slot initializer.
fn push_init_lines(out: &mut String, plans: &Vec<FieldPlan>)
    ensures
        final(out)@ == old(out)@ + spec_cat(plan_views(plans@), |p: FieldPlanView| spec_init_line(p)),
{
    let ghost f: spec_fn(FieldPlanView) -> Seq<char> = |p: FieldPlanView| spec_init_line(p);
    let ghost vs = plan_views(plans@);
    proof {
        assert(vs.take(0) =~= Seq::<FieldPlanView>::empty());
    }
    let mut i: usize = 0;
    while i < plans.len()
        invariant
            i <= plans.len(),
            vs == plan_views(plans@),
            f == (|p: FieldPlanView| spec_init_line(p)),
            out@ == old(out)@ + spec_cat(vs.take(i as int), f),
        decreases plans.len() - i,
    {
        proof {
            assert(vs.take(i + 1).drop_last() =~= vs.take(i as int));
            assert(vs.take(i + 1).last() == vs[i as int]);
            assert(vs[i as int] == plans@[i as int]@);
        }
        push_init_line(out, &plans[i]);
        i = i + 1;
    }
    proof {
        assert(vs.take(plans@.len() as int) =~= vs);
    }
}

/// Append every field's slot declaration.
fn push_slot_decls(out: &mut String, plans: &Vec<FieldPlan>)
    ensures
        final(out)@ == old(out)@ + spec_cat(plan_views(plans@), |p: FieldPlanView| spec_slot_decl(p)),
{
    let ghost f: spec_fn(FieldPlanView) -> Seq<char> = |p: FieldPlanView| spec_slot_decl(p);
    let ghost vs = plan_views(plans@);
    proof {
        assert(vs.take(0) =~= Seq::<FieldPlanView>::empty());
    }
    let mut i: usize = 0;
    while i < plans.len()
        invariant
            i <= plans.len(),
            vs == plan_views(plans@),
            f == (|p: FieldPlanView| spec_slot_decl(p)),
            out@ == old(out)@ + spec_cat(vs.take(i as int), f),
        decreases plans.len() - i,
    {
        proof {
            assert(vs.take(i + 1).drop_last() =~= vs.take(i as int));
            assert(vs.take(i + 1).last() == vs[i as int]);
            assert(vs[i as int] == plans@[i as int]@);
        }
        push_slot_decl(out, &plans[i]);
        i = i + 1;
    }
    proof {
        assert(vs.take(plans@.len() as int) =~= vs);
    }
}

/// Append every field's finalize line.
fn push_build_lines(out: &mut String, plans: &Vec<FieldPlan>)
    ensures
        final(out)@ == old(out)@ + spec_cat(plan_views(plans@), |p: FieldPlanView| spec_build_line(p)),
{
    let ghost f: spec_fn(FieldPlanView) -> Seq<char> = |p: FieldPlanView| spec_build_line(p);
    let ghost vs = plan_views(plans@);
    proof {
        assert(vs.take(0) =~= Seq::<FieldPlanView>::empty());
    }
    let mut i: usize = 0;
    while i < plans.len()
        invariant
            i <= plans.len(),
            vs == plan_views(plans@),
            f == (|p: FieldPlanView| spec_build_line(p)),
            out@ == old(out)@ + spec_cat(vs.take(i as int), f),
        decreases plans.len() - i,
    {
        proof {
            assert(vs.take(i + 1).drop_last() =~= vs.take(i as int));
            assert(vs.take(i + 1).last() == vs[i as int]);
            assert(vs[i as int] == plans@[i as int]@);
        }
        push_build_line(out, &plans[i]);
        i = i + 1;
    }
    proof {
        assert(vs.take(plans@.len() as int) =~= vs);
    }
}

/// Append every field's mutation operations.
fn push_all_setters(out: &mut String, plans: &Vec<FieldPlan>)
    ensures
        final(out)@ == old(out)@ + spec_cat(plan_views(plans@), |p: FieldPlanView| spec_setters_of(p)),
{
    let ghost f: spec_fn(FieldPlanView) -> Seq<char> = |p: FieldPlanView| spec_setters_of(p);
    let ghost vs = plan_views(plans@);
    proof {
        assert(vs.take(0) =~= Seq::<FieldPlanView>::empty());
    }
    let mut i: usize = 0;
    while i < plans.len()
        invariant
            i <= plans.len(),
            vs == plan_views(plans@),
            f == (|p: FieldPlanView| spec_setters_of(p)),
            out@ == old(out)@ + spec_cat(vs.take(i as int), f),
        decreases plans.len() - i,
    {
        proof {
            assert(vs.take(i + 1).drop_last() =~= vs.take(i as int));
            assert(vs.take(i + 1).last() == vs[i as int]);
            assert(vs[i as int] == plans@[i as int]@);
        }
        push_setters_of(out, &plans[i]);
        i = i + 1;
    }
    proof {
        assert(vs.take(plans@.len() as int) =~= vs);
    }
}

/// Synthesize the whole builder fragment for the record `d` describes, or
/// report why generation aborts: an unsupported top-level shape, a
/// directive syntax error, or a repeated field not declared with the
/// sequence wrapper.
pub fn synthesize_builder(d: &TypeDescriptor) -> (r: Result<String, GenError>)
    ensures
        match r {
            Ok(code) => d.shape matches SchemaShape::NamedRecord(fields) && (spec_plan_fields(
                fields@,
            ) matches Ok(ps) && code@ == spec_builder_code(d.name@, ps)),
            Err(e) => match d.shape {
                SchemaShape::NamedRecord(fields) => spec_plan_fields(fields@) == Err::<
                    Seq<FieldPlanView>,
                    GenErrorView,
                >(e@),
                _ => e@ == GenErrorView::UnsupportedShape,
            },
        },
{
    let fields = match &d.shape {
        SchemaShape::NamedRecord(fields) => fields,
        _ => {
            return Err(GenError::UnsupportedShape);
        },
    };
    let plans = match plan_fields(fields) {
        Ok(ps) => ps,
        Err(e) => {
            return Err(e);
        },
    };
    let mut bname = d.name.clone();
    bname.append("Builder");
    let mut out = String::new();
    out.append("impl ");
    out.append(d.name.as_str());
    out.append(" {\n    pub fn builder() -> ");
    out.append(bname.as_str());
    out.append(" {\n        ");
    out.append(bname.as_str());
    out.append(" {\n");
    push_init_lines(&mut out, &plans);
    out.append("        }\n    }\n}\n\npub struct ");
    out.append(bname.as_str());
    out.append(" {\n");
    push_slot_decls(&mut out, &plans);
    out.append("}\n\nimpl ");
    out.append(bname.as_str());
    out.append(" {\n    pub fn build(&mut self) -> Result<");
    out.append(d.name.as_str());
    out.append(", Box<dyn std::error::Error>> {\n        Ok(");
    out.append(d.name.as_str());
    out.append(" {\n");
    push_build_lines(&mut out, &plans);
    out.append("        })\n    }\n\n");
    push_all_setters(&mut out, &plans);
    out.append("}\n");
    proof {
        assert(out@ =~= spec_builder_code(d.name@, plan_views(plans@)));
    }
    Ok(out)
}

/// If the fields before position `i` all settle to plans and the field at
/// `i` reports `e`, the whole record reports `e`.
proof fn lemma_plan_fields_error(fields: Seq<FieldDescriptor>, i: int, e: GenErrorView)
    requires
        0 <= i < fields.len(),
        spec_plan_fields(fields.take(i)) is Ok,
        spec_plan_field(fields[i]) == Err::<FieldPlanView, GenErrorView>(e),
    ensures
        spec_plan_fields(fields) == Err::<Seq<FieldPlanView>, GenErrorView>(e),
    decreases fields.len(),
{
    if fields.len() == i + 1 {
        assert(fields.drop_last() =~= fields.take(i));
        assert(fields.last() == fields[i]);
    } else {
        assert(fields.drop_last().take(i) =~= fields.take(i));
        assert(fields.drop_last()[i] == fields[i]);
        lemma_plan_fields_error(fields.drop_last(), i, e);
    }
}

} // verus!

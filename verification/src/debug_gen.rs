//! Synthesis of the structured formatting implementation.
//!
//! The emitted operation renders the record as a named aggregate of
//! field/value pairs in declaration order: the record's name, then each
//! field as `name: value`.  A field carrying the format override directive
//! is rendered through its format string; every other field is rendered
//! through its value's own structured representation.  The implementation
//! header carries the formatting bound on exactly the generic parameters
//! the bound inference selects.

use vstd::prelude::*;
use vstd::string::StringExecFns;

use crate::attr::format_directive;
use crate::attr::spec_format_directive;
use crate::bounds::{infer_bounds, spec_bounded_params};
use crate::model::{FieldDescriptor, GenError, GenErrorView, SchemaShape, TypeDescriptor};

verus! {

/// The rendering plan for one field: its name, and its format override if
/// it carries one.
pub struct DbgField {
    pub name: String,
    pub fmt: Option<String>,
}

/// The spec-level value of a [`DbgField`].
pub struct DbgFieldView {
    pub name: Seq<char>,
    pub fmt: Option<Seq<char>>,
}

impl View for DbgField {
    type V = DbgFieldView;

    open spec fn view(&self) -> DbgFieldView {
        DbgFieldView {
            name: self.name@,
            fmt: match self.fmt {
                Some(ref s) => Some(s@),
                None => None,
            },
        }
    }
}

/// The rendering plan a field settles to, or the directive syntax error
/// its annotations report.
pub open spec fn spec_dbg_field(f: FieldDescriptor) -> Result<DbgFieldView, GenErrorView> {
    match spec_format_directive(f.annotations@) {
        Err(m) => Err(GenErrorView::DirectiveSyntax { message: m }),
        Ok(fmt) => Ok(DbgFieldView { name: f.name@, fmt }),
    }
}

/// The rendering plans of all fields in declaration order, or the first
/// field's error.
pub open spec fn spec_dbg_fields(fields: Seq<FieldDescriptor>) -> Result<
    Seq<DbgFieldView>,
    GenErrorView,
>
    decreases fields.len(),
{
    if fields.len() == 0 {
        Ok(Seq::empty())
    } else {
        match spec_dbg_fields(fields.drop_last()) {
            Err(e) => Err(e),
            Ok(ds) => match spec_dbg_field(fields.last()) {
                Err(e) => Err(e),
                Ok(d) => Ok(ds.push(d)),
            },
        }
    }
}

/// The spec-level values of a vector of strings.
pub open spec fn string_views(ss: Seq<String>) -> Seq<Seq<char>> {
    ss.map_values(|s: String| s@)
}

/// The items, joined by the separator.
pub open spec fn spec_join(items: Seq<Seq<char>>, sep: Seq<char>) -> Seq<char>
    decreases items.len(),
{
    if items.len() == 0 {
        Seq::empty()
    } else if items.len() == 1 {
        items[0]
    } else {
        spec_join(items.drop_last(), sep) + sep + items.last()
    }
}

/// The angle-bracketed generic parameter list, or nothing when the record
/// has no parameters.
pub open spec fn spec_generic_list(gs: Seq<Seq<char>>) -> Seq<char> {
    if gs.len() == 0 {
        Seq::empty()
    } else {
        "<"@ + spec_join(gs, ", "@) + ">"@
    }
}

/// The bound items of the where clause, one per selected parameter.
pub open spec fn spec_bound_items(bs: Seq<Seq<char>>) -> Seq<char>
    decreases bs.len(),
{
    if bs.len() == 0 {
        Seq::empty()
    } else {
        spec_bound_items(bs.drop_last()) + " "@ + bs.last() + ": std::fmt::Debug,"@
    }
}

/// The where clause of the emitted implementation, or nothing when no
/// parameter needs the bound.
pub open spec fn spec_where_clause(bs: Seq<Seq<char>>) -> Seq<char> {
    if bs.len() == 0 {
        Seq::empty()
    } else {
        " where"@ + spec_bound_items(bs)
    }
}

/// The rendering call one field contributes: through its format override
/// when it carries one, through the value's own representation otherwise.
pub open spec fn spec_dbg_piece(p: DbgFieldView) -> Seq<char> {
    match p.fmt {
        None => "\n            .field(\""@ + p.name + "\", &self."@ + p.name + ")"@,
        Some(f) => "\n            .field(\""@ + p.name + "\", &format_args!(\""@ + f
            + "\", &self."@ + p.name + "))"@,
    }
}

/// The rendering calls of all fields, in declaration order.
pub open spec fn spec_dbg_pieces(ds: Seq<DbgFieldView>) -> Seq<char>
    decreases ds.len(),
{
    if ds.len() == 0 {
        Seq::empty()
    } else {
        spec_dbg_pieces(ds.drop_last()) + spec_dbg_piece(ds.last())
    }
}

/// The whole emitted formatting fragment for a record named `name` with
/// generic parameters `gs`, bounded parameters `bs`, and these field
/// plans.
pub open spec fn spec_debug_code(
    name: Seq<char>,
    gs: Seq<Seq<char>>,
    bs: Seq<Seq<char>>,
    ds: Seq<DbgFieldView>,
) -> Seq<char> {
    "impl"@ + spec_generic_list(gs) + " std::fmt::Debug for "@ + name + spec_generic_list(gs)
        + spec_where_clause(bs)
        + " {\n    fn fmt(&self, f: &mut std::fmt::Formatter<'_>) -> std::result::Result<(), std::fmt::Error> {\n        f.debug_struct(\""@
        + name + "\")"@ + spec_dbg_pieces(ds) + "\n            .finish()\n    }\n}\n"@
}

/// Settle the rendering plans of all fields, stopping at the first field
/// that reports an error.
pub fn dbg_fields(fields: &Vec<FieldDescriptor>) -> (r: Result<Vec<DbgField>, GenError>)
    ensures
        match r {
            Ok(ds) => spec_dbg_fields(fields@) == Ok::<Seq<DbgFieldView>, GenErrorView>(
                ds@.map_values(|d: DbgField| d@),
            ),
            Err(e) => spec_dbg_fields(fields@) == Err::<Seq<DbgFieldView>, GenErrorView>(e@),
        },
{
    let mut out: Vec<DbgField> = Vec::new();
    proof {
        assert(fields@.take(0) =~= Seq::<FieldDescriptor>::empty());
        assert(out@.map_values(|d: DbgField| d@) =~= Seq::<DbgFieldView>::empty());
    }
    let mut i: usize = 0;
    while i < fields.len()
        invariant
            i <= fields.len(),
            spec_dbg_fields(fields@.take(i as int)) == Ok::<Seq<DbgFieldView>, GenErrorView>(
                out@.map_values(|d: DbgField| d@),
            ),
        decreases fields.len() - i,
    {
        proof {
            assert(fields@.take(i + 1).drop_last() =~= fields@.take(i as int));
            assert(fields@.take(i + 1).last() == fields@[i as int]);
        }
        match format_directive(&fields[i].annotations) {
            Ok(fmt) => {
                let ghost prev = out@.map_values(|d: DbgField| d@);
                out.push(DbgField { name: fields[i].name.clone(), fmt });
                proof {
                    assert(out@.map_values(|d: DbgField| d@) =~= prev.push(
                        out@.last()@,
                    ));
                }
            },
            Err(e) => {
                proof {
                    lemma_dbg_fields_error(fields@, i as int, e@);
                }
                return Err(e);
            },
        }
        i = i + 1;
    }
    proof {
        assert(fields@.take(fields@.len() as int) =~= fields@);
    }
    Ok(out)
}

/// If the fields before position `i` all settle to plans and the field at
/// `i` reports `e`, the whole record reports `e`.
proof fn lemma_dbg_fields_error(fields: Seq<FieldDescriptor>, i: int, e: GenErrorView)
    requires
        0 <= i < fields.len(),
        spec_dbg_fields(fields.take(i)) is Ok,
        spec_dbg_field(fields[i]) == Err::<DbgFieldView, GenErrorView>(e),
    ensures
        spec_dbg_fields(fields) == Err::<Seq<DbgFieldView>, GenErrorView>(e),
    decreases fields.len(),
{
    if fields.len() == i + 1 {
        assert(fields.drop_last() =~= fields.take(i));
        assert(fields.last() == fields[i]);
    } else {
        assert(fields.drop_last().take(i) =~= fields.take(i));
        assert(fields.drop_last()[i] == fields[i]);
        lemma_dbg_fields_error(fields.drop_last(), i, e);
    }
}

/// Append the comma-separated list of items.
fn push_join(out: &mut String, items: &Vec<String>)
    ensures
        final(out)@ == old(out)@ + spec_join(string_views(items@), ", "@),
{
    let ghost vs = string_views(items@);
    proof {
        assert(vs.take(0) =~= Seq::<Seq<char>>::empty());
    }
    let mut i: usize = 0;
    while i < items.len()
        invariant
            i <= items.len(),
            vs == string_views(items@),
            out@ == old(out)@ + spec_join(vs.take(i as int), ", "@),
        decreases items.len() - i,
    {
        proof {
            assert(vs.take(i + 1).drop_last() =~= vs.take(i as int));
            assert(vs.take(i + 1).last() == vs[i as int]);
            assert(vs[i as int] == items@[i as int]@);
        }
        if i > 0 {
            out.append(", ");
        }
        out.append(items[i].as_str());
        i = i + 1;
    }
    proof {
        assert(vs.take(items@.len() as int) =~= vs);
    }
}

/// Append the angle-bracketed generic parameter list, when there is one.
fn push_generic_list(out: &mut String, gs: &Vec<String>)
    ensures
        final(out)@ == old(out)@ + spec_generic_list(string_views(gs@)),
{
    if gs.len() > 0 {
        out.append("<");
        push_join(out, gs);
        out.append(">");
    }
}

/// Append the where clause, when some parameter needs the bound.
fn push_where_clause(out: &mut String, bs: &Vec<String>)
    ensures
        final(out)@ == old(out)@ + spec_where_clause(string_views(bs@)),
{
    let ghost vs = string_views(bs@);
    if bs.len() == 0 {
        return ;
    }
    out.append(" where");
    proof {
        assert(vs.take(0) =~= Seq::<Seq<char>>::empty());
    }
    let mut i: usize = 0;
    while i < bs.len()
        invariant
            i <= bs.len(),
            bs@.len() > 0,
            vs == string_views(bs@),
            out@ == old(out)@ + " where"@ + spec_bound_items(vs.take(i as int)),
        decreases bs.len() - i,
    {
        proof {
            assert(vs.take(i + 1).drop_last() =~= vs.take(i as int));
            assert(vs.take(i + 1).last() == vs[i as int]);
            assert(vs[i as int] == bs@[i as int]@);
        }
        out.append(" ");
        out.append(bs[i].as_str());
        out.append(": std::fmt::Debug,");
        i = i + 1;
    }
    proof {
        assert(vs.take(bs@.len() as int) =~= vs);
    }
}

/// Append one field's rendering call.
fn push_dbg_piece(out: &mut String, d: &DbgField)
    ensures
        final(out)@ == old(out)@ + spec_dbg_piece(d@),
{
    out.append("\n            .field(\"");
    out.append(d.name.as_str());
    match &d.fmt {
        None => {
            out.append("\", &self.");
            out.append(d.name.as_str());
            out.append(")");
        },
        Some(f) => {
            out.append("\", &format_args!(\"");
            out.append(f.as_str());
            out.append("\", &self.");
            out.append(d.name.as_str());
            out.append("))");
        },
    }
    proof {
        assert(out@ =~= old(out)@ + spec_dbg_piece(d@));
    }
}

/// Append the rendering calls of all fields.
fn push_dbg_pieces(out: &mut String, ds: &Vec<DbgField>)
    ensures
        final(out)@ == old(out)@ + spec_dbg_pieces(ds@.map_values(|d: DbgField| d@)),
{
    let ghost vs = ds@.map_values(|d: DbgField| d@);
    proof {
        assert(vs.take(0) =~= Seq::<DbgFieldView>::empty());
    }
    let mut i: usize = 0;
    while i < ds.len()
        invariant
            i <= ds.len(),
            vs == ds@.map_values(|d: DbgField| d@),
            out@ == old(out)@ + spec_dbg_pieces(vs.take(i as int)),
        decreases ds.len() - i,
    {
        proof {
            assert(vs.take(i + 1).drop_last() =~= vs.take(i as int));
            assert(vs.take(i + 1).last() == vs[i as int]);
            assert(vs[i as int] == ds@[i as int]@);
        }
        push_dbg_piece(out, &ds[i]);
        i = i + 1;
    }
    proof {
        assert(vs.take(ds@.len() as int) =~= vs);
    }
}

/// Synthesize the whole formatting fragment for the record `d` describes,
/// or report why generation aborts.
pub fn synthesize_debug(d: &TypeDescriptor) -> (r: Result<String, GenError>)
    ensures
        match r {
            Ok(code) => d.shape matches SchemaShape::NamedRecord(fields) && (spec_dbg_fields(
                fields@,
            ) matches Ok(ds) && code@ == spec_debug_code(
                d.name@,
                string_views(d.generics@),
                string_views(spec_bounded_params(d.generics@, fields@)),
                ds,
            )),
            Err(e) => match d.shape {
                SchemaShape::NamedRecord(fields) => spec_dbg_fields(fields@) == Err::<
                    Seq<DbgFieldView>,
                    GenErrorView,
                >(e@),
                _ => e@ == GenErrorView::UnsupportedShape,
            },
        },
{
    let fields = match &d.shape {
        SchemaShape::NamedRecord(fields) => fields,
        _ => {
            return Err(GenError::UnsupportedShape);
        },
    };
    let ds = match dbg_fields(fields) {
        Ok(ds) => ds,
        Err(e) => {
            return Err(e);
        },
    };
    let bs = infer_bounds(&d.generics, fields);
    let mut out = String::new();
    out.append("impl");
    push_generic_list(&mut out, &d.generics);
    out.append(" std::fmt::Debug for ");
    out.append(d.name.as_str());
    push_generic_list(&mut out, &d.generics);
    push_where_clause(&mut out, &bs);
    out.append(
        " {\n    fn fmt(&self, f: &mut std::fmt::Formatter<'_>) -> std::result::Result<(), std::fmt::Error> {\n        f.debug_struct(\"",
    );
    out.append(d.name.as_str());
    out.append("\")");
    push_dbg_pieces(&mut out, &ds);
    out.append("\n            .finish()\n    }\n}\n");
    proof {
        assert(out@ =~= spec_debug_code(
            d.name@,
            string_views(d.generics@),
            string_views(spec_bounded_params(d.generics@, fields@)),
            ds@.map_values(|x: DbgField| x@),
        ));
    }
    Ok(out)
}

} // verus!

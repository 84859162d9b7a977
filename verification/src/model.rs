//! The schema that one generation invocation consumes, and the errors the
//! generator can report.
//!
//! Every entity here holds plain values only; nothing is mutated after
//! construction.  The caller's schema extractor builds these values from its
//! own representation of the record declaration and hands them over whole.

use vstd::prelude::*;

verus! {

/// One generic argument inside a path segment's angle brackets: a type
/// expression, or something the generator never inspects (a lifetime or a
/// const argument).
pub enum GenArg {
    Ty(Box<TypeExpr>),
    NonType,
}

/// One segment of a path type: an identifier, possibly carrying
/// angle-bracketed generic arguments.
pub struct Segment {
    pub name: String,
    pub args: Vec<GenArg>,
}

/// A structural type expression, exactly as declared in the schema.
///
/// `text` is the declared type's spelling, used verbatim when the type is
/// emitted back into generated code.  Classification is structural and
/// textual: it looks at the declared spelling only, never at a resolved or
/// aliased type, so a local alias of the optional-value wrapper that does
/// not literally spell the wrapper's name is not detected.
pub enum TypeExpr {
    /// A path type `a::b<c>`: its segments, and its full spelling.
    Path { text: String, segments: Vec<Segment> },
    /// Any other shape (reference, tuple, slice, ...), carried by its
    /// spelling alone.
    Other { text: String },
}

impl TypeExpr {
    /// The declared spelling of this type.
    pub open spec fn spec_text(self) -> Seq<char> {
        match self {
            TypeExpr::Path { text, .. } => text@,
            TypeExpr::Other { text } => text@,
        }
    }

    /// The declared spelling of this type, as held by the schema.
    pub fn text(&self) -> (r: &String)
        ensures
            r@ == self.spec_text(),
    {
        match self {
            TypeExpr::Path { text, .. } => text,
            TypeExpr::Other { text } => text,
        }
    }
}

/// The literal on an annotation's right-hand side.
pub enum AnnLit {
    /// A string literal, with its contents.
    Str(String),
    /// A literal of any other kind.
    NonStr,
}

/// The argument expression of a nested-call annotation.
pub enum CallArg {
    /// A single assignment `key = literal` whose left-hand side is a plain
    /// identifier.
    Assign { key: String, value: AnnLit },
    /// Anything else: no assignment, a non-identifier left-hand side, or
    /// several arguments.
    Malformed,
}

/// One raw annotation attached to a field, already shaped by the schema
/// extractor but not yet interpreted.
pub enum Annotation {
    /// `name = literal` directly on the field.
    NameValue { name: String, value: AnnLit },
    /// `name(argument)` — a call wrapping one argument expression.
    Call { name: String, arg: CallArg },
    /// Any other attachment (a bare path, an unparseable body, ...).
    Other,
}

/// One field of the record: its name, its declared type, and its raw
/// annotations in source order.
pub struct FieldDescriptor {
    pub name: String,
    pub ty: TypeExpr,
    pub annotations: Vec<Annotation>,
}

/// The top-level shape of the described type.  Only a plain named-field
/// record is generated for; every other variant is matched once and
/// immediately rejected.
pub enum SchemaShape {
    /// A record with named fields, in declaration order.
    NamedRecord(Vec<FieldDescriptor>),
    /// A record with positional fields.
    PositionalRecord,
    /// A record with no fields at all.
    UnitRecord,
    /// A tagged union of variants.
    TaggedUnion,
    /// An untagged (shared-storage) union.
    UntaggedUnion,
}

/// The schema for one generation invocation: the record's name, its generic
/// parameters in declaration order, and its shape.
pub struct TypeDescriptor {
    pub name: String,
    pub generics: Vec<String>,
    pub shape: SchemaShape,
}

/// A generation-time failure.  Generation aborts for the whole record; no
/// partial output is produced.
#[derive(Debug)]
pub enum GenError {
    /// The schema's top-level shape is not a plain named-field record.
    UnsupportedShape,
    /// An annotation does not match a recognized directive shape; the
    /// message names the expected form.
    DirectiveSyntax { message: String },
    /// A field carries the per-element accessor directive but its declared
    /// type is not the sequence wrapper.
    RepeatedShape { field: String },
}

/// The spec-level value of a [`GenError`].
pub enum GenErrorView {
    UnsupportedShape,
    DirectiveSyntax { message: Seq<char> },
    RepeatedShape { field: Seq<char> },
}

impl View for GenError {
    type V = GenErrorView;

    open spec fn view(&self) -> GenErrorView {
        match self {
            GenError::UnsupportedShape => GenErrorView::UnsupportedShape,
            GenError::DirectiveSyntax { message } => GenErrorView::DirectiveSyntax {
                message: message@,
            },
            GenError::RepeatedShape { field } => GenErrorView::RepeatedShape { field: field@ },
        }
    }
}

} // verus!

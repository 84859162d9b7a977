//! A schema-driven generator of record boilerplate.
//!
//! Given a structured description of a record type (its name, generic
//! parameters, and an ordered list of fields with declared types and
//! per-field annotations), the library synthesizes two independent code
//! fragments: a staged-construction *builder* companion, and a structured
//! *debug formatting* implementation.  The analysis that drives the
//! synthesis — parsing annotations into directives, classifying declared
//! types against the optional-value and sequence wrappers, and inferring
//! the minimal formatting bounds on generic parameters — is specified and
//! verified here, together with the meaning of the operations the emitted
//! builder performs.

pub mod attr;
pub mod bounds;
pub mod builder_gen;
pub mod debug_gen;
pub mod model;
pub mod semantics;
pub mod shape;

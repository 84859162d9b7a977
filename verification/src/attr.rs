//! Parsing a field's raw annotations into directives.
//!
//! Two directive forms are recognized.  A bare assignment `debug =
//! "literal"` directly on the field is the format override.  A nested call
//! `builder(each = "literal")` names the per-element accessor of a repeated
//! field; its inner key must be exactly `each`, and any other inner key, or
//! an argument that is not an `identifier = "literal"` assignment, is a
//! directive syntax error.  Annotations under any other name are ignored.
//! The first annotation of each form decides; later ones are not read.

use vstd::prelude::*;

use crate::model::{AnnLit, Annotation, CallArg, GenError, GenErrorView};

verus! {

/// The outer name of the per-element accessor directive.
pub open spec fn builder_keyword() -> Seq<char> {
    "builder"@
}

/// The reserved inner key of the per-element accessor directive.
pub open spec fn each_key() -> Seq<char> {
    "each"@
}

/// The key of the format override directive.
pub open spec fn format_key() -> Seq<char> {
    "debug"@
}

/// The message of the syntax error reported when a per-element accessor
/// directive's inner key is not the reserved key.
pub open spec fn each_expected_message() -> Seq<char> {
    "expected key `each`"@
}

/// The message of the syntax error reported when a directive's argument is
/// not an `identifier = "literal"` assignment.
pub open spec fn assign_expected_message() -> Seq<char> {
    "expected `identifier = \"literal\"`"@
}

/// What parsing the per-element accessor directive yields on a field with
/// these annotations: the accessor's configured name, nothing, or the
/// message of a directive syntax error.
pub open spec fn spec_each_directive(anns: Seq<Annotation>) -> Result<Option<Seq<char>>, Seq<char>>
    decreases anns.len(),
{
    if anns.len() == 0 {
        Ok(None)
    } else {
        match anns[0] {
            Annotation::Call { name, arg } => {
                if name@ == builder_keyword() {
                    match arg {
                        CallArg::Assign { key, value } => {
                            if key@ != each_key() {
                                Err(each_expected_message())
                            } else {
                                match value {
                                    AnnLit::Str(s) => Ok(Some(s@)),
                                    AnnLit::NonStr => Err(assign_expected_message()),
                                }
                            }
                        },
                        CallArg::Malformed => Err(assign_expected_message()),
                    }
                } else {
                    spec_each_directive(anns.drop_first())
                }
            },
            _ => spec_each_directive(anns.drop_first()),
        }
    }
}

/// What parsing the format override directive yields on a field with these
/// annotations.
pub open spec fn spec_format_directive(anns: Seq<Annotation>) -> Result<
    Option<Seq<char>>,
    Seq<char>,
>
    decreases anns.len(),
{
    if anns.len() == 0 {
        Ok(None)
    } else {
        match anns[0] {
            Annotation::NameValue { name, value } => {
                if name@ == format_key() {
                    match value {
                        AnnLit::Str(s) => Ok(Some(s@)),
                        AnnLit::NonStr => Err(assign_expected_message()),
                    }
                } else {
                    spec_format_directive(anns.drop_first())
                }
            },
            _ => spec_format_directive(anns.drop_first()),
        }
    }
}

/// Parse the per-element accessor directive out of a field's annotations.
pub fn each_directive(anns: &Vec<Annotation>) -> (r: Result<Option<String>, GenError>)
    ensures
        match r {
            Ok(None) => spec_each_directive(anns@) == Ok::<Option<Seq<char>>, Seq<char>>(None),
            Ok(Some(s)) => spec_each_directive(anns@) == Ok::<Option<Seq<char>>, Seq<char>>(
                Some(s@),
            ),
            Err(e) => e@ matches GenErrorView::DirectiveSyntax { message } && spec_each_directive(
                anns@,
            ) == Err::<Option<Seq<char>>, Seq<char>>(message),
        },
{
    let ghost whole = anns@;
    proof {
        assert(whole.skip(0) =~= whole);
    }
    let mut i: usize = 0;
    while i < anns.len()
        invariant
            i <= anns.len(),
            whole == anns@,
            spec_each_directive(whole) == spec_each_directive(whole.skip(i as int)),
        decreases anns.len() - i,
    {
        proof {
            assert(whole.skip(i as int)[0] == anns@[i as int]);
        }
        match &anns[i] {
            Annotation::Call { name, arg } => {
                if *name == String::from_str("builder") {
                    match arg {
                        CallArg::Assign { key, value } => {
                            if !(*key == String::from_str("each")) {
                                return Err(
                                    GenError::DirectiveSyntax {
                                        message: String::from_str("expected key `each`"),
                                    },
                                );
                            } else {
                                match value {
                                    AnnLit::Str(s) => {
                                        return Ok(Some(s.clone()));
                                    },
                                    AnnLit::NonStr => {
                                        return Err(
                                            GenError::DirectiveSyntax {
                                                message: String::from_str(
                                                    "expected `identifier = \"literal\"`",
                                                ),
                                            },
                                        );
                                    },
                                }
                            }
                        },
                        CallArg::Malformed => {
                            return Err(
                                GenError::DirectiveSyntax {
                                    message: String::from_str("expected `identifier = \"literal\"`"),
                                },
                            );
                        },
                    }
                }
            },
            _ => {},
        }
        proof {
            assert(whole.skip(i as int).drop_first() =~= whole.skip(i + 1));
        }
        i = i + 1;
    }
    proof {
        assert(whole.skip(i as int).len() == 0);
    }
    Ok(None)
}

/// Parse the format override directive out of a field's annotations.
pub fn format_directive(anns: &Vec<Annotation>) -> (r: Result<Option<String>, GenError>)
    ensures
        match r {
            Ok(None) => spec_format_directive(anns@) == Ok::<Option<Seq<char>>, Seq<char>>(None),
            Ok(Some(s)) => spec_format_directive(anns@) == Ok::<Option<Seq<char>>, Seq<char>>(
                Some(s@),
            ),
            Err(e) => e@ matches GenErrorView::DirectiveSyntax { message }
                && spec_format_directive(anns@) == Err::<Option<Seq<char>>, Seq<char>>(message),
        },
{
    let ghost whole = anns@;
    proof {
        assert(whole.skip(0) =~= whole);
    }
    let mut i: usize = 0;
    while i < anns.len()
        invariant
            i <= anns.len(),
            whole == anns@,
            spec_format_directive(whole) == spec_format_directive(whole.skip(i as int)),
        decreases anns.len() - i,
    {
        proof {
            assert(whole.skip(i as int)[0] == anns@[i as int]);
        }
        match &anns[i] {
            Annotation::NameValue { name, value } => {
                if *name == String::from_str("debug") {
                    match value {
                        AnnLit::Str(s) => {
                            return Ok(Some(s.clone()));
                        },
                        AnnLit::NonStr => {
                            return Err(
                                GenError::DirectiveSyntax {
                                    message: String::from_str("expected `identifier = \"literal\"`"),
                                },
                            );
                        },
                    }
                }
            },
            _ => {},
        }
        proof {
            assert(whole.skip(i as int).drop_first() =~= whole.skip(i + 1));
        }
        i = i + 1;
    }
    proof {
        assert(whole.skip(i as int).len() == 0);
    }
    Ok(None)
}

} // verus!

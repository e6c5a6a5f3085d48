//! Validation of JSON documents against schemas.
use crate::error::GlycoError;
use crate::outside::{schema_errors, schema_verdict};
use serde_json::Value;
use vstd::prelude::*;
use vstd::string::*;

verus! {

/// Texts with line feeds between them.
pub open spec fn joined_lines(lines: Seq<Seq<char>>) -> Seq<char>
    decreases lines.len(),
{
    if lines.len() == 0 {
        seq![]
    } else if lines.len() == 1 {
        lines[0]
    } else {
        joined_lines(lines.drop_last()) + "\n"@ + lines.last()
    }
}

/// The outcome of a validation, from what was found wrong with the document: it passes if nothing
/// was, and fails with what was found otherwise. It also fails, with some text, where the schema
/// cannot be used.
pub open spec fn is_validation_outcome(
    verdict: Option<Seq<Seq<char>>>,
    outcome: Result<(), GlycoError>,
) -> bool {
    match verdict {
        Some(errors) => if errors.len() == 0 {
            outcome is Ok
        } else {
            outcome matches Err(GlycoError::Validation(text)) && text@ == joined_lines(errors)
        },
        None => outcome matches Err(GlycoError::Validation(_)),
    }
}

/// What a verdict finds wrong with the document; `None` where the schema cannot be used.
pub open spec fn verdict_view(verdict: Result<Vec<String>, String>) -> Option<Seq<Seq<char>>> {
    match verdict {
        Ok(errors) => Some(errors.deep_view()),
        Err(_) => None,
    }
}

fn join_lines(lines: &Vec<String>) -> (text: String)
    ensures
        text@ == joined_lines(lines.deep_view()),
{
    let mut text = "".to_owned();
    let mut i: usize = 0;
    proof {
        reveal_strlit("");
        assert(text@ =~= joined_lines(lines.deep_view().take(0)));
    }
    while i < lines.len()
        invariant
            i <= lines@.len(),
            text@ == joined_lines(lines.deep_view().take(i as int)),
        decreases lines@.len() - i,
    {
        if i > 0 {
            text.append("\n");
        }
        text.append(lines[i].as_str());
        proof {
            let taken = lines.deep_view().take(i + 1);
            assert(taken.drop_last() =~= lines.deep_view().take(i as int));
            assert(taken.last() == lines@[i as int]@);
            assert(text@ =~= joined_lines(taken));
        }
        i = i + 1;
    }
    assert(lines.deep_view().take(lines@.len() as int) =~= lines.deep_view());
    text
}

/// The outcome of a validation, from the verdict on the document: either why the schema cannot be
/// used, or what is wrong with the document.
pub fn validation_outcome(verdict: Result<Vec<String>, String>) -> (outcome: Result<
    (),
    GlycoError,
>)
    ensures
        is_validation_outcome(verdict_view(verdict), outcome),
        verdict matches Err(error) ==> (outcome matches Err(GlycoError::Validation(text)) && text@
            == error@),
{
    match verdict {
        Ok(errors) => {
            if errors.len() == 0 {
                Ok(())
            } else {
                Err(GlycoError::Validation(join_lines(&errors)))
            }
        },
        Err(error) => Err(GlycoError::Validation(error)),
    }
}

/// Validates a document against a schema. Where the schema cannot be used, the text of the failure
/// says why, in words that are left open.
pub fn validate_json(schema: &Value, instance: &Value) -> (outcome: Result<(), GlycoError>)
    ensures
        is_validation_outcome(schema_verdict(*schema, *instance), outcome),
{
    validation_outcome(schema_errors(schema, instance))
}

} // verus!

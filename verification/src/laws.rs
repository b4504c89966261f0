//! What holds of the error adapter, whatever the cause it is given.

use vstd::prelude::*;
use crate::error::{ErrInto, Error};

verus! {

/// Wrapping a result of `serde_json` is a total mapping with one outcome: a
/// success stays the success it was, and a failure becomes the structural
/// failure that holds its cause.
pub proof fn lemma_structural_outcome<T>(
    outcome: Result<T, serde_json::Error>,
    wrapped: Result<T, Error>,
)
    requires
        outcome.converts_to(wrapped),
    ensures
        outcome matches Ok(value) ==> wrapped == Ok::<T, Error>(value),
        outcome matches Err(cause) ==> wrapped == Err::<T, Error>(Error::Json(cause)),
{
}

/// Wrapping a result of `std::io` is a total mapping with one outcome: a
/// success stays the success it was, and a failure becomes the failure of
/// the transport that holds its cause.
pub proof fn lemma_transport_outcome<T>(
    outcome: Result<T, std::io::Error>,
    wrapped: Result<T, Error>,
)
    requires
        outcome.converts_to(wrapped),
    ensures
        outcome matches Ok(value) ==> wrapped == Ok::<T, Error>(value),
        outcome matches Err(cause) ==> wrapped == Err::<T, Error>(Error::IO(cause)),
{
}

/// The rendering written out: a failure of the transport reads `IO error: `
/// and then the message of its cause, a structural failure `Json error: ` and
/// then the message of its cause.
pub proof fn lemma_rendering_reads(error: Error, cause: Seq<char>)
    ensures
        error is IO ==> error.rendering(cause) == "IO error: "@ + cause,
        error is Json ==> error.rendering(cause) == "Json error: "@ + cause,
{
    reveal_strlit("IO error");
    reveal_strlit("Json error");
    reveal_strlit(": ");
    reveal_strlit("IO error: ");
    reveal_strlit("Json error: ");
    assert("IO error"@ + ": "@ =~= "IO error: "@);
    assert("Json error"@ + ": "@ =~= "Json error: "@);
}

/// The rendering loses nothing: two renderings that read the same are of
/// the same kind of failure and of the same message.
pub proof fn lemma_rendering_is_faithful(
    first: Error,
    first_cause: Seq<char>,
    second: Error,
    second_cause: Seq<char>,
)
    requires
        first.rendering(first_cause) == second.rendering(second_cause),
    ensures
        first is IO <==> second is IO,
        first_cause == second_cause,
{
    reveal_strlit("IO error");
    reveal_strlit("Json error");
    reveal_strlit(": ");
    let text = first.rendering(first_cause);
    let first_head = first.kind_text() + ": "@;
    let second_head = second.kind_text() + ": "@;
    assert(text =~= first_head + first_cause);
    assert(text =~= second_head + second_cause);
    assert(text[0] == first_head[0]);
    assert(text[0] == second_head[0]);
    assert(first.kind_text() == second.kind_text());
    assert(first_cause =~= text.subrange(first_head.len() as int, text.len() as int));
    assert(second_cause =~= text.subrange(second_head.len() as int, text.len() as int));
}

} // verus!

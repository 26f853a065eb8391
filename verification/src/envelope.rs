//! The response envelope: the tagged success/failure wrapper returned to
//! the protocol caller.  Success and failure each carry an ordered
//! sequence of text content blocks; here every outcome carries exactly
//! one block.

use vstd::prelude::*;

verus! {

/// The envelope returned for every dispatched request.  The caller
/// distinguishes success from failure only by the tag, never by the
/// text.
pub enum Response {
    /// The operation ran and produced its display-ready text.
    Success(Vec<String>),
    /// The operation could not be resolved, validated or completed; the
    /// blocks carry a human-readable message.
    Failure(Vec<String>),
}

/// The content blocks of a response, as sequences of characters.
pub open spec fn blocks_of(r: Response) -> Seq<Seq<char>> {
    match r {
        Response::Success(blocks) => blocks@.map_values(|b: String| b@),
        Response::Failure(blocks) => blocks@.map_values(|b: String| b@),
    }
}

/// Whether the envelope carries the success tag.
pub open spec fn is_success(r: Response) -> bool {
    r is Success
}

/// An envelope is canonical when it carries exactly one text block.
pub open spec fn one_block(r: Response, text: Seq<char>) -> bool {
    blocks_of(r) =~= seq![text]
}

/// A success envelope holding `text` as its single block.
pub fn success_text(text: String) -> (r: Response)
    ensures
        is_success(r),
        one_block(r, text@),
{
    let mut blocks: Vec<String> = Vec::new();
    let ghost t = text@;
    blocks.push(text);
    proof {
        assert(blocks@.map_values(|b: String| b@) =~= seq![t]);
    }
    Response::Success(blocks)
}

/// A failure envelope holding `text` as its single block.
pub fn failure_text(text: String) -> (r: Response)
    ensures
        !is_success(r),
        one_block(r, text@),
{
    let mut blocks: Vec<String> = Vec::new();
    let ghost t = text@;
    blocks.push(text);
    proof {
        assert(blocks@.map_values(|b: String| b@) =~= seq![t]);
    }
    Response::Failure(blocks)
}

/// Wraps a handler's two-armed outcome: the success arm becomes a
/// success envelope and the error arm a failure envelope, each holding
/// the handler's text as its single block.  Nothing else escapes a
/// handler, so every dispatched request ends in a well-formed envelope.
pub fn wrap_outcome(outcome: Result<String, String>) -> (r: Response)
    ensures
        match outcome {
            Ok(text) => is_success(r) && one_block(r, text@),
            Err(text) => !is_success(r) && one_block(r, text@),
        },
{
    match outcome {
        Ok(text) => success_text(text),
        Err(text) => failure_text(text),
    }
}

} // verus!

//! Parsing a completion reply: the replacement file content is the trimmed
//! text strictly between a fixed begin marker and the first end marker found
//! after it.

use vstd::prelude::*;
use vstd::string::StrSliceExecFns;

use crate::text::{find_from, find_from_spec, lemma_find_from_spec_some, trim_copy, trimmed};

verus! {

/// Why no content could be extracted from a completion reply.
#[derive(Clone, Copy, Debug, PartialEq, Eq, Structural)]
pub enum ExtractError {
    /// The reply holds no begin marker.
    MissingBeginMarker,
    /// The reply holds no end marker after the begin marker.
    MissingEndMarker,
}

/// The tag that opens the replacement content in a completion reply.
pub open spec fn begin_marker() -> Seq<char> {
    "<CHANGED_FILE_CONTENTS>"@
}

/// The tag that closes the replacement content in a completion reply.
pub open spec fn end_marker() -> Seq<char> {
    "</CHANGED_FILE_CONTENTS>"@
}

/// The begin marker as a string.
pub fn begin_marker_str() -> (r: &'static str)
    ensures
        r@ == begin_marker(),
{
    "<CHANGED_FILE_CONTENTS>"
}

/// The end marker as a string.
pub fn end_marker_str() -> (r: &'static str)
    ensures
        r@ == end_marker(),
{
    "</CHANGED_FILE_CONTENTS>"
}

/// What extraction returns on a reply `out`: the trimmed text between the
/// first begin marker and the first end marker at or after the begin marker's
/// end, or the error naming the marker that is absent.
pub open spec fn extract_spec(out: Seq<char>) -> Result<Seq<char>, ExtractError> {
    match find_from_spec(out, begin_marker(), 0) {
        Option::None => Result::Err(ExtractError::MissingBeginMarker),
        Option::Some(b) => {
            let cs = b + begin_marker().len();
            match find_from_spec(out, end_marker(), cs) {
                Option::None => Result::Err(ExtractError::MissingEndMarker),
                Option::Some(e) => Result::Ok(trimmed(out.subrange(cs, e))),
            }
        },
    }
}

/// Pulls the replacement content out of the completion reply `output`.
///
/// The end marker is searched for only at or after the end of the begin
/// marker, so a stray end marker earlier in the reply is ignored and a reply
/// whose only end marker precedes the begin marker is rejected.
pub fn extract_changed_contents(output: &str) -> (r: Result<String, ExtractError>)
    ensures
        r is Ok <==> extract_spec(output@) is Ok,
        r matches Ok(c) ==> extract_spec(output@) matches Ok(t) && c@ == t,
        r matches Err(e) ==> extract_spec(output@) matches Err(t) && e == t,
{
    let begin = begin_marker_str();
    match find_from(output, begin, 0) {
        Option::None => Result::Err(ExtractError::MissingBeginMarker),
        Option::Some(b) => {
            let n_total = output.unicode_len();
            let m_begin = begin.unicode_len();
            proof {
                lemma_find_from_spec_some(output@, begin_marker(), 0, b as int);
                assert(b + m_begin <= n_total);
            }
            let content_start = b + m_begin;
            match find_from(output, end_marker_str(), content_start) {
                Option::None => Result::Err(ExtractError::MissingEndMarker),
                Option::Some(e) => {
                    proof {
                        lemma_find_from_spec_some(
                            output@,
                            end_marker(),
                            content_start as int,
                            e as int,
                        );
                    }
                    let inner = output.substring_char(content_start, e);
                    Result::Ok(trim_copy(inner))
                },
            }
        },
    }
}

} // verus!

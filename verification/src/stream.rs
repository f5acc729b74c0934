//! The decoder for the frames of a streamed chat completion.
//!
//! A frame is the marker `data:` followed either by the sentinel `[DONE]`,
//! which ends the stream, or by the JSON text of one chunk. White space
//! around the frame and around its content does not count. Each frame is
//! decoded by itself: the decoder keeps nothing between frames.

use crate::dtypes::{ChatCompletionChunk, ChunkModel};
use crate::envelope::{payload_decoded, read_payload};
use crate::error::{DecodeError, DecodeErrorModel};
use crate::text::{strip_prefix, trimmed};
use vstd::prelude::*;

verus! {

/// The marker with which every data frame starts.
pub open spec fn marker() -> Seq<char> {
    seq!['d', 'a', 't', 'a', ':']
}

/// The content of the frame that ends a stream.
pub open spec fn sentinel() -> Seq<char> {
    seq!['[', 'D', 'O', 'N', 'E', ']']
}

/// Whether a frame, without the white space around it, starts with the marker.
pub open spec fn is_data_frame(raw: Seq<char>) -> bool {
    marker().is_prefix_of(trimmed(raw))
}

/// What stands behind the marker of a data frame, without the white space
/// around it.
pub open spec fn frame_content(raw: Seq<char>) -> Seq<char>
    recommends
        is_data_frame(raw),
{
    trimmed(trimmed(raw).skip(marker().len() as int))
}

/// What a frame holds: `Ok(None)` for the frame that ends the stream, the
/// chunk of a frame that carries one, and otherwise why the frame is refused.
pub open spec fn frame_decoded(raw: Seq<char>) -> Result<Option<ChunkModel>, DecodeErrorModel> {
    if !is_data_frame(raw) {
        Err(DecodeErrorModel::MissingPrefix)
    } else if frame_content(raw) == sentinel() {
        Ok(None)
    } else {
        match payload_decoded::<ChatCompletionChunk>(frame_content(raw)) {
            Ok(chunk) => Ok(Some(chunk)),
            Err(diagnostic) => Err(DecodeErrorModel::InvalidPayload(diagnostic)),
        }
    }
}

/// The model of what decoding a frame returned.
pub open spec fn frame_outcome(r: Result<Option<ChatCompletionChunk>, DecodeError>) -> Result<
    Option<ChunkModel>,
    DecodeErrorModel,
> {
    match r {
        Ok(Some(chunk)) => Ok(Some(chunk@)),
        Ok(None) => Ok(None),
        Err(error) => Err(error@),
    }
}

impl ChatCompletionChunk {
    /// Decodes one frame of a streamed completion.
    ///
    /// Returns `Ok(None)` for the frame that ends the stream and
    /// `Ok(Some(chunk))` for a frame that carries a chunk. A frame without
    /// the marker is refused with `MissingPrefix`, whatever else it holds; a
    /// frame with the marker whose content is neither the sentinel nor a
    /// chunk is refused with `InvalidPayload`.
    pub fn from_chunk(chunk: &str) -> (r: Result<Option<ChatCompletionChunk>, DecodeError>)
        ensures
            frame_outcome(r) == frame_decoded(chunk@),
            !is_data_frame(chunk@) ==> r == Err::<Option<ChatCompletionChunk>, DecodeError>(
                DecodeError::MissingPrefix,
            ),
    {
        proof {
            reveal_strlit("data:");
            reveal_strlit("[DONE]");
            assert("data:"@ =~= marker());
            assert("[DONE]"@ =~= sentinel());
        }
        let frame = chunk.trim();
        let rest = match strip_prefix(frame, "data:") {
            Some(rest) => rest,
            None => {
                return Err(DecodeError::MissingPrefix);
            },
        };
        assert(frame@.skip(marker().len() as int) =~= rest@);
        let content = rest.trim();
        if content.eq("[DONE]") {
            return Ok(None);
        }
        match read_payload::<ChatCompletionChunk>(content) {
            Ok(chunk) => Ok(Some(chunk)),
            Err(diagnostic) => Err(DecodeError::InvalidPayload(diagnostic)),
        }
    }
}

/// Decoding is a function of the frame: whatever two calls on the same frame
/// return, the two results hold the same chunk, or the same refusal.
pub proof fn lemma_decoding_repeats(
    frame: Seq<char>,
    first: Result<Option<ChatCompletionChunk>, DecodeError>,
    second: Result<Option<ChatCompletionChunk>, DecodeError>,
)
    requires
        frame_outcome(first) == frame_decoded(frame),
        frame_outcome(second) == frame_decoded(frame),
    ensures
        frame_outcome(first) == frame_outcome(second),
        first matches Ok(Some(a)) ==> second matches Ok(Some(b)) && a@ == b@,
{
}

/// A frame that does not start with the marker is refused for that, and for
/// nothing else.
pub proof fn lemma_unmarked_frame_is_refused(frame: Seq<char>)
    requires
        !is_data_frame(frame),
    ensures
        frame_decoded(frame) == Err::<Option<ChunkModel>, DecodeErrorModel>(
            DecodeErrorModel::MissingPrefix,
        ),
{
}

} // verus!

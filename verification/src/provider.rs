//! The provider contract: the capability set each backend mapping implements,
//! plus the identifier and timestamp helpers all providers share.

use vstd::prelude::*;
use vstd::string::StringExecFns;

use crate::error::AppError;
use crate::json::{JsonValue, JsonView};
use crate::openai::{ChatCompletionRequest, ChatCompletionRequestView, ChatCompletionResponse,
    ChatCompletionResponseView};

pub mod lightspeed_core;
pub mod rhel_lightspeed;

verus! {

/// A lowercase hexadecimal digit.
pub open spec fn is_lower_hex_digit(c: char) -> bool {
    ('0' <= c && c <= '9') || ('a' <= c && c <= 'f')
}

/// The hyphenated rendering of a UUID: 36 characters, lowercase hex digits
/// with hyphens at positions 8, 13, 18 and 23.
pub open spec fn is_uuid_hyphenated(s: Seq<char>) -> bool {
    &&& s.len() == 36
    &&& forall|i: int|
        0 <= i < 36 ==> (if i == 8 || i == 13 || i == 18 || i == 23 {
            s[i] == '-'
        } else {
            is_lower_hex_digit(#[trigger] s[i])
        })
}

/// An identifier this gateway mints for a response or a chunk sequence.
pub open spec fn is_response_id(s: Seq<char>) -> bool {
    exists|u: Seq<char>| is_uuid_hyphenated(u) && s == "chatcmpl-"@ + u
}

/// Generates a fresh random identifier in hyphenated UUID form.
///
/// Relies on `uuid::Uuid::new_v4` for the randomness and on the `Display`
/// rendering of `uuid::Uuid`, which writes 36 lowercase-hex characters with
/// hyphens at positions 8, 13, 18 and 23. The value is random: nothing is
/// assumed beyond its shape.
#[verifier::external_body]
pub fn uuid_simple() -> (r: String)
    ensures
        is_uuid_hyphenated(r@),
{
    uuid::Uuid::new_v4().to_string()
}

/// Reads the wall clock as whole seconds since the Unix epoch.
///
/// Relies on `std::time::SystemTime::now` and
/// `SystemTime::duration_since(UNIX_EPOCH)`; a clock set before the epoch is
/// reported as zero. The value depends on the machine's clock: nothing is
/// assumed about it.
#[verifier::external_body]
fn unix_seconds_now() -> (r: u64) {
    std::time::SystemTime::now()
        .duration_since(std::time::UNIX_EPOCH)
        .map(|d| d.as_secs())
        .unwrap_or(0)
}

/// The current Unix timestamp in whole seconds, clamped into a signed value.
pub fn current_timestamp() -> (r: i64)
    ensures
        0 <= r,
{
    let seconds = unix_seconds_now();
    if seconds > i64::MAX as u64 {
        i64::MAX
    } else {
        seconds as i64
    }
}

/// Mints the identifier for one response or chunk sequence.
pub fn new_response_id() -> (r: String)
    ensures
        is_response_id(r@),
{
    let mut id = "chatcmpl-".to_owned();
    let tail = uuid_simple();
    id.append(tail.as_str());
    proof {
        assert(is_uuid_hyphenated(tail@) && id@ == "chatcmpl-"@ + tail@);
    }
    id
}

/// The capability set of one backend mapping. Each implementation fixes the
/// three spec functions, and the executable methods are proved against them.
pub trait Provider {
    /// The payload this variant sends downstream for a given request.
    spec fn spec_request_payload(&self, request: ChatCompletionRequestView) -> JsonView;

    /// The response this variant builds from a backend body, echoing `model`,
    /// when the gateway mints `id` and stamps `created`; `None` when the body
    /// lacks what the variant requires.
    spec fn spec_response(
        &self,
        body: JsonView,
        model: Seq<char>,
        id: Seq<char>,
        created: i64,
    ) -> Option<ChatCompletionResponseView>;

    /// The text this variant extracts for streaming; `None` when the body
    /// lacks it.
    spec fn spec_streaming_text(&self, body: JsonView) -> Option<Seq<char>>;

    /// Maps an inbound request to the backend payload. Total: every request
    /// yields a payload.
    fn transform_request(&self, request: ChatCompletionRequest) -> (v: JsonValue)
        ensures
            v@ == self.spec_request_payload(request@),
    ;

    /// Maps a backend body to a wire response, echoing `model`. Fails with a
    /// transform error exactly when the body lacks what this variant
    /// requires, whatever identifier and timestamp would have been chosen.
    fn transform_response(&self, backend_response: &JsonValue, model: &str) -> (r: Result<
        ChatCompletionResponse,
        AppError,
    >)
        ensures
            match r {
                Ok(resp) => exists|id: Seq<char>, created: i64|
                    is_response_id(id) && 0 <= created && self.spec_response(
                        backend_response@,
                        model@,
                        id,
                        created,
                    ) == Some(resp@),
                Err(e) => {
                    &&& e matches AppError::TransformError(_)
                    &&& forall|id: Seq<char>, created: i64|
                        self.spec_response(backend_response@, model@, id, created) is None
                },
            },
    ;

    /// Extracts the text to stream from a backend body. Fails with a
    /// transform error exactly when the body lacks it.
    fn extract_streaming_text(&self, backend_response: &JsonValue) -> (r: Result<
        String,
        AppError,
    >)
        ensures
            match r {
                Ok(s) => self.spec_streaming_text(backend_response@) == Some(s@),
                Err(e) => {
                    &&& e matches AppError::TransformError(_)
                    &&& self.spec_streaming_text(backend_response@) is None
                },
            },
    ;
}

} // verus!

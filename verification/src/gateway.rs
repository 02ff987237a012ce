//! Gateway-layer decisions: provider selection, admission of backend call
//! outcomes, the error-to-status mapping's companions, the static model
//! listing and the liveness payload, and the startup configuration checks.
//!
//! The network itself — the shared authenticated client, routing, timers —
//! lives outside this library; every outcome it can observe is decided here.

use vstd::prelude::*;
use vstd::string::StringExecFns;

use crate::error::AppError;
use crate::json::{JsonValue, JsonView};
use crate::openai::{ChatCompletionRequest, ChatCompletionRequestView, ChatCompletionResponse,
    ChatCompletionResponseView, Model, ModelsResponse};
use crate::provider::{Provider};
use crate::provider::lightspeed_core::LightspeedCoreProvider;
use crate::provider::rhel_lightspeed::RhelLightspeedProvider;
use crate::text::{spec_u64_decimal, u64_to_decimal};

verus! {

/// The provider selected by configuration.
#[derive(Debug)]
pub enum SelectedProvider {
    RhelLightspeed(RhelLightspeedProvider),
    LightspeedCore(LightspeedCoreProvider),
}

impl Provider for SelectedProvider {
    open spec fn spec_request_payload(&self, request: ChatCompletionRequestView) -> JsonView {
        match self {
            SelectedProvider::RhelLightspeed(p) => p.spec_request_payload(request),
            SelectedProvider::LightspeedCore(p) => p.spec_request_payload(request),
        }
    }

    open spec fn spec_response(
        &self,
        body: JsonView,
        model: Seq<char>,
        id: Seq<char>,
        created: i64,
    ) -> Option<ChatCompletionResponseView> {
        match self {
            SelectedProvider::RhelLightspeed(p) => p.spec_response(body, model, id, created),
            SelectedProvider::LightspeedCore(p) => p.spec_response(body, model, id, created),
        }
    }

    open spec fn spec_streaming_text(&self, body: JsonView) -> Option<Seq<char>> {
        match self {
            SelectedProvider::RhelLightspeed(p) => p.spec_streaming_text(body),
            SelectedProvider::LightspeedCore(p) => p.spec_streaming_text(body),
        }
    }

    fn transform_request(&self, request: ChatCompletionRequest) -> (v: JsonValue) {
        match self {
            SelectedProvider::RhelLightspeed(p) => p.transform_request(request),
            SelectedProvider::LightspeedCore(p) => p.transform_request(request),
        }
    }

    fn transform_response(&self, backend_response: &JsonValue, model: &str) -> (r: Result<
        ChatCompletionResponse,
        AppError,
    >) {
        match self {
            SelectedProvider::RhelLightspeed(p) => {
                let r = p.transform_response(backend_response, model);
                proof {
                    match &r {
                        Ok(resp) => {
                            let (id, created) = choose|id: Seq<char>, created: i64|
                                crate::provider::is_response_id(id) && 0 <= created
                                    && p.spec_response(backend_response@, model@, id, created)
                                    == Some(resp@);
                            assert(self.spec_response(backend_response@, model@, id, created)
                                == Some(resp@));
                        },
                        Err(_) => {
                            assert forall|id: Seq<char>, created: i64|
                                self.spec_response(
                                    backend_response@,
                                    model@,
                                    id,
                                    created,
                                ) is None by {
                                assert(p.spec_response(
                                    backend_response@,
                                    model@,
                                    id,
                                    created,
                                ) is None);
                            }
                        },
                    }
                }
                r
            },
            SelectedProvider::LightspeedCore(p) => {
                let r = p.transform_response(backend_response, model);
                proof {
                    match &r {
                        Ok(resp) => {
                            let (id, created) = choose|id: Seq<char>, created: i64|
                                crate::provider::is_response_id(id) && 0 <= created
                                    && p.spec_response(backend_response@, model@, id, created)
                                    == Some(resp@);
                            assert(self.spec_response(backend_response@, model@, id, created)
                                == Some(resp@));
                        },
                        Err(_) => {
                            assert forall|id: Seq<char>, created: i64|
                                self.spec_response(
                                    backend_response@,
                                    model@,
                                    id,
                                    created,
                                ) is None by {
                                assert(p.spec_response(
                                    backend_response@,
                                    model@,
                                    id,
                                    created,
                                ) is None);
                            }
                        },
                    }
                }
                r
            },
        }
    }

    fn extract_streaming_text(&self, backend_response: &JsonValue) -> (r: Result<
        String,
        AppError,
    >) {
        match self {
            SelectedProvider::RhelLightspeed(p) => p.extract_streaming_text(backend_response),
            SelectedProvider::LightspeedCore(p) => p.extract_streaming_text(backend_response),
        }
    }
}

/// Selects the provider named by configuration; the two recognized names and
/// nothing else are accepted.
pub fn create_provider(name: &str) -> (r: Result<SelectedProvider, String>)
    ensures
        name@ == "rhel_lightspeed"@ ==> (r matches Ok(p) && p is RhelLightspeed),
        name@ == "lightspeed_core"@ ==> (r matches Ok(p) && p is LightspeedCore),
        name@ != "rhel_lightspeed"@ && name@ != "lightspeed_core"@ ==> (r matches Err(m) && m@
            == "Unknown provider: "@ + name@
            + ". Valid options are: rhel_lightspeed, lightspeed_core"@),
{
    proof {
        reveal_strlit("rhel_lightspeed");
        reveal_strlit("lightspeed_core");
        assert(("rhel_lightspeed"@)[0] == 'r' && ("lightspeed_core"@)[0] == 'l');
    }
    let name_owned: String = name.to_owned();
    if name_owned == "rhel_lightspeed".to_owned() {
        Ok(SelectedProvider::RhelLightspeed(RhelLightspeedProvider::new()))
    } else if name_owned == "lightspeed_core".to_owned() {
        Ok(SelectedProvider::LightspeedCore(LightspeedCoreProvider::new()))
    } else {
        let mut message: String = "Unknown provider: ".to_owned();
        message.append(name);
        message.append(". Valid options are: rhel_lightspeed, lightspeed_core");
        Err(message)
    }
}

/// Whether an HTTP status reports success.
pub open spec fn spec_status_is_success(status: u16) -> bool {
    200 <= status < 300
}

/// Admits a backend status: success statuses pass, every other status
/// becomes a backend error naming the status (the backend body itself is
/// logged, never forwarded).
pub fn check_backend_status(status: u16) -> (r: Result<(), AppError>)
    ensures
        r is Ok <==> spec_status_is_success(status),
        !spec_status_is_success(status) ==> (r matches Err(e) && (e matches
            AppError::BackendError(m) && m@ == "Backend returned status "@ + spec_u64_decimal(
            status as int,
        ))),
{
    if 200 <= status && status < 300 {
        Ok(())
    } else {
        let mut message: String = "Backend returned status ".to_owned();
        let digits = u64_to_decimal(status as u64);
        message.append(digits.as_str());
        Err(AppError::BackendError(message))
    }
}

/// What one outbound backend call came to, as the transport reports it.
#[derive(Debug)]
pub enum SendOutcome {
    /// The call did not finish within the configured budget.
    TimedOut,
    /// The call itself failed; the transport's diagnostic is carried.
    Failed(String),
    /// The backend answered with this status.
    Responded(u16),
}

/// Decides the fate of one outbound call: a timeout becomes the timeout
/// error, a transport failure becomes a backend error carrying the
/// diagnostic, and an answer is admitted by its status.
pub fn classify_send_outcome(outcome: SendOutcome) -> (r: Result<u16, AppError>)
    ensures
        match outcome {
            SendOutcome::TimedOut => r matches Err(e) && e is TimeoutError,
            SendOutcome::Failed(d) => r matches Err(e) && (e matches AppError::BackendError(m)
                && m@ == d@),
            SendOutcome::Responded(status) => {
                if spec_status_is_success(status) {
                    r matches Ok(s) && s == status
                } else {
                    r matches Err(e) && (e matches AppError::BackendError(m) && m@
                        == "Backend returned status "@ + spec_u64_decimal(status as int))
                }
            },
        },
{
    match outcome {
        SendOutcome::TimedOut => Err(AppError::TimeoutError),
        SendOutcome::Failed(detail) => Err(AppError::BackendError(detail)),
        SendOutcome::Responded(status) => {
            match check_backend_status(status) {
                Ok(_) => Ok(status),
                Err(e) => Err(e),
            }
        },
    }
}

/// The static model listing served to callers: one entry, not derived from
/// backend capability discovery.
pub fn models_response() -> (r: ModelsResponse)
    ensures
        r@.object == "list"@,
        r@.data.len() == 1,
        r@.data[0].id == "default-model"@,
        r@.data[0].object == "model"@,
        r@.data[0].created == 1234567890,
        r@.data[0].owned_by == "clad-redux"@,
{
    let mut data: Vec<Model> = Vec::new();
    data.push(
        Model {
            id: "default-model".to_owned(),
            object: "model".to_owned(),
            created: 1234567890,
            owned_by: "clad-redux".to_owned(),
        },
    );
    proof {
        assert(data.deep_view() =~= seq![data@[0]@]);
    }
    ModelsResponse { object: "list".to_owned(), data }
}

/// The constant liveness payload, stamped with the given timestamp.
pub open spec fn spec_health_body(timestamp: i64) -> JsonView {
    JsonView::Object(
        seq![
            ("status"@, JsonView::Text("healthy"@)),
            ("service"@, JsonView::Text("clad-proxy"@)),
            (
                "timestamp"@,
                if 0 <= timestamp {
                    JsonView::UInt(timestamp as u64)
                } else {
                    JsonView::Int(timestamp)
                },
            ),
        ],
    )
}

/// Builds the liveness payload.
pub fn health_body(timestamp: i64) -> (v: JsonValue)
    ensures
        v@ == spec_health_body(timestamp),
{
    let stamp = if timestamp >= 0 {
        JsonValue::UInt(timestamp as u64)
    } else {
        JsonValue::Int(timestamp)
    };
    let mut entries: Vec<(String, JsonValue)> = Vec::new();
    proof {
        assert(crate::json::view_entries(entries@) =~= Seq::<(Seq<char>, JsonView)>::empty());
    }
    crate::json::obj_push(&mut entries, "status", JsonValue::Text("healthy".to_owned()));
    crate::json::obj_push(&mut entries, "service", JsonValue::Text("clad-proxy".to_owned()));
    crate::json::obj_push(&mut entries, "timestamp", stamp);
    proof {
        assert(crate::json::view_entries(entries@) =~= spec_health_body(timestamp)->Object_0);
    }
    JsonValue::Object(entries)
}

/// Whether the cross-origin policy is workable: an empty allow-list is a
/// startup-fatal misconfiguration, never a silent allow-all.
pub fn cors_origins_usable(parsed_origin_count: usize) -> (r: bool)
    ensures
        r == (parsed_origin_count > 0),
{
    parsed_origin_count > 0
}

/// Whether the admission-control parameters can configure the shared token
/// bucket: both the sustained rate and the burst must be non-zero.
pub fn rate_limit_params_usable(per_second: u64, burst: u32) -> (r: bool)
    ensures
        r == (per_second > 0 && burst > 0),
{
    per_second > 0 && burst > 0
}

/// Whether an identity file's permission bits expose it beyond its owner
/// (group or world readable, writable or executable).
pub fn cert_permissions_too_open(mode: u32) -> (r: bool)
    ensures
        r == ((mode & 0o077) != 0),
{
    (mode & 0o077) != 0
}

} // verus!

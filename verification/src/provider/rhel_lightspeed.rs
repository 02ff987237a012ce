//! The field-remapping provider: the backend speaks a question/answer schema
//! unrelated to chat-completion semantics.
//!
//! Requests are reduced to the content of the most recent `user` message,
//! sent as a single `question` field; earlier turns are deliberately not
//! forwarded. Replies must expose a `data.text` string, from which a full
//! wire response is rebuilt.

use vstd::prelude::*;
use vstd::string::StringExecFns;
use vstd::utf8::encode_utf8;

use crate::error::AppError;
use crate::json::{json_get, view_entries, JsonValue, JsonView};
use crate::openai::{ChatCompletionRequest, ChatCompletionRequestView, ChatCompletionResponse,
    ChatCompletionResponseView, Choice, ChoiceView, Message, MessageView, Usage};
use crate::provider::{current_timestamp, new_response_id, Provider};

verus! {

/// A provider that maps chat requests onto a single-question payload and
/// rebuilds wire responses from the backend's `data.text` reply.
#[derive(Debug)]
pub struct RhelLightspeedProvider;

impl RhelLightspeedProvider {
    pub fn new() -> (p: RhelLightspeedProvider)
        ensures
            p == (RhelLightspeedProvider {  }),
    {
        RhelLightspeedProvider {  }
    }
}

/// The content of the last message whose role is `user`, or the empty string
/// when no such message exists.
pub open spec fn spec_last_user_content(messages: Seq<MessageView>) -> Seq<char>
    decreases messages.len(),
{
    if messages.len() == 0 {
        Seq::empty()
    } else if messages.last().role == "user"@ {
        messages.last().content
    } else {
        spec_last_user_content(messages.drop_last())
    }
}

/// The payload this variant sends downstream: only the extracted question.
pub open spec fn spec_question_payload(request: ChatCompletionRequestView) -> JsonView {
    JsonView::Object(
        seq![("question"@, JsonView::Text(spec_last_user_content(request.messages)))],
    )
}

/// The `data.text` string of a backend body, when both levels are present.
pub open spec fn spec_data_text(body: JsonView) -> Option<Seq<char>> {
    match json_get(body, "data"@) {
        Some(data) => match json_get(data, "text"@) {
            Some(JsonView::Text(t)) => Some(t),
            _ => None,
        },
        None => None,
    }
}

/// One count taken verbatim from a backend usage object; zero when absent or
/// not a non-negative integer, truncated to 32 bits as on the wire.
pub open spec fn spec_usage_count(usage: JsonView, key: Seq<char>) -> u32 {
    match json_get(usage, key) {
        Some(JsonView::UInt(n)) => n as u32,
        _ => 0,
    }
}

/// The token accounting for a reply: the backend's counts when it supplies a
/// `usage` object, otherwise a crude estimate of one token per four bytes of
/// the reply text, with a zero prompt count.
pub open spec fn spec_remap_usage(body: JsonView, text: Seq<char>) -> Usage {
    match json_get(body, "usage"@) {
        Some(usage) => Usage {
            prompt_tokens: spec_usage_count(usage, "prompt_tokens"@),
            completion_tokens: spec_usage_count(usage, "completion_tokens"@),
            total_tokens: spec_usage_count(usage, "total_tokens"@),
        },
        None => {
            let completion = (((encode_utf8(text).len() as usize) / 4) as u32);
            Usage { prompt_tokens: 0, completion_tokens: completion, total_tokens: completion }
        },
    }
}

/// The full response this variant builds from a backend body: the `data.text`
/// reply as the sole assistant choice, finished with "stop"; `None` when the
/// body lacks `data.text`.
pub open spec fn spec_remap_response(
    body: JsonView,
    model: Seq<char>,
    id: Seq<char>,
    created: i64,
) -> Option<ChatCompletionResponseView> {
    match spec_data_text(body) {
        Some(text) => Some(
            ChatCompletionResponseView {
                id: id,
                object: "chat.completion"@,
                created: created,
                model: model,
                choices: seq![
                    ChoiceView {
                        index: 0,
                        message: MessageView {
                            role: "assistant"@,
                            content: text,
                            name: None,
                            tool_calls: None,
                        },
                        finish_reason: Some("stop"@),
                    },
                ],
                usage: spec_remap_usage(body, text),
            },
        ),
        None => None,
    }
}

/// Appending a message whose role is not `user` leaves the extracted
/// question unchanged, however many such messages precede or follow.
pub proof fn lemma_question_ignores_non_user(messages: Seq<MessageView>, m: MessageView)
    requires
        m.role != "user"@,
    ensures
        spec_last_user_content(messages.push(m)) == spec_last_user_content(messages),
{
    assert(messages.push(m).last() == m);
    assert(messages.push(m).drop_last() =~= messages);
}

/// Appending a message whose role is `user` makes its content the extracted
/// question, whatever came before.
pub proof fn lemma_question_takes_last_user(messages: Seq<MessageView>, m: MessageView)
    requires
        m.role == "user"@,
    ensures
        spec_last_user_content(messages.push(m)) == m.content,
{
    assert(messages.push(m).last() == m);
}

/// Response transformation and streaming extraction of this variant agree:
/// both fail — with a transform error, never a default success — on exactly
/// the bodies that lack a `data.text` string, whatever identifier and
/// timestamp would have been chosen.
pub proof fn lemma_remap_failure_agreement(
    body: JsonView,
    model: Seq<char>,
    id: Seq<char>,
    created: i64,
)
    ensures
        spec_remap_response(body, model, id, created) is None <==> spec_data_text(body) is None,
{
}

/// Extracts the content of the most recent `user` message, scanning from the
/// end; the empty string when the conversation holds no user message.
pub fn last_user_content(messages: &Vec<Message>) -> (s: String)
    ensures
        s@ == spec_last_user_content(messages.deep_view()),
{
    let user_role: String = "user".to_owned();
    let mut i = messages.len();
    proof {
        assert(messages.deep_view().take(i as int) =~= messages.deep_view());
    }
    while i > 0
        invariant
            i <= messages.len(),
            user_role@ == "user"@,
            spec_last_user_content(messages.deep_view()) == spec_last_user_content(
                messages.deep_view().take(i as int),
            ),
        decreases i,
    {
        i = i - 1;
        let m = &messages[i];
        proof {
            assert(messages.deep_view().take(i as int + 1).last() == messages.deep_view()[i as int]);
            assert(messages.deep_view()[i as int] == messages@[i as int].deep_view());
            assert(messages.deep_view().take(i as int + 1).drop_last() =~= messages.deep_view()
                .take(i as int));
        }
        if m.role == user_role {
            return m.content.clone();
        }
    }
    proof {
        assert(messages.deep_view().take(0) =~= Seq::<MessageView>::empty());
    }
    String::new()
}

fn usage_count(usage: &JsonValue, key: &str) -> (c: u32)
    ensures
        c == spec_usage_count(usage@, key@),
{
    match usage.get(key) {
        Some(v) => match v.as_u64() {
            Some(n) => #[verifier::truncate] (n as u32),
            None => 0,
        },
        None => 0,
    }
}

fn remap_usage(body: &JsonValue, text: &str) -> (u: Usage)
    ensures
        u == spec_remap_usage(body@, text@),
{
    match body.get("usage") {
        Some(usage) => {
            let prompt = usage_count(usage, "prompt_tokens");
            let completion = usage_count(usage, "completion_tokens");
            let total = usage_count(usage, "total_tokens");
            Usage { prompt_tokens: prompt, completion_tokens: completion, total_tokens: total }
        },
        None => {
            let completion: u32 = #[verifier::truncate] ((text.len() / 4) as u32);
            Usage { prompt_tokens: 0, completion_tokens: completion, total_tokens: completion }
        },
    }
}

impl Provider for RhelLightspeedProvider {
    open spec fn spec_request_payload(&self, request: ChatCompletionRequestView) -> JsonView {
        spec_question_payload(request)
    }

    open spec fn spec_response(
        &self,
        body: JsonView,
        model: Seq<char>,
        id: Seq<char>,
        created: i64,
    ) -> Option<ChatCompletionResponseView> {
        spec_remap_response(body, model, id, created)
    }

    open spec fn spec_streaming_text(&self, body: JsonView) -> Option<Seq<char>> {
        spec_data_text(body)
    }

    fn transform_request(&self, request: ChatCompletionRequest) -> (v: JsonValue) {
        let question = last_user_content(&request.messages);
        let mut entries: Vec<(String, JsonValue)> = Vec::new();
        proof {
            assert(view_entries(entries@) =~= Seq::<(Seq<char>, JsonView)>::empty());
        }
        crate::json::obj_push(&mut entries, "question", JsonValue::Text(question));
        proof {
            assert(view_entries(entries@) =~= seq![
                ("question"@, JsonView::Text(spec_last_user_content(request@.messages))),
            ]);
        }
        JsonValue::Object(entries)
    }

    fn transform_response(&self, backend_response: &JsonValue, model: &str) -> (r: Result<
        ChatCompletionResponse,
        AppError,
    >) {
        let data = backend_response.get("data");
        let text_value = match data {
            Some(d) => d.get("text"),
            None => None,
        };
        let text = match text_value {
            Some(t) => t.as_str(),
            None => None,
        };
        match text {
            Some(reply) => {
                let content: String = reply.clone();
                let usage = remap_usage(backend_response, content.as_str());
                let id = new_response_id();
                let created = current_timestamp();
                let ghost id_view = id@;
                let message = Message {
                    role: "assistant".to_owned(),
                    content,
                    name: None,
                    tool_calls: None,
                };
                let choice = Choice {
                    index: 0,
                    message,
                    finish_reason: Some("stop".to_owned()),
                };
                let mut choices: Vec<Choice> = Vec::new();
                choices.push(choice);
                let response = ChatCompletionResponse {
                    id,
                    object: "chat.completion".to_owned(),
                    created,
                    model: model.to_owned(),
                    choices,
                    usage,
                };
                proof {
                    assert(response.choices.deep_view() =~= seq![
                        ChoiceView {
                            index: 0,
                            message: MessageView {
                                role: "assistant"@,
                                content: reply@,
                                name: None,
                                tool_calls: None,
                            },
                            finish_reason: Some("stop"@),
                        },
                    ]);
                    assert(spec_remap_response(backend_response@, model@, id_view, created)
                        == Some(response@));
                    assert(self.spec_response(backend_response@, model@, id_view, created)
                        == Some(response@));
                }
                Ok(response)
            },
            None => {
                let mut detail: String =
                    "Could not extract 'data.text' field from backend response. Response: ".to_owned();
                let quoted = backend_response.render();
                detail.append(quoted.as_str());
                proof {
                    assert(spec_data_text(backend_response@) is None);
                }
                Err(AppError::TransformError(detail))
            },
        }
    }

    fn extract_streaming_text(&self, backend_response: &JsonValue) -> (r: Result<
        String,
        AppError,
    >) {
        let data = backend_response.get("data");
        let text_value = match data {
            Some(d) => d.get("text"),
            None => None,
        };
        let text = match text_value {
            Some(t) => t.as_str(),
            None => None,
        };
        match text {
            Some(reply) => Ok(reply.clone()),
            None => Err(
                AppError::TransformError(
                    "Could not extract text from backend response for streaming".to_owned(),
                ),
            ),
        }
    }
}

} // verus!

//! The pass-through provider: the backend natively speaks the wire schema.
//!
//! Requests are serialized into the backend payload field by field, absent
//! optional fields omitted; replies are parsed back as complete wire
//! responses, defaulting optional fields and failing when a required field
//! is missing or ill-typed.

use vstd::prelude::*;
use vstd::string::StringExecFns;

use crate::error::AppError;
use crate::json::{json_get, obj_push, view_entries, view_seq, lemma_view_seq,
    lemma_view_entries, lemma_view_entries_concat, JsonValue, JsonView};
use crate::openai::{ChatCompletionRequest, ChatCompletionRequestView, ChatCompletionResponse,
    ChatCompletionResponseView, Choice, ChoiceView, FloatBits32, FunctionCall, FunctionCallView,
    FunctionDefinition, FunctionDefinitionView, Message, MessageView, Tool, ToolCall,
    ToolCallView, ToolView, Usage};
use crate::provider::{is_response_id, is_uuid_hyphenated, Provider};

verus! {

/// A provider that forwards requests unchanged and expects replies already
/// in the wire schema.
#[derive(Debug)]
pub struct LightspeedCoreProvider;

impl LightspeedCoreProvider {
    pub fn new() -> (p: LightspeedCoreProvider)
        ensures
            p == (LightspeedCoreProvider {  }),
    {
        LightspeedCoreProvider {  }
    }
}

// ----------------------------------------------------------------------------
// Serialization: the payload sent downstream, field by field.
// ----------------------------------------------------------------------------
/// Appends one member when the field is populated; omits it when absent.
pub open spec fn opt_push(
    entries: Seq<(Seq<char>, JsonView)>,
    key: Seq<char>,
    value: Option<JsonView>,
) -> Seq<(Seq<char>, JsonView)> {
    match value {
        Some(v) => entries.push((key, v)),
        None => entries,
    }
}

/// A sampling parameter as a payload number, kept as its 32-bit pattern.
pub open spec fn spec_float32_json(v: Option<FloatBits32>) -> Option<JsonView> {
    match v {
        Some(f) => Some(JsonView::Float32Bits(f.bits)),
        None => None,
    }
}

pub open spec fn spec_function_call_json(f: FunctionCallView) -> JsonView {
    JsonView::Object(
        seq![("name"@, JsonView::Text(f.name)), ("arguments"@, JsonView::Text(f.arguments))],
    )
}

pub open spec fn spec_tool_call_json(tc: ToolCallView) -> JsonView {
    JsonView::Object(
        seq![
            ("id"@, JsonView::Text(tc.id)),
            ("type"@, JsonView::Text(tc.call_type)),
            ("function"@, spec_function_call_json(tc.function)),
        ],
    )
}

pub open spec fn spec_tool_calls_json(tool_calls: Seq<ToolCallView>) -> Seq<JsonView> {
    Seq::new(tool_calls.len(), |i: int| spec_tool_call_json(tool_calls[i]))
}

/// A message as serialized for the backend: role and content always, name
/// and tool invocations only when present.
pub open spec fn spec_message_json(m: MessageView) -> JsonView {
    JsonView::Object(
        opt_push(
            opt_push(
                seq![("role"@, JsonView::Text(m.role)), ("content"@, JsonView::Text(m.content))],
                "name"@,
                match m.name {
                    Some(n) => Some(JsonView::Text(n)),
                    None => None,
                },
            ),
            "tool_calls"@,
            match m.tool_calls {
                Some(tcs) => Some(JsonView::Array(spec_tool_calls_json(tcs))),
                None => None,
            },
        ),
    )
}

pub open spec fn spec_messages_json(messages: Seq<MessageView>) -> Seq<JsonView> {
    Seq::new(messages.len(), |i: int| spec_message_json(messages[i]))
}

pub open spec fn spec_function_definition_json(f: FunctionDefinitionView) -> JsonView {
    JsonView::Object(
        opt_push(
            seq![("name"@, JsonView::Text(f.name))],
            "description"@,
            match f.description {
                Some(d) => Some(JsonView::Text(d)),
                None => None,
            },
        ).push(("parameters"@, f.parameters)),
    )
}

pub open spec fn spec_tool_json(t: ToolView) -> JsonView {
    JsonView::Object(
        seq![
            ("type"@, JsonView::Text(t.tool_type)),
            ("function"@, spec_function_definition_json(t.function)),
        ],
    )
}

pub open spec fn spec_tools_json(tools: Seq<ToolView>) -> Seq<JsonView> {
    Seq::new(tools.len(), |i: int| spec_tool_json(tools[i]))
}

pub open spec fn spec_texts_json(texts: Seq<Seq<char>>) -> Seq<JsonView> {
    Seq::new(texts.len(), |i: int| JsonView::Text(texts[i]))
}

/// Every member of the pass-through payload, in wire order: the required
/// fields, each populated optional field, and the preserved unrecognized
/// fields at the end.
pub open spec fn spec_request_entries(r: ChatCompletionRequestView) -> Seq<
    (Seq<char>, JsonView),
> {
    opt_push(
        opt_push(
            opt_push(
                opt_push(
                    opt_push(
                        opt_push(
                            opt_push(
                                opt_push(
                                    opt_push(
                                        opt_push(
                                            opt_push(
                                                seq![
                                                    ("model"@, JsonView::Text(r.model)),
                                                    (
                                                        "messages"@,
                                                        JsonView::Array(
                                                            spec_messages_json(r.messages),
                                                        ),
                                                    ),
                                                ],
                                                "temperature"@,
                                                spec_float32_json(r.temperature),
                                            ),
                                            "top_p"@,
                                            spec_float32_json(r.top_p),
                                        ),
                                        "n"@,
                                        match r.n {
                                            Some(n) => Some(JsonView::UInt(n as u64)),
                                            None => None,
                                        },
                                    ),
                                    "stream"@,
                                    match r.stream {
                                        Some(b) => Some(JsonView::Bool(b)),
                                        None => None,
                                    },
                                ),
                                "stop"@,
                                match r.stop {
                                    Some(texts) => Some(JsonView::Array(spec_texts_json(texts))),
                                    None => None,
                                },
                            ),
                            "max_tokens"@,
                            match r.max_tokens {
                                Some(n) => Some(JsonView::UInt(n as u64)),
                                None => None,
                            },
                        ),
                        "presence_penalty"@,
                        spec_float32_json(r.presence_penalty),
                    ),
                    "frequency_penalty"@,
                    spec_float32_json(r.frequency_penalty),
                ),
                "user"@,
                match r.user {
                    Some(u) => Some(JsonView::Text(u)),
                    None => None,
                },
            ),
            "tools"@,
            match r.tools {
                Some(tools) => Some(JsonView::Array(spec_tools_json(tools))),
                None => None,
            },
        ),
        "tool_choice"@,
        r.tool_choice,
    ) + r.extra
}

/// The pass-through payload for a request.
pub open spec fn spec_request_json(r: ChatCompletionRequestView) -> JsonView {
    JsonView::Object(spec_request_entries(r))
}

fn function_call_json(f: FunctionCall) -> (v: JsonValue)
    ensures
        v@ == spec_function_call_json(f@),
{
    let mut entries: Vec<(String, JsonValue)> = Vec::new();
    proof {
        assert(view_entries(entries@) =~= Seq::<(Seq<char>, JsonView)>::empty());
    }
    obj_push(&mut entries, "name", JsonValue::Text(f.name));
    obj_push(&mut entries, "arguments", JsonValue::Text(f.arguments));
    proof {
        assert(view_entries(entries@) =~= seq![
            ("name"@, JsonView::Text(f@.name)),
            ("arguments"@, JsonView::Text(f@.arguments)),
        ]);
    }
    JsonValue::Object(entries)
}

fn tool_call_json(tc: ToolCall) -> (v: JsonValue)
    ensures
        v@ == spec_tool_call_json(tc@),
{
    let mut entries: Vec<(String, JsonValue)> = Vec::new();
    proof {
        assert(view_entries(entries@) =~= Seq::<(Seq<char>, JsonView)>::empty());
    }
    obj_push(&mut entries, "id", JsonValue::Text(tc.id));
    obj_push(&mut entries, "type", JsonValue::Text(tc.call_type));
    obj_push(&mut entries, "function", function_call_json(tc.function));
    proof {
        assert(view_entries(entries@) =~= seq![
            ("id"@, JsonView::Text(tc@.id)),
            ("type"@, JsonView::Text(tc@.call_type)),
            ("function"@, spec_function_call_json(tc@.function)),
        ]);
    }
    JsonValue::Object(entries)
}

fn tool_calls_json(tool_calls: Vec<ToolCall>) -> (out: Vec<JsonValue>)
    ensures
        view_seq(out@) == spec_tool_calls_json(tool_calls.deep_view()),
{
    let ghost orig = tool_calls.deep_view();
    let mut remaining = tool_calls;
    let mut out: Vec<JsonValue> = Vec::new();
    while remaining.len() > 0
        invariant
            out@.len() + remaining@.len() == orig.len(),
            remaining.deep_view() == orig.skip(out@.len() as int),
            forall|j: int| 0 <= j < out@.len() ==> out@[j]@ == #[trigger] spec_tool_calls_json(
                orig,
            )[j],
        decreases remaining.len(),
    {
        let ghost k = out@.len() as int;
        let ghost before_rem = remaining@;
        let ghost before_deep = remaining.deep_view();
        let tc = remaining.remove(0);
        proof {
            assert(tc.deep_view() == orig.skip(k)[0]);
            assert(orig.skip(k)[0] == orig[k]);
            assert(remaining@ =~= before_rem.drop_first());
            assert forall|j: int|
                0 <= j < remaining@.len() implies remaining.deep_view()[j]
                == orig.skip(k + 1)[j] by {
                assert(remaining@[j] == before_rem[j + 1]);
                assert(remaining.deep_view()[j] == remaining@[j].deep_view());
                assert(before_deep[j + 1] == before_rem[j + 1].deep_view());
                assert(before_deep[j + 1] == orig.skip(k)[j + 1]);
                assert(orig.skip(k)[j + 1] == orig[k + 1 + j]);
                assert(orig.skip(k + 1)[j] == orig[k + 1 + j]);
            }
            assert(remaining.deep_view() =~= orig.skip(k + 1));
            assert(spec_tool_calls_json(orig)[k] == spec_tool_call_json(orig[k]));
        }
        out.push(tool_call_json(tc));
    }
    proof {
        lemma_view_seq(out@);
        assert(view_seq(out@) =~= spec_tool_calls_json(orig));
    }
    out
}

fn message_json(m: Message) -> (v: JsonValue)
    ensures
        v@ == spec_message_json(m@),
{
    let ghost mv = m@;
    let mut entries: Vec<(String, JsonValue)> = Vec::new();
    proof {
        assert(view_entries(entries@) =~= Seq::<(Seq<char>, JsonView)>::empty());
    }
    obj_push(&mut entries, "role", JsonValue::Text(m.role));
    obj_push(&mut entries, "content", JsonValue::Text(m.content));
    let ghost base = seq![("role"@, JsonView::Text(mv.role)), ("content"@, JsonView::Text(mv.content))];
    proof {
        assert(view_entries(entries@) =~= base);
    }
    match m.name {
        Some(name) => {
            obj_push(&mut entries, "name", JsonValue::Text(name));
        },
        None => {},
    }
    let ghost with_name = opt_push(
        base,
        "name"@,
        match mv.name {
            Some(n) => Some(JsonView::Text(n)),
            None => None,
        },
    );
    proof {
        assert(view_entries(entries@) =~= with_name);
    }
    match m.tool_calls {
        Some(tcs) => {
            obj_push(&mut entries, "tool_calls", JsonValue::Array(tool_calls_json(tcs)));
        },
        None => {},
    }
    proof {
        assert(view_entries(entries@) =~= opt_push(
            with_name,
            "tool_calls"@,
            match mv.tool_calls {
                Some(tcs) => Some(JsonView::Array(spec_tool_calls_json(tcs))),
                None => None,
            },
        ));
    }
    JsonValue::Object(entries)
}

fn messages_json(messages: Vec<Message>) -> (out: Vec<JsonValue>)
    ensures
        view_seq(out@) == spec_messages_json(messages.deep_view()),
{
    let ghost orig = messages.deep_view();
    let mut remaining = messages;
    let mut out: Vec<JsonValue> = Vec::new();
    while remaining.len() > 0
        invariant
            out@.len() + remaining@.len() == orig.len(),
            remaining.deep_view() == orig.skip(out@.len() as int),
            forall|j: int| 0 <= j < out@.len() ==> out@[j]@ == #[trigger] spec_messages_json(
                orig,
            )[j],
        decreases remaining.len(),
    {
        let ghost k = out@.len() as int;
        let ghost before_rem = remaining@;
        let ghost before_deep = remaining.deep_view();
        let m = remaining.remove(0);
        proof {
            assert(m.deep_view() == orig.skip(k)[0]);
            assert(orig.skip(k)[0] == orig[k]);
            assert(remaining@ =~= before_rem.drop_first());
            assert forall|j: int|
                0 <= j < remaining@.len() implies remaining.deep_view()[j]
                == orig.skip(k + 1)[j] by {
                assert(remaining@[j] == before_rem[j + 1]);
                assert(remaining.deep_view()[j] == remaining@[j].deep_view());
                assert(before_deep[j + 1] == before_rem[j + 1].deep_view());
                assert(before_deep[j + 1] == orig.skip(k)[j + 1]);
                assert(orig.skip(k)[j + 1] == orig[k + 1 + j]);
                assert(orig.skip(k + 1)[j] == orig[k + 1 + j]);
            }
            assert(remaining.deep_view() =~= orig.skip(k + 1));
            assert(spec_messages_json(orig)[k] == spec_message_json(orig[k]));
        }
        out.push(message_json(m));
    }
    proof {
        lemma_view_seq(out@);
        assert(view_seq(out@) =~= spec_messages_json(orig));
    }
    out
}

fn function_definition_json(f: FunctionDefinition) -> (v: JsonValue)
    ensures
        v@ == spec_function_definition_json(f@),
{
    let ghost fv = f@;
    let mut entries: Vec<(String, JsonValue)> = Vec::new();
    proof {
        assert(view_entries(entries@) =~= Seq::<(Seq<char>, JsonView)>::empty());
    }
    obj_push(&mut entries, "name", JsonValue::Text(f.name));
    let ghost base = seq![("name"@, JsonView::Text(fv.name))];
    proof {
        assert(view_entries(entries@) =~= base);
    }
    match f.description {
        Some(d) => {
            obj_push(&mut entries, "description", JsonValue::Text(d));
        },
        None => {},
    }
    let ghost with_description = opt_push(
        base,
        "description"@,
        match fv.description {
            Some(d) => Some(JsonView::Text(d)),
            None => None,
        },
    );
    proof {
        assert(view_entries(entries@) =~= with_description);
    }
    obj_push(&mut entries, "parameters", f.parameters);
    proof {
        assert(view_entries(entries@) =~= with_description.push(("parameters"@, fv.parameters)));
    }
    JsonValue::Object(entries)
}

fn tool_json(t: Tool) -> (v: JsonValue)
    ensures
        v@ == spec_tool_json(t@),
{
    let mut entries: Vec<(String, JsonValue)> = Vec::new();
    proof {
        assert(view_entries(entries@) =~= Seq::<(Seq<char>, JsonView)>::empty());
    }
    obj_push(&mut entries, "type", JsonValue::Text(t.tool_type));
    obj_push(&mut entries, "function", function_definition_json(t.function));
    proof {
        assert(view_entries(entries@) =~= seq![
            ("type"@, JsonView::Text(t@.tool_type)),
            ("function"@, spec_function_definition_json(t@.function)),
        ]);
    }
    JsonValue::Object(entries)
}

fn tools_json(tools: Vec<Tool>) -> (out: Vec<JsonValue>)
    ensures
        view_seq(out@) == spec_tools_json(tools.deep_view()),
{
    let ghost orig = tools.deep_view();
    let mut remaining = tools;
    let mut out: Vec<JsonValue> = Vec::new();
    while remaining.len() > 0
        invariant
            out@.len() + remaining@.len() == orig.len(),
            remaining.deep_view() == orig.skip(out@.len() as int),
            forall|j: int| 0 <= j < out@.len() ==> out@[j]@ == #[trigger] spec_tools_json(
                orig,
            )[j],
        decreases remaining.len(),
    {
        let ghost k = out@.len() as int;
        let ghost before_rem = remaining@;
        let ghost before_deep = remaining.deep_view();
        let t = remaining.remove(0);
        proof {
            assert(t.deep_view() == orig.skip(k)[0]);
            assert(orig.skip(k)[0] == orig[k]);
            assert(remaining@ =~= before_rem.drop_first());
            assert forall|j: int|
                0 <= j < remaining@.len() implies remaining.deep_view()[j]
                == orig.skip(k + 1)[j] by {
                assert(remaining@[j] == before_rem[j + 1]);
                assert(remaining.deep_view()[j] == remaining@[j].deep_view());
                assert(before_deep[j + 1] == before_rem[j + 1].deep_view());
                assert(before_deep[j + 1] == orig.skip(k)[j + 1]);
                assert(orig.skip(k)[j + 1] == orig[k + 1 + j]);
                assert(orig.skip(k + 1)[j] == orig[k + 1 + j]);
            }
            assert(remaining.deep_view() =~= orig.skip(k + 1));
            assert(spec_tools_json(orig)[k] == spec_tool_json(orig[k]));
        }
        out.push(tool_json(t));
    }
    proof {
        lemma_view_seq(out@);
        assert(view_seq(out@) =~= spec_tools_json(orig));
    }
    out
}

fn texts_json(texts: Vec<String>) -> (out: Vec<JsonValue>)
    ensures
        view_seq(out@) == spec_texts_json(texts.deep_view()),
{
    let ghost orig = texts.deep_view();
    let mut remaining = texts;
    let mut out: Vec<JsonValue> = Vec::new();
    while remaining.len() > 0
        invariant
            out@.len() + remaining@.len() == orig.len(),
            remaining.deep_view() == orig.skip(out@.len() as int),
            forall|j: int| 0 <= j < out@.len() ==> out@[j]@ == #[trigger] spec_texts_json(
                orig,
            )[j],
        decreases remaining.len(),
    {
        let ghost k = out@.len() as int;
        let ghost before_rem = remaining@;
        let ghost before_deep = remaining.deep_view();
        let s = remaining.remove(0);
        proof {
            assert(s.deep_view() == orig.skip(k)[0]);
            assert(orig.skip(k)[0] == orig[k]);
            assert(remaining@ =~= before_rem.drop_first());
            assert forall|j: int|
                0 <= j < remaining@.len() implies remaining.deep_view()[j]
                == orig.skip(k + 1)[j] by {
                assert(remaining@[j] == before_rem[j + 1]);
                assert(remaining.deep_view()[j] == remaining@[j].deep_view());
                assert(before_deep[j + 1] == before_rem[j + 1].deep_view());
                assert(before_deep[j + 1] == orig.skip(k)[j + 1]);
                assert(orig.skip(k)[j + 1] == orig[k + 1 + j]);
                assert(orig.skip(k + 1)[j] == orig[k + 1 + j]);
            }
            assert(remaining.deep_view() =~= orig.skip(k + 1));
            assert(spec_texts_json(orig)[k] == JsonView::Text(orig[k]));
        }
        out.push(JsonValue::Text(s));
    }
    proof {
        lemma_view_seq(out@);
        assert(view_seq(out@) =~= spec_texts_json(orig));
    }
    out
}

// ----------------------------------------------------------------------------
// Parsing: a backend reply read back as a complete wire response.
// ----------------------------------------------------------------------------
/// A required unsigned 32-bit member; `None` when missing, negative,
/// fractional or too large.
pub open spec fn spec_u32_field(v: JsonView, key: Seq<char>) -> Option<u32> {
    match json_get(v, key) {
        Some(JsonView::UInt(n)) => if n <= u32::MAX {
            Some(n as u32)
        } else {
            None
        },
        _ => None,
    }
}

/// An optional string member: `Some(None)` when missing or null,
/// `Some(Some(t))` when a string, `None` (an error) otherwise.
pub open spec fn spec_opt_text_field(v: JsonView, key: Seq<char>) -> Option<Option<Seq<char>>> {
    match json_get(v, key) {
        None => Some(None),
        Some(JsonView::Null) => Some(None),
        Some(JsonView::Text(t)) => Some(Some(t)),
        Some(_) => None,
    }
}

/// A required string member; `None` when missing or not a string.
pub open spec fn spec_text_field(v: JsonView, key: Seq<char>) -> Option<Seq<char>> {
    match json_get(v, key) {
        Some(JsonView::Text(t)) => Some(t),
        _ => None,
    }
}

/// The token accounting of a reply: all three counts required.
pub open spec fn spec_parse_usage(v: JsonView) -> Option<Usage> {
    match (
        spec_u32_field(v, "prompt_tokens"@),
        spec_u32_field(v, "completion_tokens"@),
        spec_u32_field(v, "total_tokens"@),
    ) {
        (Some(prompt), Some(completion), Some(total)) => Some(
            Usage { prompt_tokens: prompt, completion_tokens: completion, total_tokens: total },
        ),
        _ => None,
    }
}

pub open spec fn spec_parse_function_call(v: JsonView) -> Option<FunctionCallView> {
    match (spec_text_field(v, "name"@), spec_text_field(v, "arguments"@)) {
        (Some(name), Some(arguments)) => Some(FunctionCallView { name, arguments }),
        _ => None,
    }
}

pub open spec fn spec_parse_tool_call(v: JsonView) -> Option<ToolCallView> {
    match (spec_text_field(v, "id"@), spec_text_field(v, "type"@), json_get(v, "function"@)) {
        (Some(id), Some(call_type), Some(f)) => match spec_parse_function_call(f) {
            Some(function) => Some(ToolCallView { id, call_type, function }),
            None => None,
        },
        _ => None,
    }
}

pub open spec fn spec_parse_tool_calls(items: Seq<JsonView>) -> Option<Seq<ToolCallView>>
    decreases items.len(),
{
    if items.len() == 0 {
        Some(Seq::empty())
    } else {
        match (spec_parse_tool_call(items[0]), spec_parse_tool_calls(items.drop_first())) {
            (Some(tc), Some(rest)) => Some(seq![tc] + rest),
            _ => None,
        }
    }
}

/// A message of a reply: role required; content defaulting to empty when
/// missing; name and tool invocations optional.
pub open spec fn spec_parse_message(v: JsonView) -> Option<MessageView> {
    match (spec_text_field(v, "role"@), spec_opt_text_field(v, "name"@)) {
        (Some(role), Some(name)) => {
            let content = match json_get(v, "content"@) {
                None => Some(Seq::<char>::empty()),
                Some(JsonView::Text(t)) => Some(t),
                Some(_) => None,
            };
            let tool_calls = match json_get(v, "tool_calls"@) {
                None => Some(None),
                Some(JsonView::Null) => Some(None),
                Some(JsonView::Array(items)) => match spec_parse_tool_calls(items) {
                    Some(tcs) => Some(Some(tcs)),
                    None => None,
                },
                Some(_) => None,
            };
            match (content, tool_calls) {
                (Some(content), Some(tool_calls)) => Some(
                    MessageView { role, content, name, tool_calls },
                ),
                _ => None,
            }
        },
        _ => None,
    }
}

pub open spec fn spec_parse_choice(v: JsonView) -> Option<ChoiceView> {
    match (spec_u32_field(v, "index"@), json_get(v, "message"@), spec_opt_text_field(
        v,
        "finish_reason"@,
    )) {
        (Some(index), Some(m), Some(finish_reason)) => match spec_parse_message(m) {
            Some(message) => Some(ChoiceView { index, message, finish_reason }),
            None => None,
        },
        _ => None,
    }
}

pub open spec fn spec_parse_choices(items: Seq<JsonView>) -> Option<Seq<ChoiceView>>
    decreases items.len(),
{
    if items.len() == 0 {
        Some(Seq::empty())
    } else {
        match (spec_parse_choice(items[0]), spec_parse_choices(items.drop_first())) {
            (Some(c), Some(rest)) => Some(seq![c] + rest),
            _ => None,
        }
    }
}

/// A complete reply in the wire schema: all top-level fields required.
pub open spec fn spec_parse_response(v: JsonView) -> Option<ChatCompletionResponseView> {
    let id = spec_text_field(v, "id"@);
    let object = spec_text_field(v, "object"@);
    let created = match json_get(v, "created"@) {
        Some(c) => crate::json::spec_as_i64(c),
        None => None,
    };
    let model = spec_text_field(v, "model"@);
    let choices = match json_get(v, "choices"@) {
        Some(JsonView::Array(items)) => spec_parse_choices(items),
        _ => None,
    };
    let usage = match json_get(v, "usage"@) {
        Some(u) => spec_parse_usage(u),
        None => None,
    };
    if id is Some && object is Some && created is Some && model is Some && choices is Some
        && usage is Some {
        Some(
            ChatCompletionResponseView {
                id: id->0,
                object: object->0,
                created: created->0,
                model: model->0,
                choices: choices->0,
                usage: usage->0,
            },
        )
    } else {
        None
    }
}

/// The text this variant streams: the content of the first choice's message.
pub open spec fn spec_choices_text(v: JsonView) -> Option<Seq<char>> {
    match json_get(v, "choices"@) {
        Some(JsonView::Array(items)) => if items.len() > 0 {
            match json_get(items[0], "message"@) {
                Some(m) => match json_get(m, "content"@) {
                    Some(JsonView::Text(t)) => Some(t),
                    _ => None,
                },
                None => None,
            }
        } else {
            None
        },
        _ => None,
    }
}

/// Looking a key up after an optional append: an earlier entry still wins;
/// the appended entry answers only when present and nothing before it
/// carried the key.
pub broadcast proof fn lemma_lookup_opt_push(
    entries: Seq<(Seq<char>, JsonView)>,
    k: Seq<char>,
    v: Option<JsonView>,
    key: Seq<char>,
)
    ensures
        #[trigger] crate::json::entries_lookup(opt_push(entries, k, v), key) == (
        if crate::json::entries_lookup(entries, key) is Some {
            crate::json::entries_lookup(entries, key)
        } else if k == key {
            match v {
                Some(x) => Some(x),
                None => None,
            }
        } else {
            None::<JsonView>
        }),
{
    broadcast use crate::json::lemma_entries_lookup_push;

    match v {
        Some(x) => {
            assert(opt_push(entries, k, v) == entries.push((k, x)));
        },
        None => {},
    }
}

/// Every populated field of a request reappears unchanged in the
/// pass-through payload, under its own wire key; absent optional fields are
/// omitted rather than sent as nulls, and preserved unrecognized fields
/// cannot shadow the named ones.
#[verifier::rlimit(100)]
#[verifier::spinoff_prover]
pub proof fn lemma_pass_through_round_trip(r: ChatCompletionRequestView)
    ensures
        json_get(spec_request_json(r), "model"@) == Some(JsonView::Text(r.model)),
        json_get(spec_request_json(r), "messages"@) == Some(
            JsonView::Array(spec_messages_json(r.messages)),
        ),
        r.temperature matches Some(t) ==> json_get(spec_request_json(r), "temperature"@) == Some(
            JsonView::Float32Bits(t.bits),
        ),
        r.top_p matches Some(t) ==> json_get(spec_request_json(r), "top_p"@) == Some(
            JsonView::Float32Bits(t.bits),
        ),
        r.n matches Some(n) ==> json_get(spec_request_json(r), "n"@) == Some(
            JsonView::UInt(n as u64),
        ),
        r.stream matches Some(b) ==> json_get(spec_request_json(r), "stream"@) == Some(
            JsonView::Bool(b),
        ),
        r.stop matches Some(texts) ==> json_get(spec_request_json(r), "stop"@) == Some(
            JsonView::Array(spec_texts_json(texts)),
        ),
        r.max_tokens matches Some(n) ==> json_get(spec_request_json(r), "max_tokens"@) == Some(
            JsonView::UInt(n as u64),
        ),
        r.presence_penalty matches Some(t) ==> json_get(spec_request_json(r), "presence_penalty"@)
            == Some(JsonView::Float32Bits(t.bits)),
        r.frequency_penalty matches Some(t) ==> json_get(
            spec_request_json(r),
            "frequency_penalty"@,
        ) == Some(JsonView::Float32Bits(t.bits)),
        r.user matches Some(u) ==> json_get(spec_request_json(r), "user"@) == Some(
            JsonView::Text(u),
        ),
        r.tools matches Some(tools) ==> json_get(spec_request_json(r), "tools"@) == Some(
            JsonView::Array(spec_tools_json(tools)),
        ),
        r.tool_choice matches Some(choice) ==> json_get(spec_request_json(r), "tool_choice"@)
            == Some(choice),
{
    reveal_with_fuel(crate::json::entries_lookup, 5);
    reveal_strlit("model");
    reveal_strlit("messages");
    reveal_strlit("temperature");
    reveal_strlit("top_p");
    reveal_strlit("n");
    reveal_strlit("stream");
    reveal_strlit("stop");
    reveal_strlit("max_tokens");
    reveal_strlit("presence_penalty");
    reveal_strlit("frequency_penalty");
    reveal_strlit("user");
    reveal_strlit("tools");
    reveal_strlit("tool_choice");
    assert(("model"@).len() == 5 && ("messages"@).len() == 8 && ("temperature"@).len() == 11);
    assert(("top_p"@).len() == 5 && ("n"@).len() == 1 && ("stream"@).len() == 6);
    assert(("stop"@).len() == 4 && ("max_tokens"@).len() == 10);
    assert(("presence_penalty"@).len() == 16 && ("frequency_penalty"@).len() == 17);
    assert(("user"@).len() == 4 && ("tools"@).len() == 5 && ("tool_choice"@).len() == 11);
    assert(("model"@)[0] == 'm' && ("top_p"@)[0] == 't' && ("tools"@)[0] == 't');
    assert(("top_p"@)[2] == 'p' && ("tools"@)[2] == 'o');
    assert(("stop"@)[0] == 's' && ("user"@)[0] == 'u');
    assert(("temperature"@)[1] == 'e' && ("tool_choice"@)[1] == 'o');
    let l0 = seq![
        ("model"@, JsonView::Text(r.model)),
        ("messages"@, JsonView::Array(spec_messages_json(r.messages))),
    ];
    assert(l0.drop_first() =~= seq![
        ("messages"@, JsonView::Array(spec_messages_json(r.messages))),
    ]);
    assert(l0.drop_first().drop_first() =~= Seq::<(Seq<char>, JsonView)>::empty());
    assert(crate::json::entries_lookup(l0, "model"@) == Some(JsonView::Text(r.model)));
    assert(crate::json::entries_lookup(l0.drop_first(), "messages"@) == Some(
        JsonView::Array(spec_messages_json(r.messages)),
    ));
    assert(crate::json::entries_lookup(l0, "messages"@) == Some(
        JsonView::Array(spec_messages_json(r.messages)),
    ));
    assert forall|key: Seq<char>|
        key != "model"@ && key != "messages"@ implies crate::json::entries_lookup(
        l0,
        key,
    ) is None by {
        assert(l0[0].0 == "model"@);
        assert(l0.drop_first()[0].0 == "messages"@);
    }
    let l1 = opt_push(l0, "temperature"@, spec_float32_json(r.temperature));
    let l2 = opt_push(l1, "top_p"@, spec_float32_json(r.top_p));
    let l3 = opt_push(l2, "n"@, match r.n { Some(n) => Some(JsonView::UInt(n as u64)), None => None });
    let l4 = opt_push(l3, "stream"@, match r.stream { Some(b) => Some(JsonView::Bool(b)), None => None });
    let l5 = opt_push(l4, "stop"@, match r.stop { Some(texts) => Some(JsonView::Array(spec_texts_json(texts))), None => None });
    let l6 = opt_push(l5, "max_tokens"@, match r.max_tokens { Some(n) => Some(JsonView::UInt(n as u64)), None => None });
    let l7 = opt_push(l6, "presence_penalty"@, spec_float32_json(r.presence_penalty));
    let l8 = opt_push(l7, "frequency_penalty"@, spec_float32_json(r.frequency_penalty));
    let l9 = opt_push(l8, "user"@, match r.user { Some(u) => Some(JsonView::Text(u)), None => None });
    let l10 = opt_push(l9, "tools"@, match r.tools { Some(tools) => Some(JsonView::Array(spec_tools_json(tools))), None => None });
    let l11 = opt_push(l10, "tool_choice"@, r.tool_choice);
    assert(spec_request_entries(r) == l11 + r.extra);
    lemma_lookup_opt_push(l0, "temperature"@, spec_float32_json(r.temperature), "model"@);
    lemma_lookup_opt_push(l1, "top_p"@, spec_float32_json(r.top_p), "model"@);
    lemma_lookup_opt_push(l2, "n"@, match r.n { Some(n) => Some(JsonView::UInt(n as u64)), None => None }, "model"@);
    lemma_lookup_opt_push(l3, "stream"@, match r.stream { Some(b) => Some(JsonView::Bool(b)), None => None }, "model"@);
    lemma_lookup_opt_push(l4, "stop"@, match r.stop { Some(texts) => Some(JsonView::Array(spec_texts_json(texts))), None => None }, "model"@);
    lemma_lookup_opt_push(l5, "max_tokens"@, match r.max_tokens { Some(n) => Some(JsonView::UInt(n as u64)), None => None }, "model"@);
    lemma_lookup_opt_push(l6, "presence_penalty"@, spec_float32_json(r.presence_penalty), "model"@);
    lemma_lookup_opt_push(l7, "frequency_penalty"@, spec_float32_json(r.frequency_penalty), "model"@);
    lemma_lookup_opt_push(l8, "user"@, match r.user { Some(u) => Some(JsonView::Text(u)), None => None }, "model"@);
    lemma_lookup_opt_push(l9, "tools"@, match r.tools { Some(tools) => Some(JsonView::Array(spec_tools_json(tools))), None => None }, "model"@);
    lemma_lookup_opt_push(l10, "tool_choice"@, r.tool_choice, "model"@);
    crate::json::lemma_entries_lookup_concat(l11, r.extra, "model"@);
    lemma_lookup_opt_push(l0, "temperature"@, spec_float32_json(r.temperature), "messages"@);
    lemma_lookup_opt_push(l1, "top_p"@, spec_float32_json(r.top_p), "messages"@);
    lemma_lookup_opt_push(l2, "n"@, match r.n { Some(n) => Some(JsonView::UInt(n as u64)), None => None }, "messages"@);
    lemma_lookup_opt_push(l3, "stream"@, match r.stream { Some(b) => Some(JsonView::Bool(b)), None => None }, "messages"@);
    lemma_lookup_opt_push(l4, "stop"@, match r.stop { Some(texts) => Some(JsonView::Array(spec_texts_json(texts))), None => None }, "messages"@);
    lemma_lookup_opt_push(l5, "max_tokens"@, match r.max_tokens { Some(n) => Some(JsonView::UInt(n as u64)), None => None }, "messages"@);
    lemma_lookup_opt_push(l6, "presence_penalty"@, spec_float32_json(r.presence_penalty), "messages"@);
    lemma_lookup_opt_push(l7, "frequency_penalty"@, spec_float32_json(r.frequency_penalty), "messages"@);
    lemma_lookup_opt_push(l8, "user"@, match r.user { Some(u) => Some(JsonView::Text(u)), None => None }, "messages"@);
    lemma_lookup_opt_push(l9, "tools"@, match r.tools { Some(tools) => Some(JsonView::Array(spec_tools_json(tools))), None => None }, "messages"@);
    lemma_lookup_opt_push(l10, "tool_choice"@, r.tool_choice, "messages"@);
    crate::json::lemma_entries_lookup_concat(l11, r.extra, "messages"@);
    lemma_lookup_opt_push(l0, "temperature"@, spec_float32_json(r.temperature), "temperature"@);
    lemma_lookup_opt_push(l1, "top_p"@, spec_float32_json(r.top_p), "temperature"@);
    lemma_lookup_opt_push(l2, "n"@, match r.n { Some(n) => Some(JsonView::UInt(n as u64)), None => None }, "temperature"@);
    lemma_lookup_opt_push(l3, "stream"@, match r.stream { Some(b) => Some(JsonView::Bool(b)), None => None }, "temperature"@);
    lemma_lookup_opt_push(l4, "stop"@, match r.stop { Some(texts) => Some(JsonView::Array(spec_texts_json(texts))), None => None }, "temperature"@);
    lemma_lookup_opt_push(l5, "max_tokens"@, match r.max_tokens { Some(n) => Some(JsonView::UInt(n as u64)), None => None }, "temperature"@);
    lemma_lookup_opt_push(l6, "presence_penalty"@, spec_float32_json(r.presence_penalty), "temperature"@);
    lemma_lookup_opt_push(l7, "frequency_penalty"@, spec_float32_json(r.frequency_penalty), "temperature"@);
    lemma_lookup_opt_push(l8, "user"@, match r.user { Some(u) => Some(JsonView::Text(u)), None => None }, "temperature"@);
    lemma_lookup_opt_push(l9, "tools"@, match r.tools { Some(tools) => Some(JsonView::Array(spec_tools_json(tools))), None => None }, "temperature"@);
    lemma_lookup_opt_push(l10, "tool_choice"@, r.tool_choice, "temperature"@);
    crate::json::lemma_entries_lookup_concat(l11, r.extra, "temperature"@);
    lemma_lookup_opt_push(l0, "temperature"@, spec_float32_json(r.temperature), "top_p"@);
    lemma_lookup_opt_push(l1, "top_p"@, spec_float32_json(r.top_p), "top_p"@);
    lemma_lookup_opt_push(l2, "n"@, match r.n { Some(n) => Some(JsonView::UInt(n as u64)), None => None }, "top_p"@);
    lemma_lookup_opt_push(l3, "stream"@, match r.stream { Some(b) => Some(JsonView::Bool(b)), None => None }, "top_p"@);
    lemma_lookup_opt_push(l4, "stop"@, match r.stop { Some(texts) => Some(JsonView::Array(spec_texts_json(texts))), None => None }, "top_p"@);
    lemma_lookup_opt_push(l5, "max_tokens"@, match r.max_tokens { Some(n) => Some(JsonView::UInt(n as u64)), None => None }, "top_p"@);
    lemma_lookup_opt_push(l6, "presence_penalty"@, spec_float32_json(r.presence_penalty), "top_p"@);
    lemma_lookup_opt_push(l7, "frequency_penalty"@, spec_float32_json(r.frequency_penalty), "top_p"@);
    lemma_lookup_opt_push(l8, "user"@, match r.user { Some(u) => Some(JsonView::Text(u)), None => None }, "top_p"@);
    lemma_lookup_opt_push(l9, "tools"@, match r.tools { Some(tools) => Some(JsonView::Array(spec_tools_json(tools))), None => None }, "top_p"@);
    lemma_lookup_opt_push(l10, "tool_choice"@, r.tool_choice, "top_p"@);
    crate::json::lemma_entries_lookup_concat(l11, r.extra, "top_p"@);
    lemma_lookup_opt_push(l0, "temperature"@, spec_float32_json(r.temperature), "n"@);
    lemma_lookup_opt_push(l1, "top_p"@, spec_float32_json(r.top_p), "n"@);
    lemma_lookup_opt_push(l2, "n"@, match r.n { Some(n) => Some(JsonView::UInt(n as u64)), None => None }, "n"@);
    lemma_lookup_opt_push(l3, "stream"@, match r.stream { Some(b) => Some(JsonView::Bool(b)), None => None }, "n"@);
    lemma_lookup_opt_push(l4, "stop"@, match r.stop { Some(texts) => Some(JsonView::Array(spec_texts_json(texts))), None => None }, "n"@);
    lemma_lookup_opt_push(l5, "max_tokens"@, match r.max_tokens { Some(n) => Some(JsonView::UInt(n as u64)), None => None }, "n"@);
    lemma_lookup_opt_push(l6, "presence_penalty"@, spec_float32_json(r.presence_penalty), "n"@);
    lemma_lookup_opt_push(l7, "frequency_penalty"@, spec_float32_json(r.frequency_penalty), "n"@);
    lemma_lookup_opt_push(l8, "user"@, match r.user { Some(u) => Some(JsonView::Text(u)), None => None }, "n"@);
    lemma_lookup_opt_push(l9, "tools"@, match r.tools { Some(tools) => Some(JsonView::Array(spec_tools_json(tools))), None => None }, "n"@);
    lemma_lookup_opt_push(l10, "tool_choice"@, r.tool_choice, "n"@);
    crate::json::lemma_entries_lookup_concat(l11, r.extra, "n"@);
    lemma_lookup_opt_push(l0, "temperature"@, spec_float32_json(r.temperature), "stream"@);
    lemma_lookup_opt_push(l1, "top_p"@, spec_float32_json(r.top_p), "stream"@);
    lemma_lookup_opt_push(l2, "n"@, match r.n { Some(n) => Some(JsonView::UInt(n as u64)), None => None }, "stream"@);
    lemma_lookup_opt_push(l3, "stream"@, match r.stream { Some(b) => Some(JsonView::Bool(b)), None => None }, "stream"@);
    lemma_lookup_opt_push(l4, "stop"@, match r.stop { Some(texts) => Some(JsonView::Array(spec_texts_json(texts))), None => None }, "stream"@);
    lemma_lookup_opt_push(l5, "max_tokens"@, match r.max_tokens { Some(n) => Some(JsonView::UInt(n as u64)), None => None }, "stream"@);
    lemma_lookup_opt_push(l6, "presence_penalty"@, spec_float32_json(r.presence_penalty), "stream"@);
    lemma_lookup_opt_push(l7, "frequency_penalty"@, spec_float32_json(r.frequency_penalty), "stream"@);
    lemma_lookup_opt_push(l8, "user"@, match r.user { Some(u) => Some(JsonView::Text(u)), None => None }, "stream"@);
    lemma_lookup_opt_push(l9, "tools"@, match r.tools { Some(tools) => Some(JsonView::Array(spec_tools_json(tools))), None => None }, "stream"@);
    lemma_lookup_opt_push(l10, "tool_choice"@, r.tool_choice, "stream"@);
    crate::json::lemma_entries_lookup_concat(l11, r.extra, "stream"@);
    lemma_lookup_opt_push(l0, "temperature"@, spec_float32_json(r.temperature), "stop"@);
    lemma_lookup_opt_push(l1, "top_p"@, spec_float32_json(r.top_p), "stop"@);
    lemma_lookup_opt_push(l2, "n"@, match r.n { Some(n) => Some(JsonView::UInt(n as u64)), None => None }, "stop"@);
    lemma_lookup_opt_push(l3, "stream"@, match r.stream { Some(b) => Some(JsonView::Bool(b)), None => None }, "stop"@);
    lemma_lookup_opt_push(l4, "stop"@, match r.stop { Some(texts) => Some(JsonView::Array(spec_texts_json(texts))), None => None }, "stop"@);
    lemma_lookup_opt_push(l5, "max_tokens"@, match r.max_tokens { Some(n) => Some(JsonView::UInt(n as u64)), None => None }, "stop"@);
    lemma_lookup_opt_push(l6, "presence_penalty"@, spec_float32_json(r.presence_penalty), "stop"@);
    lemma_lookup_opt_push(l7, "frequency_penalty"@, spec_float32_json(r.frequency_penalty), "stop"@);
    lemma_lookup_opt_push(l8, "user"@, match r.user { Some(u) => Some(JsonView::Text(u)), None => None }, "stop"@);
    lemma_lookup_opt_push(l9, "tools"@, match r.tools { Some(tools) => Some(JsonView::Array(spec_tools_json(tools))), None => None }, "stop"@);
    lemma_lookup_opt_push(l10, "tool_choice"@, r.tool_choice, "stop"@);
    crate::json::lemma_entries_lookup_concat(l11, r.extra, "stop"@);
    lemma_lookup_opt_push(l0, "temperature"@, spec_float32_json(r.temperature), "max_tokens"@);
    lemma_lookup_opt_push(l1, "top_p"@, spec_float32_json(r.top_p), "max_tokens"@);
    lemma_lookup_opt_push(l2, "n"@, match r.n { Some(n) => Some(JsonView::UInt(n as u64)), None => None }, "max_tokens"@);
    lemma_lookup_opt_push(l3, "stream"@, match r.stream { Some(b) => Some(JsonView::Bool(b)), None => None }, "max_tokens"@);
    lemma_lookup_opt_push(l4, "stop"@, match r.stop { Some(texts) => Some(JsonView::Array(spec_texts_json(texts))), None => None }, "max_tokens"@);
    lemma_lookup_opt_push(l5, "max_tokens"@, match r.max_tokens { Some(n) => Some(JsonView::UInt(n as u64)), None => None }, "max_tokens"@);
    lemma_lookup_opt_push(l6, "presence_penalty"@, spec_float32_json(r.presence_penalty), "max_tokens"@);
    lemma_lookup_opt_push(l7, "frequency_penalty"@, spec_float32_json(r.frequency_penalty), "max_tokens"@);
    lemma_lookup_opt_push(l8, "user"@, match r.user { Some(u) => Some(JsonView::Text(u)), None => None }, "max_tokens"@);
    lemma_lookup_opt_push(l9, "tools"@, match r.tools { Some(tools) => Some(JsonView::Array(spec_tools_json(tools))), None => None }, "max_tokens"@);
    lemma_lookup_opt_push(l10, "tool_choice"@, r.tool_choice, "max_tokens"@);
    crate::json::lemma_entries_lookup_concat(l11, r.extra, "max_tokens"@);
    lemma_lookup_opt_push(l0, "temperature"@, spec_float32_json(r.temperature), "presence_penalty"@);
    lemma_lookup_opt_push(l1, "top_p"@, spec_float32_json(r.top_p), "presence_penalty"@);
    lemma_lookup_opt_push(l2, "n"@, match r.n { Some(n) => Some(JsonView::UInt(n as u64)), None => None }, "presence_penalty"@);
    lemma_lookup_opt_push(l3, "stream"@, match r.stream { Some(b) => Some(JsonView::Bool(b)), None => None }, "presence_penalty"@);
    lemma_lookup_opt_push(l4, "stop"@, match r.stop { Some(texts) => Some(JsonView::Array(spec_texts_json(texts))), None => None }, "presence_penalty"@);
    lemma_lookup_opt_push(l5, "max_tokens"@, match r.max_tokens { Some(n) => Some(JsonView::UInt(n as u64)), None => None }, "presence_penalty"@);
    lemma_lookup_opt_push(l6, "presence_penalty"@, spec_float32_json(r.presence_penalty), "presence_penalty"@);
    lemma_lookup_opt_push(l7, "frequency_penalty"@, spec_float32_json(r.frequency_penalty), "presence_penalty"@);
    lemma_lookup_opt_push(l8, "user"@, match r.user { Some(u) => Some(JsonView::Text(u)), None => None }, "presence_penalty"@);
    lemma_lookup_opt_push(l9, "tools"@, match r.tools { Some(tools) => Some(JsonView::Array(spec_tools_json(tools))), None => None }, "presence_penalty"@);
    lemma_lookup_opt_push(l10, "tool_choice"@, r.tool_choice, "presence_penalty"@);
    crate::json::lemma_entries_lookup_concat(l11, r.extra, "presence_penalty"@);
    lemma_lookup_opt_push(l0, "temperature"@, spec_float32_json(r.temperature), "frequency_penalty"@);
    lemma_lookup_opt_push(l1, "top_p"@, spec_float32_json(r.top_p), "frequency_penalty"@);
    lemma_lookup_opt_push(l2, "n"@, match r.n { Some(n) => Some(JsonView::UInt(n as u64)), None => None }, "frequency_penalty"@);
    lemma_lookup_opt_push(l3, "stream"@, match r.stream { Some(b) => Some(JsonView::Bool(b)), None => None }, "frequency_penalty"@);
    lemma_lookup_opt_push(l4, "stop"@, match r.stop { Some(texts) => Some(JsonView::Array(spec_texts_json(texts))), None => None }, "frequency_penalty"@);
    lemma_lookup_opt_push(l5, "max_tokens"@, match r.max_tokens { Some(n) => Some(JsonView::UInt(n as u64)), None => None }, "frequency_penalty"@);
    lemma_lookup_opt_push(l6, "presence_penalty"@, spec_float32_json(r.presence_penalty), "frequency_penalty"@);
    lemma_lookup_opt_push(l7, "frequency_penalty"@, spec_float32_json(r.frequency_penalty), "frequency_penalty"@);
    lemma_lookup_opt_push(l8, "user"@, match r.user { Some(u) => Some(JsonView::Text(u)), None => None }, "frequency_penalty"@);
    lemma_lookup_opt_push(l9, "tools"@, match r.tools { Some(tools) => Some(JsonView::Array(spec_tools_json(tools))), None => None }, "frequency_penalty"@);
    lemma_lookup_opt_push(l10, "tool_choice"@, r.tool_choice, "frequency_penalty"@);
    crate::json::lemma_entries_lookup_concat(l11, r.extra, "frequency_penalty"@);
    lemma_lookup_opt_push(l0, "temperature"@, spec_float32_json(r.temperature), "user"@);
    lemma_lookup_opt_push(l1, "top_p"@, spec_float32_json(r.top_p), "user"@);
    lemma_lookup_opt_push(l2, "n"@, match r.n { Some(n) => Some(JsonView::UInt(n as u64)), None => None }, "user"@);
    lemma_lookup_opt_push(l3, "stream"@, match r.stream { Some(b) => Some(JsonView::Bool(b)), None => None }, "user"@);
    lemma_lookup_opt_push(l4, "stop"@, match r.stop { Some(texts) => Some(JsonView::Array(spec_texts_json(texts))), None => None }, "user"@);
    lemma_lookup_opt_push(l5, "max_tokens"@, match r.max_tokens { Some(n) => Some(JsonView::UInt(n as u64)), None => None }, "user"@);
    lemma_lookup_opt_push(l6, "presence_penalty"@, spec_float32_json(r.presence_penalty), "user"@);
    lemma_lookup_opt_push(l7, "frequency_penalty"@, spec_float32_json(r.frequency_penalty), "user"@);
    lemma_lookup_opt_push(l8, "user"@, match r.user { Some(u) => Some(JsonView::Text(u)), None => None }, "user"@);
    lemma_lookup_opt_push(l9, "tools"@, match r.tools { Some(tools) => Some(JsonView::Array(spec_tools_json(tools))), None => None }, "user"@);
    lemma_lookup_opt_push(l10, "tool_choice"@, r.tool_choice, "user"@);
    crate::json::lemma_entries_lookup_concat(l11, r.extra, "user"@);
    lemma_lookup_opt_push(l0, "temperature"@, spec_float32_json(r.temperature), "tools"@);
    lemma_lookup_opt_push(l1, "top_p"@, spec_float32_json(r.top_p), "tools"@);
    lemma_lookup_opt_push(l2, "n"@, match r.n { Some(n) => Some(JsonView::UInt(n as u64)), None => None }, "tools"@);
    lemma_lookup_opt_push(l3, "stream"@, match r.stream { Some(b) => Some(JsonView::Bool(b)), None => None }, "tools"@);
    lemma_lookup_opt_push(l4, "stop"@, match r.stop { Some(texts) => Some(JsonView::Array(spec_texts_json(texts))), None => None }, "tools"@);
    lemma_lookup_opt_push(l5, "max_tokens"@, match r.max_tokens { Some(n) => Some(JsonView::UInt(n as u64)), None => None }, "tools"@);
    lemma_lookup_opt_push(l6, "presence_penalty"@, spec_float32_json(r.presence_penalty), "tools"@);
    lemma_lookup_opt_push(l7, "frequency_penalty"@, spec_float32_json(r.frequency_penalty), "tools"@);
    lemma_lookup_opt_push(l8, "user"@, match r.user { Some(u) => Some(JsonView::Text(u)), None => None }, "tools"@);
    lemma_lookup_opt_push(l9, "tools"@, match r.tools { Some(tools) => Some(JsonView::Array(spec_tools_json(tools))), None => None }, "tools"@);
    lemma_lookup_opt_push(l10, "tool_choice"@, r.tool_choice, "tools"@);
    crate::json::lemma_entries_lookup_concat(l11, r.extra, "tools"@);
    lemma_lookup_opt_push(l0, "temperature"@, spec_float32_json(r.temperature), "tool_choice"@);
    lemma_lookup_opt_push(l1, "top_p"@, spec_float32_json(r.top_p), "tool_choice"@);
    lemma_lookup_opt_push(l2, "n"@, match r.n { Some(n) => Some(JsonView::UInt(n as u64)), None => None }, "tool_choice"@);
    lemma_lookup_opt_push(l3, "stream"@, match r.stream { Some(b) => Some(JsonView::Bool(b)), None => None }, "tool_choice"@);
    lemma_lookup_opt_push(l4, "stop"@, match r.stop { Some(texts) => Some(JsonView::Array(spec_texts_json(texts))), None => None }, "tool_choice"@);
    lemma_lookup_opt_push(l5, "max_tokens"@, match r.max_tokens { Some(n) => Some(JsonView::UInt(n as u64)), None => None }, "tool_choice"@);
    lemma_lookup_opt_push(l6, "presence_penalty"@, spec_float32_json(r.presence_penalty), "tool_choice"@);
    lemma_lookup_opt_push(l7, "frequency_penalty"@, spec_float32_json(r.frequency_penalty), "tool_choice"@);
    lemma_lookup_opt_push(l8, "user"@, match r.user { Some(u) => Some(JsonView::Text(u)), None => None }, "tool_choice"@);
    lemma_lookup_opt_push(l9, "tools"@, match r.tools { Some(tools) => Some(JsonView::Array(spec_tools_json(tools))), None => None }, "tool_choice"@);
    lemma_lookup_opt_push(l10, "tool_choice"@, r.tool_choice, "tool_choice"@);
    crate::json::lemma_entries_lookup_concat(l11, r.extra, "tool_choice"@);
}

fn u32_field(v: &JsonValue, key: &str) -> (r: Option<u32>)
    ensures
        r == spec_u32_field(v@, key@),
{
    match v.get(key) {
        Some(member) => match member.as_u64() {
            Some(n) => {
                if n <= u32::MAX as u64 {
                    Some(n as u32)
                } else {
                    None
                }
            },
            None => None,
        },
        None => None,
    }
}

fn opt_text_field(v: &JsonValue, key: &str) -> (r: Option<Option<String>>)
    ensures
        match r {
            Some(Some(s)) => spec_opt_text_field(v@, key@) == Some(Some(s@)),
            Some(None) => spec_opt_text_field(v@, key@) == Some(None::<Seq<char>>),
            None => spec_opt_text_field(v@, key@) is None,
        },
{
    match v.get(key) {
        None => Some(None),
        Some(member) => match member {
            JsonValue::Null => Some(None),
            JsonValue::Text(t) => Some(Some(t.clone())),
            _ => None,
        },
    }
}

fn text_field(v: &JsonValue, key: &str) -> (r: Option<String>)
    ensures
        match r {
            Some(s) => spec_text_field(v@, key@) == Some(s@),
            None => spec_text_field(v@, key@) is None,
        },
{
    match v.get(key) {
        Some(member) => match member.as_str() {
            Some(s) => Some(s.clone()),
            None => None,
        },
        None => None,
    }
}

fn parse_usage(v: &JsonValue) -> (r: Option<Usage>)
    ensures
        r == spec_parse_usage(v@),
{
    match (
        u32_field(v, "prompt_tokens"),
        u32_field(v, "completion_tokens"),
        u32_field(v, "total_tokens"),
    ) {
        (Some(prompt), Some(completion), Some(total)) => Some(
            Usage { prompt_tokens: prompt, completion_tokens: completion, total_tokens: total },
        ),
        _ => None,
    }
}

fn parse_function_call(v: &JsonValue) -> (r: Option<FunctionCall>)
    ensures
        match r {
            Some(f) => spec_parse_function_call(v@) == Some(f@),
            None => spec_parse_function_call(v@) is None,
        },
{
    match (text_field(v, "name"), text_field(v, "arguments")) {
        (Some(name), Some(arguments)) => Some(FunctionCall { name, arguments }),
        _ => None,
    }
}

fn parse_tool_call(v: &JsonValue) -> (r: Option<ToolCall>)
    ensures
        match r {
            Some(tc) => spec_parse_tool_call(v@) == Some(tc@),
            None => spec_parse_tool_call(v@) is None,
        },
{
    match (text_field(v, "id"), text_field(v, "type"), v.get("function")) {
        (Some(id), Some(call_type), Some(f)) => match parse_function_call(f) {
            Some(function) => Some(ToolCall { id, call_type, function }),
            None => None,
        },
        _ => None,
    }
}

proof fn lemma_parse_tool_calls_prefix(items: Seq<JsonView>, k: int)
    requires
        0 <= k <= items.len(),
        forall|j: int| 0 <= j < k ==> #[trigger] spec_parse_tool_call(items[j]) is Some,
    ensures
        spec_parse_tool_calls(items) == match spec_parse_tool_calls(items.skip(k)) {
            Some(rest) => Some(
                Seq::new(k as nat, |j: int| spec_parse_tool_call(items[j])->0) + rest,
            ),
            None => None::<Seq<ToolCallView>>,
        },
    decreases k,
{
    if k == 0 {
        assert(items.skip(0) =~= items);
        match spec_parse_tool_calls(items) {
            Some(all) => {
                assert(Seq::new(0, |j: int| spec_parse_tool_call(items[j])->0) + all =~= all);
            },
            None => {},
        }
    } else {
        assert(items.len() > 0);
        lemma_parse_tool_calls_prefix(items.drop_first(), k - 1);
        assert(forall|j: int|
            0 <= j < k - 1 ==> #[trigger] spec_parse_tool_call(items.drop_first()[j])
                == spec_parse_tool_call(items[j + 1]));
        assert(items.drop_first().skip(k - 1) =~= items.skip(k));
        match spec_parse_tool_calls(items.skip(k)) {
            Some(rest) => {
                assert(seq![spec_parse_tool_call(items[0])->0] + (Seq::new(
                    (k - 1) as nat,
                    |j: int| spec_parse_tool_call(items.drop_first()[j])->0,
                ) + rest) =~= Seq::new(k as nat, |j: int| spec_parse_tool_call(items[j])->0)
                    + rest);
            },
            None => {},
        }
    }
}

fn parse_tool_calls(items: &Vec<JsonValue>) -> (r: Option<Vec<ToolCall>>)
    ensures
        match r {
            Some(out) => spec_parse_tool_calls(view_seq(items@)) == Some(out.deep_view()),
            None => spec_parse_tool_calls(view_seq(items@)) is None,
        },
{
    let ghost item_views = view_seq(items@);
    proof {
        lemma_view_seq(items@);
    }
    let mut out: Vec<ToolCall> = Vec::new();
    let n = items.len();
    for i in 0..n
        invariant
            n == items@.len(),
            item_views == view_seq(items@),
            item_views.len() == n,
            forall|j: int| 0 <= j < n ==> item_views[j] == #[trigger] items@[j]@,
            out@.len() == i,
            forall|j: int|
                0 <= j < i ==> #[trigger] spec_parse_tool_call(item_views[j]) == Some(
                    out@[j].deep_view(),
                ),
    {
        match parse_tool_call(&items[i]) {
            Some(tc) => {
                out.push(tc);
            },
            None => {
                proof {
                    lemma_parse_tool_calls_prefix(item_views, i as int);
                    assert(item_views.skip(i as int)[0] == item_views[i as int]);
                    assert(spec_parse_tool_calls(item_views.skip(i as int)) is None);
                }
                return None;
            },
        }
    }
    proof {
        lemma_parse_tool_calls_prefix(item_views, n as int);
        assert(item_views.skip(n as int) =~= Seq::<JsonView>::empty());
        assert(spec_parse_tool_calls(item_views) == Some(
            Seq::new(n as nat, |j: int| spec_parse_tool_call(item_views[j])->0),
        ));
        assert(out.deep_view() =~= Seq::new(
            n as nat,
            |j: int| spec_parse_tool_call(item_views[j])->0,
        ));
    }
    Some(out)
}

fn parse_message(v: &JsonValue) -> (r: Option<Message>)
    ensures
        match r {
            Some(m) => spec_parse_message(v@) == Some(m@),
            None => spec_parse_message(v@) is None,
        },
{
    let role = match text_field(v, "role") {
        Some(role) => role,
        None => {
            return None;
        },
    };
    let name = match opt_text_field(v, "name") {
        Some(name) => name,
        None => {
            return None;
        },
    };
    let content: String = match v.get("content") {
        None => String::new(),
        Some(member) => match member.as_str() {
            Some(t) => t.clone(),
            None => {
                return None;
            },
        },
    };
    let tool_calls: Option<Vec<ToolCall>> = match v.get("tool_calls") {
        None => None,
        Some(member) => match member {
            JsonValue::Null => None,
            JsonValue::Array(items) => match parse_tool_calls(items) {
                Some(tcs) => Some(tcs),
                None => {
                    return None;
                },
            },
            _ => {
                return None;
            },
        },
    };
    Some(Message { role, content, name, tool_calls })
}

fn parse_choice(v: &JsonValue) -> (r: Option<Choice>)
    ensures
        match r {
            Some(c) => spec_parse_choice(v@) == Some(c@),
            None => spec_parse_choice(v@) is None,
        },
{
    match (u32_field(v, "index"), v.get("message"), opt_text_field(v, "finish_reason")) {
        (Some(index), Some(m), Some(finish_reason)) => match parse_message(m) {
            Some(message) => Some(Choice { index, message, finish_reason }),
            None => None,
        },
        _ => None,
    }
}

proof fn lemma_parse_choices_prefix(items: Seq<JsonView>, k: int)
    requires
        0 <= k <= items.len(),
        forall|j: int| 0 <= j < k ==> #[trigger] spec_parse_choice(items[j]) is Some,
    ensures
        spec_parse_choices(items) == match spec_parse_choices(items.skip(k)) {
            Some(rest) => Some(
                Seq::new(k as nat, |j: int| spec_parse_choice(items[j])->0) + rest,
            ),
            None => None::<Seq<ChoiceView>>,
        },
    decreases k,
{
    if k == 0 {
        assert(items.skip(0) =~= items);
        match spec_parse_choices(items) {
            Some(all) => {
                assert(Seq::new(0, |j: int| spec_parse_choice(items[j])->0) + all =~= all);
            },
            None => {},
        }
    } else {
        assert(items.len() > 0);
        lemma_parse_choices_prefix(items.drop_first(), k - 1);
        assert(forall|j: int|
            0 <= j < k - 1 ==> #[trigger] spec_parse_choice(items.drop_first()[j])
                == spec_parse_choice(items[j + 1]));
        assert(items.drop_first().skip(k - 1) =~= items.skip(k));
        match spec_parse_choices(items.skip(k)) {
            Some(rest) => {
                assert(seq![spec_parse_choice(items[0])->0] + (Seq::new(
                    (k - 1) as nat,
                    |j: int| spec_parse_choice(items.drop_first()[j])->0,
                ) + rest) =~= Seq::new(k as nat, |j: int| spec_parse_choice(items[j])->0)
                    + rest);
            },
            None => {},
        }
    }
}

fn parse_choices(items: &Vec<JsonValue>) -> (r: Option<Vec<Choice>>)
    ensures
        match r {
            Some(out) => spec_parse_choices(view_seq(items@)) == Some(out.deep_view()),
            None => spec_parse_choices(view_seq(items@)) is None,
        },
{
    let ghost item_views = view_seq(items@);
    proof {
        lemma_view_seq(items@);
    }
    let mut out: Vec<Choice> = Vec::new();
    let n = items.len();
    for i in 0..n
        invariant
            n == items@.len(),
            item_views == view_seq(items@),
            item_views.len() == n,
            forall|j: int| 0 <= j < n ==> item_views[j] == #[trigger] items@[j]@,
            out@.len() == i,
            forall|j: int|
                0 <= j < i ==> #[trigger] spec_parse_choice(item_views[j]) == Some(
                    out@[j].deep_view(),
                ),
    {
        match parse_choice(&items[i]) {
            Some(c) => {
                out.push(c);
            },
            None => {
                proof {
                    lemma_parse_choices_prefix(item_views, i as int);
                    assert(item_views.skip(i as int)[0] == item_views[i as int]);
                    assert(spec_parse_choices(item_views.skip(i as int)) is None);
                }
                return None;
            },
        }
    }
    proof {
        lemma_parse_choices_prefix(item_views, n as int);
        assert(item_views.skip(n as int) =~= Seq::<JsonView>::empty());
        assert(spec_parse_choices(item_views) == Some(
            Seq::new(n as nat, |j: int| spec_parse_choice(item_views[j])->0),
        ));
        assert(out.deep_view() =~= Seq::new(
            n as nat,
            |j: int| spec_parse_choice(item_views[j])->0,
        ));
    }
    Some(out)
}

fn parse_response(v: &JsonValue) -> (r: Option<ChatCompletionResponse>)
    ensures
        match r {
            Some(resp) => spec_parse_response(v@) == Some(resp@),
            None => spec_parse_response(v@) is None,
        },
{
    let id = match text_field(v, "id") {
        Some(id) => id,
        None => {
            return None;
        },
    };
    let object = match text_field(v, "object") {
        Some(object) => object,
        None => {
            return None;
        },
    };
    let created: i64 = match v.get("created") {
        Some(member) => match member.as_i64() {
            Some(c) => c,
            None => {
                return None;
            },
        },
        None => {
            return None;
        },
    };
    let model = match text_field(v, "model") {
        Some(model) => model,
        None => {
            return None;
        },
    };
    let choices = match v.get("choices") {
        Some(member) => match member {
            JsonValue::Array(items) => match parse_choices(items) {
                Some(choices) => choices,
                None => {
                    return None;
                },
            },
            _ => {
                return None;
            },
        },
        None => {
            return None;
        },
    };
    let usage = match v.get("usage") {
        Some(member) => match parse_usage(member) {
            Some(usage) => usage,
            None => {
                return None;
            },
        },
        None => {
            return None;
        },
    };
    Some(ChatCompletionResponse { id, object, created, model, choices, usage })
}

impl Provider for LightspeedCoreProvider {
    open spec fn spec_request_payload(&self, request: ChatCompletionRequestView) -> JsonView {
        spec_request_json(request)
    }

    open spec fn spec_response(
        &self,
        body: JsonView,
        model: Seq<char>,
        id: Seq<char>,
        created: i64,
    ) -> Option<ChatCompletionResponseView> {
        spec_parse_response(body)
    }

    open spec fn spec_streaming_text(&self, body: JsonView) -> Option<Seq<char>> {
        spec_choices_text(body)
    }

    #[verifier::rlimit(100)]
    #[verifier::spinoff_prover]
    fn transform_request(&self, request: ChatCompletionRequest) -> (v: JsonValue) {
        let ghost rv = request@;
        let mut entries: Vec<(String, JsonValue)> = Vec::new();
        proof {
            assert(view_entries(entries@) =~= Seq::<(Seq<char>, JsonView)>::empty());
        }
        obj_push(&mut entries, "model", JsonValue::Text(request.model));
        obj_push(&mut entries, "messages", JsonValue::Array(messages_json(request.messages)));
        let ghost step0 = seq![
            ("model"@, JsonView::Text(rv.model)),
            ("messages"@, JsonView::Array(spec_messages_json(rv.messages))),
        ];
        proof {
            assert(view_entries(entries@) =~= step0);
        }
        match request.temperature {
            Some(f) => {
                obj_push(&mut entries, "temperature", JsonValue::Float32Bits(f.bits));
            },
            None => {},
        }
        let ghost step1 = opt_push(step0, "temperature"@, spec_float32_json(rv.temperature));
        proof {
            assert(view_entries(entries@) =~= step1);
        }
        match request.top_p {
            Some(f) => {
                obj_push(&mut entries, "top_p", JsonValue::Float32Bits(f.bits));
            },
            None => {},
        }
        let ghost step2 = opt_push(step1, "top_p"@, spec_float32_json(rv.top_p));
        proof {
            assert(view_entries(entries@) =~= step2);
        }
        match request.n {
            Some(n) => {
                obj_push(&mut entries, "n", JsonValue::UInt(n as u64));
            },
            None => {},
        }
        let ghost step3 = opt_push(
            step2,
            "n"@,
            match rv.n {
                Some(n) => Some(JsonView::UInt(n as u64)),
                None => None,
            },
        );
        proof {
            assert(view_entries(entries@) =~= step3);
        }
        match request.stream {
            Some(b) => {
                obj_push(&mut entries, "stream", JsonValue::Bool(b));
            },
            None => {},
        }
        let ghost step4 = opt_push(
            step3,
            "stream"@,
            match rv.stream {
                Some(b) => Some(JsonView::Bool(b)),
                None => None,
            },
        );
        proof {
            assert(view_entries(entries@) =~= step4);
        }
        match request.stop {
            Some(texts) => {
                obj_push(&mut entries, "stop", JsonValue::Array(texts_json(texts)));
            },
            None => {},
        }
        let ghost step5 = opt_push(
            step4,
            "stop"@,
            match rv.stop {
                Some(texts) => Some(JsonView::Array(spec_texts_json(texts))),
                None => None,
            },
        );
        proof {
            assert(view_entries(entries@) =~= step5);
        }
        match request.max_tokens {
            Some(n) => {
                obj_push(&mut entries, "max_tokens", JsonValue::UInt(n as u64));
            },
            None => {},
        }
        let ghost step6 = opt_push(
            step5,
            "max_tokens"@,
            match rv.max_tokens {
                Some(n) => Some(JsonView::UInt(n as u64)),
                None => None,
            },
        );
        proof {
            assert(view_entries(entries@) =~= step6);
        }
        match request.presence_penalty {
            Some(f) => {
                obj_push(&mut entries, "presence_penalty", JsonValue::Float32Bits(f.bits));
            },
            None => {},
        }
        let ghost step7 = opt_push(
            step6,
            "presence_penalty"@,
            spec_float32_json(rv.presence_penalty),
        );
        proof {
            assert(view_entries(entries@) =~= step7);
        }
        match request.frequency_penalty {
            Some(f) => {
                obj_push(&mut entries, "frequency_penalty", JsonValue::Float32Bits(f.bits));
            },
            None => {},
        }
        let ghost step8 = opt_push(
            step7,
            "frequency_penalty"@,
            spec_float32_json(rv.frequency_penalty),
        );
        proof {
            assert(view_entries(entries@) =~= step8);
        }
        match request.user {
            Some(u) => {
                obj_push(&mut entries, "user", JsonValue::Text(u));
            },
            None => {},
        }
        let ghost step9 = opt_push(
            step8,
            "user"@,
            match rv.user {
                Some(u) => Some(JsonView::Text(u)),
                None => None,
            },
        );
        proof {
            assert(view_entries(entries@) =~= step9);
        }
        match request.tools {
            Some(tools) => {
                obj_push(&mut entries, "tools", JsonValue::Array(tools_json(tools)));
            },
            None => {},
        }
        let ghost step10 = opt_push(
            step9,
            "tools"@,
            match rv.tools {
                Some(tools) => Some(JsonView::Array(spec_tools_json(tools))),
                None => None,
            },
        );
        proof {
            assert(view_entries(entries@) =~= step10);
        }
        match request.tool_choice {
            Some(choice) => {
                obj_push(&mut entries, "tool_choice", choice);
            },
            None => {},
        }
        let ghost step11 = opt_push(step10, "tool_choice"@, rv.tool_choice);
        proof {
            assert(view_entries(entries@) =~= step11);
        }
        let mut extra = request.extra;
        let ghost extra_before = extra@;
        let ghost extra_deep = extra.deep_view();
        let ghost entries_before = entries@;
        entries.append(&mut extra);
        proof {
            assert(entries@ == entries_before + extra_before);
            lemma_view_entries_concat(entries_before, extra_before);
            lemma_view_entries(extra_before);
            assert(extra_deep == rv.extra);
            assert forall|j: int|
                0 <= j < extra_before.len() implies view_entries(extra_before)[j]
                == rv.extra[j] by {
                assert(view_entries(extra_before)[j] == (extra_before[j].0@, extra_before[j].1@));
                assert(rv.extra[j] == extra_before[j].deep_view());
            }
            assert(view_entries(extra_before) =~= rv.extra);
            assert(view_entries(entries@) =~= step11 + rv.extra);
        }
        JsonValue::Object(entries)
    }

    fn transform_response(&self, backend_response: &JsonValue, model: &str) -> (r: Result<
        ChatCompletionResponse,
        AppError,
    >) {
        match parse_response(backend_response) {
            Some(response) => {
                proof {
                    let witness_tail = Seq::new(
                        36,
                        |i: int|
                            if i == 8 || i == 13 || i == 18 || i == 23 {
                                '-'
                            } else {
                                '0'
                            },
                    );
                    assert(is_uuid_hyphenated(witness_tail));
                    let witness_id = "chatcmpl-"@ + witness_tail;
                    assert(is_response_id(witness_id));
                    assert(self.spec_response(backend_response@, model@, witness_id, 0) == Some(
                        response@,
                    ));
                }
                Ok(response)
            },
            None => {
                let mut detail: String =
                    "Failed to parse backend response as OpenAI format. Response: ".to_owned();
                let quoted = backend_response.render();
                detail.append(quoted.as_str());
                Err(AppError::TransformError(detail))
            },
        }
    }

    fn extract_streaming_text(&self, backend_response: &JsonValue) -> (r: Result<
        String,
        AppError,
    >) {
        match backend_response.get("choices") {
            Some(member) => match member.as_array() {
                Some(items) => {
                    if items.len() > 0 {
                        proof {
                            lemma_view_seq(items@);
                        }
                        let first = &items[0];
                        match first.get("message") {
                            Some(message) => match message.get("content") {
                                Some(content) => match content.as_str() {
                                    Some(t) => {
                                        return Ok(t.clone());
                                    },
                                    None => {},
                                },
                                None => {},
                            },
                            None => {},
                        }
                    }
                },
                None => {},
            },
            None => {},
        }
        Err(
            AppError::TransformError(
                "Could not extract text from backend response for streaming".to_owned(),
            ),
        )
    }
}

} // verus!

//! The canonical wire shapes exchanged with callers: chat-completion
//! requests, responses, streaming chunks and the model listing.
//!
//! Each shape carries only plain values, so contracts can speak of it through
//! a mathematical view. Float-valued sampling parameters are held as IEEE-754
//! bit patterns (`FloatBits32`), which the unverified boundary converts to and
//! from machine floats without loss.

use vstd::prelude::*;

use crate::json::{JsonValue, JsonView};

verus! {

/// A 32-bit IEEE-754 float carried by its exact bit pattern.
#[derive(Debug, Clone, Copy, PartialEq, Eq, Structural)]
pub struct FloatBits32 {
    pub bits: u32,
}

/// One chat message.
#[derive(Debug)]
pub struct Message {
    /// The speaker's role: a free-form string, not a closed set.
    pub role: String,
    /// The message text; may be empty.
    pub content: String,
    /// An optional participant name.
    pub name: Option<String>,
    /// Tool invocations attached to the message, if any.
    pub tool_calls: Option<Vec<ToolCall>>,
}

/// One tool invocation within a message.
#[derive(Debug)]
pub struct ToolCall {
    pub id: String,
    pub call_type: String,
    pub function: FunctionCall,
}

/// The function named by a tool invocation.
#[derive(Debug)]
pub struct FunctionCall {
    pub name: String,
    pub arguments: String,
}

/// A tool offered to the backend.
#[derive(Debug)]
pub struct Tool {
    pub tool_type: String,
    pub function: FunctionDefinition,
}

/// The function a tool exposes.
#[derive(Debug)]
pub struct FunctionDefinition {
    pub name: String,
    pub description: Option<String>,
    pub parameters: JsonValue,
}

/// An inbound chat-completion request.
#[derive(Debug)]
pub struct ChatCompletionRequest {
    pub model: String,
    /// Caller-significant order; never reordered.
    pub messages: Vec<Message>,
    pub temperature: Option<FloatBits32>,
    pub top_p: Option<FloatBits32>,
    pub n: Option<u32>,
    pub stream: Option<bool>,
    pub stop: Option<Vec<String>>,
    pub max_tokens: Option<u32>,
    pub presence_penalty: Option<FloatBits32>,
    pub frequency_penalty: Option<FloatBits32>,
    pub user: Option<String>,
    pub tools: Option<Vec<Tool>>,
    pub tool_choice: Option<JsonValue>,
    /// Unrecognized top-level fields, preserved in arrival order.
    pub extra: Vec<(String, JsonValue)>,
}

/// Token accounting for one response.
#[derive(Debug, Clone, Copy, PartialEq, Eq, Structural)]
pub struct Usage {
    pub prompt_tokens: u32,
    pub completion_tokens: u32,
    pub total_tokens: u32,
}

/// One completion alternative; this gateway always produces exactly one.
#[derive(Debug)]
pub struct Choice {
    pub index: u32,
    pub message: Message,
    pub finish_reason: Option<String>,
}

/// A complete chat-completion response.
#[derive(Debug)]
pub struct ChatCompletionResponse {
    pub id: String,
    pub object: String,
    pub created: i64,
    pub model: String,
    pub choices: Vec<Choice>,
    pub usage: Usage,
}

/// The partial payload of one streaming chunk.
#[derive(Debug)]
pub struct Delta {
    pub role: Option<String>,
    pub content: Option<String>,
    pub tool_calls: Option<Vec<ToolCall>>,
}

/// One completion alternative within a streaming chunk.
#[derive(Debug)]
pub struct ChunkChoice {
    pub index: u32,
    pub delta: Delta,
    pub finish_reason: Option<String>,
}

/// One streaming chunk.
#[derive(Debug)]
pub struct ChatCompletionChunk {
    pub id: String,
    pub object: String,
    pub created: i64,
    pub model: String,
    pub choices: Vec<ChunkChoice>,
}

/// One entry of the model listing.
#[derive(Debug)]
pub struct Model {
    pub id: String,
    pub object: String,
    pub created: i64,
    pub owned_by: String,
}

/// The model listing.
#[derive(Debug)]
pub struct ModelsResponse {
    pub object: String,
    pub data: Vec<Model>,
}

// ----------------------------------------------------------------------------
// Mathematical views of the wire shapes.
// ----------------------------------------------------------------------------
pub struct MessageView {
    pub role: Seq<char>,
    pub content: Seq<char>,
    pub name: Option<Seq<char>>,
    pub tool_calls: Option<Seq<ToolCallView>>,
}

pub struct ToolCallView {
    pub id: Seq<char>,
    pub call_type: Seq<char>,
    pub function: FunctionCallView,
}

pub struct FunctionCallView {
    pub name: Seq<char>,
    pub arguments: Seq<char>,
}

pub struct ToolView {
    pub tool_type: Seq<char>,
    pub function: FunctionDefinitionView,
}

pub struct FunctionDefinitionView {
    pub name: Seq<char>,
    pub description: Option<Seq<char>>,
    pub parameters: JsonView,
}

pub struct ChatCompletionRequestView {
    pub model: Seq<char>,
    pub messages: Seq<MessageView>,
    pub temperature: Option<FloatBits32>,
    pub top_p: Option<FloatBits32>,
    pub n: Option<u32>,
    pub stream: Option<bool>,
    pub stop: Option<Seq<Seq<char>>>,
    pub max_tokens: Option<u32>,
    pub presence_penalty: Option<FloatBits32>,
    pub frequency_penalty: Option<FloatBits32>,
    pub user: Option<Seq<char>>,
    pub tools: Option<Seq<ToolView>>,
    pub tool_choice: Option<JsonView>,
    pub extra: Seq<(Seq<char>, JsonView)>,
}

pub struct ChoiceView {
    pub index: u32,
    pub message: MessageView,
    pub finish_reason: Option<Seq<char>>,
}

pub struct ChatCompletionResponseView {
    pub id: Seq<char>,
    pub object: Seq<char>,
    pub created: i64,
    pub model: Seq<char>,
    pub choices: Seq<ChoiceView>,
    pub usage: Usage,
}

pub struct DeltaView {
    pub role: Option<Seq<char>>,
    pub content: Option<Seq<char>>,
    pub tool_calls: Option<Seq<ToolCallView>>,
}

pub struct ChunkChoiceView {
    pub index: u32,
    pub delta: DeltaView,
    pub finish_reason: Option<Seq<char>>,
}

pub struct ChatCompletionChunkView {
    pub id: Seq<char>,
    pub object: Seq<char>,
    pub created: i64,
    pub model: Seq<char>,
    pub choices: Seq<ChunkChoiceView>,
}

pub struct ModelView {
    pub id: Seq<char>,
    pub object: Seq<char>,
    pub created: i64,
    pub owned_by: Seq<char>,
}

pub struct ModelsResponseView {
    pub object: Seq<char>,
    pub data: Seq<ModelView>,
}

impl DeepView for Message {
    type V = MessageView;

    open spec fn deep_view(&self) -> MessageView {
        MessageView {
            role: self.role@,
            content: self.content@,
            name: self.name.deep_view(),
            tool_calls: self.tool_calls.deep_view(),
        }
    }
}

impl View for Message {
    type V = MessageView;

    open spec fn view(&self) -> MessageView {
        self.deep_view()
    }
}

impl DeepView for ToolCall {
    type V = ToolCallView;

    open spec fn deep_view(&self) -> ToolCallView {
        ToolCallView {
            id: self.id@,
            call_type: self.call_type@,
            function: self.function.deep_view(),
        }
    }
}

impl View for ToolCall {
    type V = ToolCallView;

    open spec fn view(&self) -> ToolCallView {
        self.deep_view()
    }
}

impl DeepView for FunctionCall {
    type V = FunctionCallView;

    open spec fn deep_view(&self) -> FunctionCallView {
        FunctionCallView { name: self.name@, arguments: self.arguments@ }
    }
}

impl View for FunctionCall {
    type V = FunctionCallView;

    open spec fn view(&self) -> FunctionCallView {
        self.deep_view()
    }
}

impl DeepView for Tool {
    type V = ToolView;

    open spec fn deep_view(&self) -> ToolView {
        ToolView { tool_type: self.tool_type@, function: self.function.deep_view() }
    }
}

impl View for Tool {
    type V = ToolView;

    open spec fn view(&self) -> ToolView {
        self.deep_view()
    }
}

impl DeepView for FunctionDefinition {
    type V = FunctionDefinitionView;

    open spec fn deep_view(&self) -> FunctionDefinitionView {
        FunctionDefinitionView {
            name: self.name@,
            description: self.description.deep_view(),
            parameters: self.parameters@,
        }
    }
}

impl View for FunctionDefinition {
    type V = FunctionDefinitionView;

    open spec fn view(&self) -> FunctionDefinitionView {
        self.deep_view()
    }
}

impl DeepView for ChatCompletionRequest {
    type V = ChatCompletionRequestView;

    open spec fn deep_view(&self) -> ChatCompletionRequestView {
        ChatCompletionRequestView {
            model: self.model@,
            messages: self.messages.deep_view(),
            temperature: self.temperature,
            top_p: self.top_p,
            n: self.n,
            stream: self.stream,
            stop: self.stop.deep_view(),
            max_tokens: self.max_tokens,
            presence_penalty: self.presence_penalty,
            frequency_penalty: self.frequency_penalty,
            user: self.user.deep_view(),
            tools: self.tools.deep_view(),
            tool_choice: self.tool_choice.deep_view(),
            extra: self.extra.deep_view(),
        }
    }
}

impl View for ChatCompletionRequest {
    type V = ChatCompletionRequestView;

    open spec fn view(&self) -> ChatCompletionRequestView {
        self.deep_view()
    }
}

impl DeepView for Usage {
    type V = Usage;

    open spec fn deep_view(&self) -> Usage {
        *self
    }
}

impl DeepView for Choice {
    type V = ChoiceView;

    open spec fn deep_view(&self) -> ChoiceView {
        ChoiceView {
            index: self.index,
            message: self.message.deep_view(),
            finish_reason: self.finish_reason.deep_view(),
        }
    }
}

impl View for Choice {
    type V = ChoiceView;

    open spec fn view(&self) -> ChoiceView {
        self.deep_view()
    }
}

impl DeepView for ChatCompletionResponse {
    type V = ChatCompletionResponseView;

    open spec fn deep_view(&self) -> ChatCompletionResponseView {
        ChatCompletionResponseView {
            id: self.id@,
            object: self.object@,
            created: self.created,
            model: self.model@,
            choices: self.choices.deep_view(),
            usage: self.usage,
        }
    }
}

impl View for ChatCompletionResponse {
    type V = ChatCompletionResponseView;

    open spec fn view(&self) -> ChatCompletionResponseView {
        self.deep_view()
    }
}

impl DeepView for Delta {
    type V = DeltaView;

    open spec fn deep_view(&self) -> DeltaView {
        DeltaView {
            role: self.role.deep_view(),
            content: self.content.deep_view(),
            tool_calls: self.tool_calls.deep_view(),
        }
    }
}

impl View for Delta {
    type V = DeltaView;

    open spec fn view(&self) -> DeltaView {
        self.deep_view()
    }
}

impl DeepView for ChunkChoice {
    type V = ChunkChoiceView;

    open spec fn deep_view(&self) -> ChunkChoiceView {
        ChunkChoiceView {
            index: self.index,
            delta: self.delta.deep_view(),
            finish_reason: self.finish_reason.deep_view(),
        }
    }
}

impl View for ChunkChoice {
    type V = ChunkChoiceView;

    open spec fn view(&self) -> ChunkChoiceView {
        self.deep_view()
    }
}

impl DeepView for ChatCompletionChunk {
    type V = ChatCompletionChunkView;

    open spec fn deep_view(&self) -> ChatCompletionChunkView {
        ChatCompletionChunkView {
            id: self.id@,
            object: self.object@,
            created: self.created,
            model: self.model@,
            choices: self.choices.deep_view(),
        }
    }
}

impl View for ChatCompletionChunk {
    type V = ChatCompletionChunkView;

    open spec fn view(&self) -> ChatCompletionChunkView {
        self.deep_view()
    }
}

impl DeepView for Model {
    type V = ModelView;

    open spec fn deep_view(&self) -> ModelView {
        ModelView {
            id: self.id@,
            object: self.object@,
            created: self.created,
            owned_by: self.owned_by@,
        }
    }
}

impl View for Model {
    type V = ModelView;

    open spec fn view(&self) -> ModelView {
        self.deep_view()
    }
}

impl DeepView for ModelsResponse {
    type V = ModelsResponseView;

    open spec fn deep_view(&self) -> ModelsResponseView {
        ModelsResponseView { object: self.object@, data: self.data.deep_view() }
    }
}

impl View for ModelsResponse {
    type V = ModelsResponseView;

    open spec fn view(&self) -> ModelsResponseView {
        self.deep_view()
    }
}

} // verus!

//! The records of the chat-completion API, each with its mathematical model.

use crate::json::{json_model, number_model, JsonNumber, JsonValue};
use vstd::prelude::*;

verus! {

/// The models of the items of a sequence, in order.
pub open spec fn views<T: View>(items: Seq<T>) -> Seq<T::V> {
    items.map_values(|item: T| item@)
}

/// The content of an optional text.
pub open spec fn optional_text(text: Option<String>) -> Option<Seq<char>> {
    match text {
        Some(text) => Some(text@),
        None => None,
    }
}

/// The model of an optional item.
pub open spec fn optional_view<T: View>(item: Option<T>) -> Option<T::V> {
    match item {
        Some(item) => Some(item@),
        None => None,
    }
}

/// The name and arguments of a function that the model wants called.
#[derive(Debug, Default, Clone, PartialEq)]
pub struct FunctionCall {
    /// The name of the function to call.
    pub name: String,
    /// The arguments, as the model wrote them. They are meant to be JSON but
    /// are neither checked nor changed here.
    pub arguments: String,
}

/// The content of a [`FunctionCall`].
pub struct FunctionCallModel {
    pub name: Seq<char>,
    pub arguments: Seq<char>,
}

impl View for FunctionCall {
    type V = FunctionCallModel;

    open spec fn view(&self) -> FunctionCallModel {
        FunctionCallModel { name: self.name@, arguments: self.arguments@ }
    }
}

/// A message of a conversation, or the part of one that a streamed chunk
/// carries.
#[derive(Debug, Default, Clone, PartialEq)]
pub struct ChatCompletionMessage {
    /// The role of the author: `system`, `user`, `assistant` or `function`.
    /// Empty where a streamed part names none.
    pub role: String,
    /// The text of the message.
    pub content: Option<String>,
    /// The function call that the model asks for.
    pub function_call: Option<FunctionCall>,
}

/// The content of a [`ChatCompletionMessage`].
pub struct MessageModel {
    pub role: Seq<char>,
    pub content: Option<Seq<char>>,
    pub function_call: Option<FunctionCallModel>,
}

impl View for ChatCompletionMessage {
    type V = MessageModel;

    open spec fn view(&self) -> MessageModel {
        MessageModel {
            role: self.role@,
            content: optional_text(self.content),
            function_call: optional_view(self.function_call),
        }
    }
}

/// One choice of a streamed chunk.
#[derive(Debug, Clone, PartialEq)]
pub struct ChatCompletionChunkChoice {
    pub index: u64,
    pub delta: ChatCompletionMessage,
    pub finish_reason: Option<String>,
}

/// The content of a [`ChatCompletionChunkChoice`].
pub struct ChunkChoiceModel {
    pub index: u64,
    pub delta: MessageModel,
    pub finish_reason: Option<Seq<char>>,
}

impl View for ChatCompletionChunkChoice {
    type V = ChunkChoiceModel;

    open spec fn view(&self) -> ChunkChoiceModel {
        ChunkChoiceModel {
            index: self.index,
            delta: self.delta@,
            finish_reason: optional_text(self.finish_reason),
        }
    }
}

/// One update of a streamed chat completion.
#[derive(Debug, Default, Clone, PartialEq)]
pub struct ChatCompletionChunk {
    /// The identifier of the completion that the chunk belongs to.
    pub id: String,
    pub object: String,
    pub created: u64,
    pub model: String,
    pub choices: Vec<ChatCompletionChunkChoice>,
}

/// The content of a [`ChatCompletionChunk`].
pub struct ChunkModel {
    pub id: Seq<char>,
    pub object: Seq<char>,
    pub created: u64,
    pub model: Seq<char>,
    pub choices: Seq<ChunkChoiceModel>,
}

impl View for ChatCompletionChunk {
    type V = ChunkModel;

    open spec fn view(&self) -> ChunkModel {
        ChunkModel {
            id: self.id@,
            object: self.object@,
            created: self.created,
            model: self.model@,
            choices: views(self.choices@),
        }
    }
}

/// The description of a function that the model may call.
#[derive(Debug, Default, Clone, PartialEq)]
pub struct Function {
    pub name: String,
    pub description: Option<String>,
    /// The parameters that the function takes, as a JSON value of the
    /// caller's own making.
    pub parameters: serde_json::Value,
}

/// The content of a [`Function`].
pub struct FunctionModel {
    pub name: Seq<char>,
    pub description: Option<Seq<char>>,
    pub parameters: JsonValue,
}

impl View for Function {
    type V = FunctionModel;

    open spec fn view(&self) -> FunctionModel {
        FunctionModel {
            name: self.name@,
            description: optional_text(self.description),
            parameters: json_model(self.parameters),
        }
    }
}

/// How the model is to treat the functions of a request.
#[derive(Debug, Default, Clone, PartialEq)]
pub enum FunctionCallType {
    /// The model calls no function.
    #[default]
    Never,
    /// The model chooses between an answer and a call.
    Auto,
    /// The model calls the named function.
    Name(String),
}

/// The content of a [`FunctionCallType`].
pub enum FunctionCallTypeModel {
    Never,
    Auto,
    Name(Seq<char>),
}

impl View for FunctionCallType {
    type V = FunctionCallTypeModel;

    open spec fn view(&self) -> FunctionCallTypeModel {
        match self {
            FunctionCallType::Never => FunctionCallTypeModel::Never,
            FunctionCallType::Auto => FunctionCallTypeModel::Auto,
            FunctionCallType::Name(name) => FunctionCallTypeModel::Name(name@),
        }
    }
}

/// The sequences at which the model stops generating.
#[derive(Debug, Clone, PartialEq)]
pub enum StopToken {
    SingleToken(String),
    MultipleTokens(Vec<String>),
}

/// The content of a [`StopToken`].
pub enum StopTokenModel {
    SingleToken(Seq<char>),
    MultipleTokens(Seq<Seq<char>>),
}

impl View for StopToken {
    type V = StopTokenModel;

    open spec fn view(&self) -> StopTokenModel {
        match self {
            StopToken::SingleToken(token) => StopTokenModel::SingleToken(token@),
            StopToken::MultipleTokens(tokens) => StopTokenModel::MultipleTokens(views(tokens@)),
        }
    }
}

/// The token counts of a completion, as the service reports them.
#[derive(Debug, Default, Clone, PartialEq)]
pub struct ChatCompletionUsage {
    /// Number of tokens in the prompt.
    pub prompt_tokens: u64,
    /// Number of tokens in the generated completion.
    pub completion_tokens: u64,
    /// Number of tokens that the request used in all.
    pub total_tokens: u64,
}

/// The content of a [`ChatCompletionUsage`].
pub struct UsageModel {
    pub prompt_tokens: u64,
    pub completion_tokens: u64,
    pub total_tokens: u64,
}

impl View for ChatCompletionUsage {
    type V = UsageModel;

    open spec fn view(&self) -> UsageModel {
        UsageModel {
            prompt_tokens: self.prompt_tokens,
            completion_tokens: self.completion_tokens,
            total_tokens: self.total_tokens,
        }
    }
}

/// One choice of a complete chat completion.
#[derive(Debug, Default, Clone, PartialEq)]
pub struct ChatCompletionChoice {
    /// The index of the choice in the list of choices.
    pub index: u64,
    /// The message that the model generated.
    pub message: ChatCompletionMessage,
    /// Why the model stopped: `stop`, `length` or `function_call`.
    pub finish_reason: String,
}

/// The content of a [`ChatCompletionChoice`].
pub struct ChoiceModel {
    pub index: u64,
    pub message: MessageModel,
    pub finish_reason: Seq<char>,
}

impl View for ChatCompletionChoice {
    type V = ChoiceModel;

    open spec fn view(&self) -> ChoiceModel {
        ChoiceModel {
            index: self.index,
            message: self.message@,
            finish_reason: self.finish_reason@,
        }
    }
}

/// A complete chat completion.
#[derive(Debug, Default, Clone, PartialEq)]
pub struct ChatCompletionObject {
    /// The identifier of the completion.
    pub id: String,
    /// The object type, `chat.completion`.
    pub object: String,
    /// When the completion was created, in seconds since the Unix epoch.
    pub created: u64,
    /// The model that generated the completion.
    pub model: String,
    /// The choices; more than one where the request asked for several.
    pub choices: Vec<ChatCompletionChoice>,
    pub usage: ChatCompletionUsage,
}

/// The content of a [`ChatCompletionObject`].
pub struct CompletionModel {
    pub id: Seq<char>,
    pub object: Seq<char>,
    pub created: u64,
    pub model: Seq<char>,
    pub choices: Seq<ChoiceModel>,
    pub usage: UsageModel,
}

impl View for ChatCompletionObject {
    type V = CompletionModel;

    open spec fn view(&self) -> CompletionModel {
        CompletionModel {
            id: self.id@,
            object: self.object@,
            created: self.created,
            model: self.model@,
            choices: views(self.choices@),
            usage: self.usage@,
        }
    }
}

/// A model that the service offers.
#[derive(Debug, Default, Clone, PartialEq)]
pub struct ModelObject {
    /// The identifier by which requests name the model.
    pub id: String,
    /// The object type, `model`.
    pub object: String,
    /// When the model was created, in seconds since the Unix epoch.
    pub created: u64,
    /// The organization that owns the model.
    pub owned_by: String,
}

/// The content of a [`ModelObject`].
pub struct ModelObjectModel {
    pub id: Seq<char>,
    pub object: Seq<char>,
    pub created: u64,
    pub owned_by: Seq<char>,
}

impl View for ModelObject {
    type V = ModelObjectModel;

    open spec fn view(&self) -> ModelObjectModel {
        ModelObjectModel {
            id: self.id@,
            object: self.object@,
            created: self.created,
            owned_by: self.owned_by@,
        }
    }
}

/// The answer to a request for the list of models.
#[derive(Debug, Clone, PartialEq)]
pub struct ListModelsResponse {
    pub object: String,
    pub data: Vec<ModelObject>,
}

/// The content of a [`ListModelsResponse`].
pub struct ListModelsModel {
    pub object: Seq<char>,
    pub data: Seq<ModelObjectModel>,
}

impl View for ListModelsResponse {
    type V = ListModelsModel;

    open spec fn view(&self) -> ListModelsModel {
        ListModelsModel {
            object: self.object@,
            data: views(self.data@),
        }
    }
}

/// A request for a chat completion.
///
/// The sampling parameters and the biases are JSON numbers: the request
/// carries each as the number that goes on the wire.
#[derive(Debug, Default, Clone, PartialEq)]
pub struct ChatCompletionRequest {
    /// The identifier of the model to use.
    pub model: String,
    /// The conversation so far.
    pub messages: Vec<ChatCompletionMessage>,
    /// The functions that the model may call.
    pub functions: Vec<Function>,
    /// How the model is to treat the functions.
    pub function_call: Option<FunctionCallType>,
    /// The sampling temperature, between 0 and 2.
    pub temperature: Option<serde_json::Number>,
    /// The probability mass of nucleus sampling.
    pub top_p: Option<serde_json::Number>,
    /// How many choices to generate.
    pub n: Option<u64>,
    /// Whether the answer is to be streamed in chunks.
    pub stream: Option<bool>,
    /// Where the model stops generating.
    pub stop: Option<StopToken>,
    /// The most tokens to generate.
    pub max_tokens: Option<u64>,
    /// The penalty on tokens that have appeared, between -2 and 2.
    pub presence_penalty: Option<serde_json::Number>,
    /// The penalty on tokens by their frequency, between -2 and 2.
    pub frequency_penalty: Option<serde_json::Number>,
    /// The bias on tokens, each named by its identifier in the tokenizer.
    /// Where a token occurs twice, the later bias counts.
    pub logit_bias: Option<Vec<(String, serde_json::Number)>>,
    /// An identifier of the end user.
    pub user: Option<String>,
}

/// The content of a [`ChatCompletionRequest`].
pub struct RequestModel {
    pub model: Seq<char>,
    pub messages: Seq<MessageModel>,
    pub functions: Seq<FunctionModel>,
    pub function_call: Option<FunctionCallTypeModel>,
    pub temperature: Option<JsonNumber>,
    pub top_p: Option<JsonNumber>,
    pub n: Option<u64>,
    pub stream: Option<bool>,
    pub stop: Option<StopTokenModel>,
    pub max_tokens: Option<u64>,
    pub presence_penalty: Option<JsonNumber>,
    pub frequency_penalty: Option<JsonNumber>,
    pub logit_bias: Option<Seq<(Seq<char>, JsonNumber)>>,
    pub user: Option<Seq<char>>,
}

/// The models of a list of biases: each token with the number that is its
/// bias.
pub open spec fn bias_models(biases: Seq<(String, serde_json::Number)>) -> Seq<
    (Seq<char>, JsonNumber),
> {
    biases.map_values(|b: (String, serde_json::Number)| (b.0@, number_model(b.1)))
}

/// The content of an optional JSON number.
pub open spec fn optional_number(n: Option<serde_json::Number>) -> Option<JsonNumber> {
    match n {
        Some(n) => Some(number_model(n)),
        None => None,
    }
}

impl View for ChatCompletionRequest {
    type V = RequestModel;

    open spec fn view(&self) -> RequestModel {
        RequestModel {
            model: self.model@,
            messages: views(self.messages@),
            functions: views(self.functions@),
            function_call: optional_view(self.function_call),
            temperature: optional_number(self.temperature),
            top_p: optional_number(self.top_p),
            n: self.n,
            stream: self.stream,
            stop: optional_view(self.stop),
            max_tokens: self.max_tokens,
            presence_penalty: optional_number(self.presence_penalty),
            frequency_penalty: optional_number(self.frequency_penalty),
            logit_bias: match self.logit_bias {
                Some(biases) => Some(bias_models(biases@)),
                None => None,
            },
            user: optional_text(self.user),
        }
    }
}

} // verus!

//! Client-side protocol for tool-calling conversations with a remote
//! large-language-model service.
//!
//! The library covers the data model for conversation messages and tool
//! schemas, fluent builders that assemble a conversation into one outbound
//! request, and the dispatch state machine that executes model-requested
//! tool calls and resubmits their results. The wire transport itself is an
//! external collaborator: callers perform the actual request/response
//! exchange and feed the outcome back into the state machine.

use vstd::prelude::*;

pub mod chat;
pub mod dispatch;
pub mod tool;

pub use chat::{
    AssistantMessage,
    ChatBuilder,
    ChatMessage,
    FunctionCall,
    Request,
    Response,
    ToolCall,
    ToolCallArgument,
};
pub use tool::{
    Function,
    ParameterBuilder,
    ParameterType,
    Parameters,
    Property,
    Tool,
    ToolBuilder,
};

verus! {

/// Supported LLM models.
#[derive(Debug)]
pub enum Model {
    Llama3_1_8B,
    Qwen3_32B,
    Llama4Scout,
}

/// The wire identifier of a model.
pub open spec fn model_text(m: Model) -> Seq<char> {
    match m {
        Model::Llama3_1_8B => "llama3.1:8b"@,
        Model::Qwen3_32B => "qwen3:32b"@,
        Model::Llama4Scout => "llama4-scout"@,
    }
}

impl Model {
    /// The identifier under which the remote service knows this model.
    pub fn as_str(&self) -> (r: &'static str)
        ensures
            r@ == model_text(*self),
    {
        match self {
            Model::Llama3_1_8B => "llama3.1:8b",
            Model::Qwen3_32B => "qwen3:32b",
            Model::Llama4Scout => "llama4-scout",
        }
    }
}

/// Creates a new [`ChatBuilder`] with the specified model.
pub fn chat(model: Model) -> (r: ChatBuilder)
    ensures
        r.model == model,
        r.messages@ == Seq::<ChatMessage>::empty(),
        r.tools@ == Seq::<Tool>::empty(),
{
    ChatBuilder::new(model)
}

/// Creates a new [`ToolBuilder`] with the specified function name.
pub fn tool(name: &str) -> (r: ToolBuilder)
    ensures
        r.wf(),
        r.deep_view() == (tool::ToolBuilderView {
            function: tool::FunctionView { name: name@, description: None, parameters: None },
            parameters: Seq::empty(),
        }),
{
    ToolBuilder::new(name)
}

/// Creates a new [`ParameterBuilder`] with the specified name and type.
pub fn parameter(name: &str, type_: ParameterType) -> (r: ParameterBuilder)
    ensures
        r.deep_view() == (tool::ParameterBuilderView {
            name: name@,
            type_: type_,
            description: None,
            required: false,
            enum_values: None,
        }),
{
    ParameterBuilder::new(name, type_)
}

} // verus!

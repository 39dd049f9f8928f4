//! Conversation messages, the model's replies, and the request builder.
//!
//! A conversation is an append-only, chronological sequence of
//! [`ChatMessage`] values. [`ChatBuilder`] assembles a model choice, the
//! messages and the advertised tools into one single-use [`Request`]; the
//! actual exchange with the remote service is the caller's transport's job.

use vstd::prelude::*;

use crate::Model;
use crate::model_text;
use crate::tool::Tool;

verus! {

/// A message in a chat; tagged `user`, `system`, `assistant` or `tool` on
/// the wire.
#[derive(Clone, Debug, PartialEq)]
pub enum ChatMessage {
    User { content: String },
    System { content: String },
    Assistant(AssistantMessage),
    Tool { content: String, tool_call_id: String },
}

/// The reply of the remote service: one assistant turn.
#[derive(Clone, Debug)]
pub struct Response {
    pub message: AssistantMessage,
}

/// One assistant turn: optional text, and the tool calls the model requests,
/// in order. The content is absent when the model chose only to request tool
/// invocations.
#[derive(Clone, Debug, PartialEq)]
pub struct AssistantMessage {
    pub content: Option<String>,
    pub tool_calls: Vec<ToolCall>,
}

/// One model-issued request to execute a tool, with the id under which its
/// result is reported back.
#[derive(Clone, Debug, PartialEq)]
pub struct ToolCall {
    pub id: String,
    pub function: FunctionCall,
}

/// The function a tool call names, with its arguments.
#[derive(Clone, Debug, PartialEq)]
pub struct FunctionCall {
    pub name: String,
    pub arguments: Vec<ToolCallArgument>,
}

/// An argument to be handed to a tool.
#[derive(Clone, Debug, PartialEq)]
pub struct ToolCallArgument {
    pub name: String,
    pub value: String,
}

/// The value of the first argument with the given name, if any. Lookup is
/// case-sensitive and the first match wins.
pub open spec fn argument_value(args: Seq<ToolCallArgument>, name: Seq<char>) -> Option<Seq<char>>
    decreases args.len(),
{
    if args.len() == 0 {
        None
    } else if args[0].name@ == name {
        Some(args[0].value@)
    } else {
        argument_value(args.drop_first(), name)
    }
}

impl FunctionCall {
    /// Looks an argument up by name.
    pub fn get(&self, argument: &str) -> (r: Option<String>)
        ensures
            match argument_value(self.arguments@, argument@) {
                Some(v) => r matches Some(s) && s@ == v,
                None => r is None,
            },
    {
        let needle = argument.to_owned();
        proof {
            assert(self.arguments@.skip(0) =~= self.arguments@);
        }
        let mut i: usize = 0;
        while i < self.arguments.len()
            invariant
                i <= self.arguments@.len(),
                needle@ == argument@,
                argument_value(self.arguments@, argument@) == argument_value(
                    self.arguments@.skip(i as int),
                    argument@,
                ),
            decreases self.arguments@.len() - i,
        {
            proof {
                assert(self.arguments@.skip(i as int)[0] == self.arguments@[i as int]);
                assert(self.arguments@.skip(i as int).drop_first() =~= self.arguments@.skip(
                    i as int + 1,
                ));
            }
            if self.arguments[i].name == needle {
                return Some(self.arguments[i].value.clone());
            }
            i += 1;
        }
        proof {
            assert(self.arguments@.skip(self.arguments@.len() as int) =~= Seq::<
                ToolCallArgument,
            >::empty());
        }
        None
    }
}

/// The assembled outbound request: the model's wire identifier, the
/// conversation, and the advertised tools (absent entirely when none were
/// supplied).
#[derive(Clone, Debug)]
pub struct Request {
    pub model: String,
    pub messages: Vec<ChatMessage>,
    pub tools: Option<Vec<Tool>>,
}

/// Builder for one chat request.
#[derive(Debug)]
pub struct ChatBuilder {
    pub model: Model,
    pub messages: Vec<ChatMessage>,
    pub tools: Vec<Tool>,
}

impl ChatBuilder {
    /// Creates a chat builder with a model, no messages and no tools.
    pub fn new(model: Model) -> (r: Self)
        ensures
            r.model == model,
            r.messages@ == Seq::<ChatMessage>::empty(),
            r.tools@ == Seq::<Tool>::empty(),
    {
        ChatBuilder { model, messages: Vec::new(), tools: Vec::new() }
    }

    /// Sets the messages for the chat; an earlier list is replaced, not
    /// extended.
    pub fn with_messages(self, messages: Vec<ChatMessage>) -> (r: Self)
        ensures
            r.model == self.model,
            r.messages == messages,
            r.tools == self.tools,
    {
        ChatBuilder { messages, ..self }
    }

    /// Sets the tools for the chat; an earlier list is replaced, not
    /// extended.
    pub fn with_tools(self, tools: Vec<Tool>) -> (r: Self)
        ensures
            r.model == self.model,
            r.messages == self.messages,
            r.tools == tools,
    {
        ChatBuilder { tools, ..self }
    }

    /// Assembles the single-use request value that a transport sends. Tools
    /// are omitted entirely when none were supplied.
    pub fn into_request(self) -> (r: Request)
        ensures
            r.model@ == model_text(self.model),
            r.messages == self.messages,
            self.tools@.len() == 0 ==> r.tools is None,
            self.tools@.len() > 0 ==> r.tools == Some(self.tools),
    {
        let ChatBuilder { model, messages, tools } = self;
        let tools_option = if tools.len() == 0 {
            None
        } else {
            Some(tools)
        };
        Request { model: model.as_str().to_owned(), messages, tools: tools_option }
    }
}

} // verus!

//! The tool dispatch loop: the state machine that orchestrates one
//! conversation's exchange with the remote model.
//!
//! An [`Exchange`] owns the growing conversation for the duration of one
//! logical exchange. The caller performs the transport round-trips and the
//! tool executions (both are outside work) and feeds every outcome back in;
//! the machine makes all decisions. One exchange performs at most one tool
//! round: the opening round-trip, then — only when the first reply requests
//! tool calls — exactly one resubmission whose reply is final.
//!
//! Tool-level failures (an unknown tool name, a missing required argument)
//! are deliberately absorbed into conversation content so the model can
//! self-correct; only transport-level failures are fatal to the exchange.

use vstd::prelude::*;
use vstd::string::StringExecFns;

use crate::chat::AssistantMessage;
use crate::chat::ChatMessage;
use crate::chat::ToolCall;
use crate::chat::ToolCallArgument;
use crate::chat::argument_value;
use crate::tool::Function;
use crate::tool::Tool;

verus! {

// ---------------------------------------------------------------------------
// Replies and errors
// ---------------------------------------------------------------------------

/// The final text of an assistant message: its content, or empty when the
/// content is absent.
pub open spec fn reply_text(reply: AssistantMessage) -> Seq<char> {
    match reply.content {
        Some(c) => c@,
        None => Seq::empty(),
    }
}

/// Extracts the final answer from an assistant message; an absent content is
/// an empty string, not an error.
pub fn final_answer(reply: &AssistantMessage) -> (r: String)
    ensures
        r@ == reply_text(*reply),
{
    match &reply.content {
        Some(c) => c.clone(),
        None => String::new(),
    }
}

/// Ways the transport's single send operation can fail. The exchange treats
/// all three alike: fatal, never retried here.
#[derive(Clone, Copy, Debug, PartialEq, Eq, Structural)]
pub enum TransportError {
    /// The remote endpoint could not be reached.
    Unreachable,
    /// The reply could not be decoded.
    MalformedResponse,
    /// The endpoint executed but reported an error payload.
    RemoteError,
}

/// A fatal error of one exchange.
#[derive(Clone, Copy, Debug, PartialEq, Eq, Structural)]
pub enum ExchangeError {
    /// The configured remote identity could not be resolved to a service
    /// address; raised before any network attempt.
    EndpointResolution,
    /// The transport's send failed.
    Transport(TransportError),
    /// The reply arrived but violates the expected reply shape.
    Protocol,
}

// ---------------------------------------------------------------------------
// Resolving one tool call
// ---------------------------------------------------------------------------

/// The schema of the first advertised tool with the given function name, if
/// any.
pub open spec fn find_tool(tools: Seq<Tool>, name: Seq<char>) -> Option<Function>
    decreases tools.len(),
{
    if tools.len() == 0 {
        None
    } else {
        match tools[0] {
            Tool::Function(f) => if f.name@ == name {
                Some(f)
            } else {
                find_tool(tools.drop_first(), name)
            },
        }
    }
}

/// The names a function schema marks as required.
pub open spec fn schema_required(f: Function) -> Seq<String> {
    match f.parameters {
        Some(p) => match p.required {
            Some(r) => r@,
            None => Seq::empty(),
        },
        None => Seq::empty(),
    }
}

/// The first required name for which the call carries no argument, if any.
pub open spec fn first_missing(args: Seq<ToolCallArgument>, req: Seq<String>) -> Option<String>
    decreases req.len(),
{
    if req.len() == 0 {
        None
    } else if argument_value(args, req[0]@) is None {
        Some(req[0])
    } else {
        first_missing(args, req.drop_first())
    }
}

/// What the loop decided for one tool call.
#[derive(Clone, Debug, PartialEq)]
pub enum ToolDirective {
    /// The call resolved and every required argument is present: the
    /// caller's executor runs with these arguments.
    Execute { name: String, arguments: Vec<ToolCallArgument> },
    /// The loop answers the call itself with this content (an unknown tool
    /// or a missing required argument); the exchange goes on.
    Respond { content: String },
}

/// One tool call's directive, correlated to the call by its id.
#[derive(Clone, Debug, PartialEq)]
pub struct PendingCall {
    pub call_id: String,
    pub directive: ToolDirective,
}

/// The content reported for a call whose name resolves to no advertised
/// tool.
pub open spec fn unknown_tool_text(name: Seq<char>) -> Seq<char> {
    "Unknown tool: "@ + name
}

/// The content reported for a call that leaves a required argument out.
pub open spec fn missing_argument_text(name: Seq<char>) -> Seq<char> {
    "Missing required argument: "@ + name
}

/// How the loop answers one tool call, given the advertised tools: an
/// unresolved name or a missing required argument becomes descriptive
/// content, and a resolved call hands its arguments on unchanged.
pub open spec fn classifies(tools: Seq<Tool>, call: ToolCall, p: PendingCall) -> bool {
    &&& p.call_id == call.id
    &&& match find_tool(tools, call.function.name@) {
        None => p.directive matches ToolDirective::Respond { content } && content@
            == unknown_tool_text(call.function.name@),
        Some(f) => match first_missing(call.function.arguments@, schema_required(f)) {
            Some(m) => p.directive matches ToolDirective::Respond { content } && content@
                == missing_argument_text(m@),
            None => p.directive matches ToolDirective::Execute { name, arguments } && name@
                == call.function.name@ && arguments@ == call.function.arguments@,
        },
    }
}

fn unknown_tool_content(name: &String) -> (r: String)
    ensures
        r@ == unknown_tool_text(name@),
{
    let mut content = "Unknown tool: ".to_owned();
    content.append(name.as_str());
    content
}

fn missing_argument_content(name: &String) -> (r: String)
    ensures
        r@ == missing_argument_text(name@),
{
    let mut content = "Missing required argument: ".to_owned();
    content.append(name.as_str());
    content
}

fn clone_argument(a: &ToolCallArgument) -> (r: ToolCallArgument)
    ensures
        r == *a,
{
    ToolCallArgument { name: a.name.clone(), value: a.value.clone() }
}

fn clone_arguments(v: &Vec<ToolCallArgument>) -> (r: Vec<ToolCallArgument>)
    ensures
        r@ == v@,
{
    let mut out: Vec<ToolCallArgument> = Vec::new();
    let mut i: usize = 0;
    while i < v.len()
        invariant
            i <= v@.len(),
            out@ == v@.subrange(0, i as int),
        decreases v@.len() - i,
    {
        out.push(clone_argument(&v[i]));
        proof {
            assert(v@.subrange(0, i + 1 as int) =~= v@.subrange(0, i as int).push(v@[i as int]));
        }
        i += 1;
    }
    proof {
        assert(v@.subrange(0, v@.len() as int) =~= v@);
    }
    out
}

/// Decides how the loop answers one tool call: resolve the name against the
/// advertised tools, then check the schema's required arguments.
pub fn classify_call(tools: &Vec<Tool>, call: &ToolCall) -> (p: PendingCall)
    ensures
        classifies(tools@, *call, p),
{
    proof {
        assert(tools@.skip(0) =~= tools@);
    }
    let mut i: usize = 0;
    while i < tools.len()
        invariant
            i <= tools@.len(),
            find_tool(tools@, call.function.name@) == find_tool(
                tools@.skip(i as int),
                call.function.name@,
            ),
        decreases tools@.len() - i,
    {
        proof {
            assert(tools@.skip(i as int)[0] == tools@[i as int]);
            assert(tools@.skip(i as int).drop_first() =~= tools@.skip(i as int + 1));
        }
        let Tool::Function(f) = &tools[i];
        if f.name == call.function.name {
            return classify_resolved(f, call);
        }
        i += 1;
    }
    proof {
        assert(tools@.skip(tools@.len() as int) =~= Seq::<Tool>::empty());
    }
    PendingCall {
        call_id: call.id.clone(),
        directive: ToolDirective::Respond { content: unknown_tool_content(&call.function.name) },
    }
}

/// Answers one resolved call: checks the schema's required arguments and, if
/// all are present, hands the call's arguments on unchanged.
fn classify_resolved(f: &Function, call: &ToolCall) -> (p: PendingCall)
    ensures
        p.call_id == call.id,
        match first_missing(call.function.arguments@, schema_required(*f)) {
            Some(m) => p.directive matches ToolDirective::Respond { content } && content@
                == missing_argument_text(m@),
            None => p.directive matches ToolDirective::Execute { name, arguments } && name@
                == call.function.name@ && arguments@ == call.function.arguments@,
        },
{
    if let Some(params) = &f.parameters {
        if let Some(req) = &params.required {
            proof {
                assert(req@.skip(0) =~= req@);
            }
            let mut j: usize = 0;
            while j < req.len()
                invariant
                    j <= req@.len(),
                    schema_required(*f) == req@,
                    first_missing(call.function.arguments@, req@) == first_missing(
                        call.function.arguments@,
                        req@.skip(j as int),
                    ),
                decreases req@.len() - j,
            {
                proof {
                    assert(req@.skip(j as int)[0] == req@[j as int]);
                    assert(req@.skip(j as int).drop_first() =~= req@.skip(j as int + 1));
                }
                if call.function.get(req[j].as_str()).is_none() {
                    return PendingCall {
                        call_id: call.id.clone(),
                        directive: ToolDirective::Respond {
                            content: missing_argument_content(&req[j]),
                        },
                    };
                }
                j += 1;
            }
            proof {
                assert(req@.skip(req@.len() as int) =~= Seq::<String>::empty());
            }
        }
    }
    PendingCall {
        call_id: call.id.clone(),
        directive: ToolDirective::Execute {
            name: call.function.name.clone(),
            arguments: clone_arguments(&call.function.arguments),
        },
    }
}

// ---------------------------------------------------------------------------
// The exchange state machine
// ---------------------------------------------------------------------------

/// The lifecycle of one exchange.
#[derive(Clone, Copy, Debug, PartialEq, Eq, Structural)]
pub enum Phase {
    /// The opening conversation is out; the model's first reply is awaited.
    AwaitingFirstReply,
    /// The first reply requested tool calls; their results are awaited.
    ExecutingTools,
    /// The tool results were resubmitted; the closing reply is awaited.
    AwaitingFinalReply,
    /// A final answer is available.
    Done,
    /// A fatal error ended the exchange.
    Failed,
}

/// The number of pending calls whose directive needs the caller's executor.
pub open spec fn executes_needed(pending: Seq<PendingCall>) -> nat
    decreases pending.len(),
{
    if pending.len() == 0 {
        0
    } else {
        (match pending[0].directive {
            ToolDirective::Execute { .. } => 1 as nat,
            ToolDirective::Respond { .. } => 0 as nat,
        }) + executes_needed(pending.drop_first())
    }
}

/// The tool messages appended for the pending calls, in call order. A call
/// the loop answered itself carries the loop's content; each call that
/// needed an executor consumes the next of the caller's results.
pub open spec fn tool_messages(pending: Seq<PendingCall>, results: Seq<String>) -> Seq<ChatMessage>
    decreases pending.len(),
{
    if pending.len() == 0 {
        Seq::empty()
    } else {
        let content = match pending[0].directive {
            ToolDirective::Respond { content } => content,
            ToolDirective::Execute { .. } => results[0],
        };
        let rest = match pending[0].directive {
            ToolDirective::Respond { .. } => results,
            ToolDirective::Execute { .. } => results.drop_first(),
        };
        seq![ChatMessage::Tool { content, tool_call_id: pending[0].call_id }] + tool_messages(
            pending.drop_first(),
            rest,
        )
    }
}

/// The correlation id a message carries, when it is a tool message.
pub open spec fn tool_call_id_of(m: ChatMessage) -> Option<String> {
    match m {
        ChatMessage::Tool { tool_call_id, .. } => Some(tool_call_id),
        _ => None,
    }
}

/// Law: one tool message is appended per pending call, in call order, each
/// carrying the id of its call — however many executor results there are.
pub proof fn lemma_tool_messages_shape(pending: Seq<PendingCall>, results: Seq<String>)
    ensures
        tool_messages(pending, results).len() == pending.len(),
        forall|i: int| 0 <= i < pending.len() ==> #[trigger] tool_call_id_of(
            tool_messages(pending, results)[i],
        ) == Some(pending[i].call_id),
    decreases pending.len(),
{
    if pending.len() > 0 {
        let rest = match pending[0].directive {
            ToolDirective::Respond { .. } => results,
            ToolDirective::Execute { .. } => results.drop_first(),
        };
        lemma_tool_messages_shape(pending.drop_first(), rest);
        assert forall|i: int| 0 <= i < pending.len() implies #[trigger] tool_call_id_of(
            tool_messages(pending, results)[i],
        ) == Some(pending[i].call_id) by {
            if i > 0 {
                assert(tool_messages(pending, results)[i] == tool_messages(
                    pending.drop_first(),
                    rest,
                )[i - 1]);
                assert(pending.drop_first()[i - 1] == pending[i]);
            }
        }
    }
}

/// Law: when the pending directives answer the calls of one assistant turn,
/// each appended tool message carries the id of the call at its position, so
/// every tool result is attributable to a call of the preceding assistant
/// message.
pub proof fn lemma_tool_message_ids_match_calls(
    tools: Seq<Tool>,
    calls: Seq<ToolCall>,
    pending: Seq<PendingCall>,
    results: Seq<String>,
    i: int,
)
    requires
        pending.len() == calls.len(),
        forall|j: int| 0 <= j < calls.len() ==> classifies(tools, calls[j], #[trigger] pending[j]),
        0 <= i < pending.len(),
    ensures
        tool_call_id_of(tool_messages(pending, results)[i]) == Some(calls[i].id),
{
    lemma_tool_messages_shape(pending, results);
}

/// One conversation's exchange with the remote model. The caller owns the
/// outside work: it sends the conversation through its transport and runs
/// the tool executors, and reports every outcome back; the machine owns the
/// conversation and all decisions. `rounds` counts the transport round-trips
/// requested so far.
#[derive(Debug)]
pub struct Exchange {
    pub conversation: Vec<ChatMessage>,
    pub tools: Vec<Tool>,
    pub phase: Phase,
    pub rounds: u32,
    pub pending: Vec<PendingCall>,
    pub answer: Option<String>,
    pub error: Option<ExchangeError>,
}

impl Exchange {
    /// What each phase owes: an exchange requests at most two round-trips,
    /// carries pending directives only while tools execute, and holds an
    /// answer or an error exactly in its terminal phases.
    pub open spec fn wf(self) -> bool {
        &&& self.rounds <= 2
        &&& match self.phase {
            Phase::AwaitingFirstReply => self.rounds == 1 && self.pending@.len() == 0
                && self.answer is None && self.error is None,
            Phase::ExecutingTools => self.rounds == 1 && self.answer is None
                && self.error is None,
            Phase::AwaitingFinalReply => self.rounds == 2 && self.pending@.len() == 0
                && self.answer is None && self.error is None,
            Phase::Done => self.answer is Some && self.error is None,
            Phase::Failed => self.error is Some && self.answer is None,
        }
    }

    /// Opens an exchange over a base conversation and an optional tool
    /// registry (the advertised tools double as the registry). The caller
    /// must now perform the one requested round-trip — send the conversation,
    /// with the tool schemas attached when there are any — and report the
    /// outcome through `on_reply` or `on_transport_error`.
    pub fn begin(conversation: Vec<ChatMessage>, tools: Vec<Tool>) -> (ex: Exchange)
        ensures
            ex.wf(),
            ex.phase is AwaitingFirstReply,
            ex.conversation == conversation,
            ex.tools == tools,
            ex.rounds == 1,
    {
        Exchange {
            conversation,
            tools,
            phase: Phase::AwaitingFirstReply,
            rounds: 1,
            pending: Vec::new(),
            answer: None,
            error: None,
        }
    }

    /// Feeds the model's reply in. A first reply without tool calls — and
    /// any reply to the resubmission — finishes the exchange with the
    /// reply's content verbatim (empty when absent) and requests no further
    /// round-trip. A first reply with tool calls is appended to the
    /// conversation and every call is classified, in the order received.
    pub fn on_reply(&mut self, reply: AssistantMessage)
        requires
            old(self).wf(),
            old(self).phase is AwaitingFirstReply || old(self).phase is AwaitingFinalReply,
        ensures
            final(self).wf(),
            final(self).tools == old(self).tools,
            final(self).rounds == old(self).rounds,
            (old(self).phase is AwaitingFinalReply || reply.tool_calls@.len() == 0) ==> {
                &&& final(self).phase is Done
                &&& final(self).answer matches Some(a) && a@ == reply_text(reply)
                &&& final(self).conversation == old(self).conversation
            },
            (old(self).phase is AwaitingFirstReply && reply.tool_calls@.len() > 0) ==> {
                &&& final(self).phase is ExecutingTools
                &&& final(self).conversation@ == old(self).conversation@.push(
                    ChatMessage::Assistant(reply),
                )
                &&& final(self).pending@.len() == reply.tool_calls@.len()
                &&& forall|i: int| 0 <= i < reply.tool_calls@.len() ==> classifies(
                    old(self).tools@,
                    reply.tool_calls@[i],
                    #[trigger] final(self).pending@[i],
                )
            },
    {
        let is_final = match self.phase {
            Phase::AwaitingFinalReply => true,
            _ => false,
        };
        if is_final || reply.tool_calls.len() == 0 {
            self.answer = Some(final_answer(&reply));
            self.phase = Phase::Done;
        } else {
            let mut pending: Vec<PendingCall> = Vec::new();
            let mut i: usize = 0;
            while i < reply.tool_calls.len()
                invariant
                    i <= reply.tool_calls@.len(),
                    pending@.len() == i,
                    forall|j: int| 0 <= j < i ==> classifies(
                        self.tools@,
                        reply.tool_calls@[j],
                        #[trigger] pending@[j],
                    ),
                decreases reply.tool_calls@.len() - i,
            {
                let p = classify_call(&self.tools, &reply.tool_calls[i]);
                pending.push(p);
                i += 1;
            }
            self.pending = pending;
            self.conversation.push(ChatMessage::Assistant(reply));
            self.phase = Phase::ExecutingTools;
        }
    }

    /// Hands in the executor results, in call order, for exactly the pending
    /// calls that needed an executor. One tool message is appended per
    /// pending call — the loop's own content for the calls it answered
    /// itself, the next result for the rest — and the one resubmission
    /// round-trip is requested: the caller must now send the extended
    /// conversation again and report the outcome.
    pub fn provide_results(&mut self, results: Vec<String>)
        requires
            old(self).wf(),
            old(self).phase is ExecutingTools,
            results@.len() == executes_needed(old(self).pending@),
        ensures
            final(self).wf(),
            final(self).phase is AwaitingFinalReply,
            final(self).rounds == old(self).rounds + 1,
            final(self).tools == old(self).tools,
            final(self).conversation@ == old(self).conversation@ + tool_messages(
                old(self).pending@,
                results@,
            ),
    {
        let ghost conversation0 = self.conversation@;
        let mut pending: Vec<PendingCall> = Vec::new();
        core::mem::swap(&mut pending, &mut self.pending);
        let ghost pending0 = pending@;
        let ghost results0 = results@;
        proof {
            assert(pending0.skip(0) =~= pending0);
            assert(results0.skip(0) =~= results0);
        }
        let results_len: usize = results.len();
        let mut i: usize = 0;
        let mut j: usize = 0;
        while i < pending.len()
            invariant
                i <= pending0.len(),
                j <= results0.len(),
                results_len == results0.len(),
                pending@ == pending0,
                results@ == results0,
                executes_needed(pending0.skip(i as int)) + j == results0.len(),
                self.conversation@ + tool_messages(pending0.skip(i as int), results0.skip(j as int))
                    == conversation0 + tool_messages(pending0, results0),
                self.pending@.len() == 0,
                self.tools == old(self).tools,
                self.phase == old(self).phase,
                self.rounds == old(self).rounds,
                self.answer == old(self).answer,
                self.error == old(self).error,
            decreases pending0.len() - i,
        {
            let ghost before = self.conversation@;
            let ghost j0 = j as int;
            proof {
                assert(pending0.skip(i as int)[0] == pending0[i as int]);
                assert(pending0.skip(i as int).drop_first() =~= pending0.skip(i as int + 1));
            }
            let call_id = pending[i].call_id.clone();
            let content = match &pending[i].directive {
                ToolDirective::Respond { content } => content.clone(),
                ToolDirective::Execute { .. } => {
                    proof {
                        assert(results0.skip(j0)[0] == results0[j0]);
                        assert(results0.skip(j0).drop_first() =~= results0.skip(j0 + 1));
                        assert(executes_needed(pending0.skip(i as int)) == 1 + executes_needed(
                            pending0.skip(i as int + 1),
                        ));
                    }
                    let c = results[j].clone();
                    proof {
                        assert(j < results_len);
                    }
                    j += 1;
                    c
                },
            };
            self.conversation.push(ChatMessage::Tool { content, tool_call_id: call_id });
            proof {
                let m = self.conversation@.last();
                let rest = match pending0[i as int].directive {
                    ToolDirective::Respond { .. } => results0.skip(j0),
                    ToolDirective::Execute { .. } => results0.skip(j0 + 1),
                };
                if pending0[i as int].directive is Execute {
                    assert(results0.skip(j0)[0] == results0[j0]);
                    assert(results0.skip(j0).drop_first() =~= results0.skip(j0 + 1));
                }
                assert(tool_messages(pending0.skip(i as int), results0.skip(j0)) =~= seq![m]
                    + tool_messages(pending0.skip(i as int + 1), rest));
                assert(before + tool_messages(pending0.skip(i as int), results0.skip(j0))
                    =~= self.conversation@ + tool_messages(pending0.skip(i as int + 1), rest));
            }
            i += 1;
        }
        proof {
            assert(pending0.skip(pending0.len() as int) =~= Seq::<PendingCall>::empty());
            assert(self.conversation@ =~= conversation0 + tool_messages(pending0, results0));
        }
        self.rounds = self.rounds + 1;
        self.phase = Phase::AwaitingFinalReply;
    }

    /// Records a fatal failure of the pending round-trip: the exchange ends
    /// with the error, yields no answer, and requests nothing further.
    pub fn on_transport_error(&mut self, error: ExchangeError)
        requires
            old(self).wf(),
            old(self).phase is AwaitingFirstReply || old(self).phase is AwaitingFinalReply,
        ensures
            final(self).wf(),
            final(self).phase is Failed,
            final(self).error == Some(error),
            final(self).rounds == old(self).rounds,
            final(self).conversation == old(self).conversation,
            final(self).tools == old(self).tools,
    {
        self.error = Some(error);
        self.phase = Phase::Failed;
    }
}

} // verus!

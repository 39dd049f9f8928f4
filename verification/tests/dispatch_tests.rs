use ic_llm::dispatch::{
    final_answer, Exchange, ExchangeError, Phase, ToolDirective, TransportError,
};
use ic_llm::{
    parameter, tool, AssistantMessage, ChatMessage, FunctionCall, ParameterType, Tool, ToolCall,
    ToolCallArgument,
};

const HEX_ACCOUNT: &str = "d3e13d4777e22367532053190b6c6ccf57444a61337e996242b1abfb52cf92c8";

fn balance_tools() -> Vec<Tool> {
    vec![tool("lookup_icp_balance")
        .with_description("Lookup the balance of an ICP account.")
        .with_parameter(
            parameter("account", ParameterType::String)
                .with_description("The ICP account (64-character hex string) to look up.")
                .is_required(),
        )
        .build()]
}

fn balance_conversation(question: &str) -> Vec<ChatMessage> {
    vec![
        ChatMessage::System {
            content: "balance-lookup assistant".to_string(),
        },
        ChatMessage::User {
            content: question.to_string(),
        },
    ]
}

/// The external collaborator: validates the account and returns a balance
/// string, or a descriptive error string; it never raises.
fn lookup_icp_balance(arguments: &[ToolCallArgument]) -> String {
    let account = match arguments.iter().find(|a| a.name == "account") {
        Some(a) => a.value.clone(),
        None => return "Missing account".to_string(),
    };
    if account.len() != 64 {
        return "Account must be 64 characters long".to_string();
    }
    format!("Balance of {} is 100 ICP", account)
}

fn run_executors(exchange: &Exchange) -> Vec<String> {
    let mut results = Vec::new();
    for pending in &exchange.pending {
        if let ToolDirective::Execute { name, arguments } = &pending.directive {
            let result = match name.as_str() {
                "lookup_icp_balance" => lookup_icp_balance(arguments),
                _ => panic!("executor for an unregistered tool"),
            };
            results.push(result);
        }
    }
    results
}

fn tool_call(id: &str, name: &str, arguments: Vec<ToolCallArgument>) -> ToolCall {
    ToolCall {
        id: id.to_string(),
        function: FunctionCall {
            name: name.to_string(),
            arguments,
        },
    }
}

#[test]
fn reply_without_tool_calls_finishes_in_one_round_trip() {
    let mut exchange = Exchange::begin(balance_conversation("hello"), balance_tools());
    assert_eq!(exchange.rounds, 1);

    exchange.on_reply(AssistantMessage {
        content: Some("Hi! Give me an account to look up.".to_string()),
        tool_calls: vec![],
    });

    assert!(matches!(exchange.phase, Phase::Done));
    assert_eq!(exchange.rounds, 1);
    assert_eq!(
        exchange.answer.as_deref(),
        Some("Hi! Give me an account to look up.")
    );
}

#[test]
fn absent_content_yields_an_empty_answer() {
    let mut exchange = Exchange::begin(balance_conversation("hello"), vec![]);
    exchange.on_reply(AssistantMessage {
        content: None,
        tool_calls: vec![],
    });

    assert!(matches!(exchange.phase, Phase::Done));
    assert_eq!(exchange.answer.as_deref(), Some(""));
}

#[test]
fn n_tool_calls_cost_exactly_one_more_round_trip() {
    let tools = balance_tools();
    let mut exchange = Exchange::begin(balance_conversation("two lookups, please"), tools);

    let argument = |value: &str| ToolCallArgument {
        name: "account".to_string(),
        value: value.to_string(),
    };
    exchange.on_reply(AssistantMessage {
        content: None,
        tool_calls: vec![
            tool_call("call-1", "lookup_icp_balance", vec![argument(HEX_ACCOUNT)]),
            tool_call("call-2", "lookup_icp_balance", vec![argument(HEX_ACCOUNT)]),
            tool_call("call-3", "lookup_icp_balance", vec![argument(HEX_ACCOUNT)]),
        ],
    });
    assert!(matches!(exchange.phase, Phase::ExecutingTools));
    assert_eq!(exchange.rounds, 1);
    assert_eq!(exchange.pending.len(), 3);

    let before = exchange.conversation.len();
    let results = run_executors(&exchange);
    exchange.provide_results(results);

    // one additional round-trip regardless of the number of calls
    assert_eq!(exchange.rounds, 2);
    // one tool message per call, in call order, with matching ids
    assert_eq!(exchange.conversation.len(), before + 3);
    for (offset, expected_id) in ["call-1", "call-2", "call-3"].iter().enumerate() {
        match &exchange.conversation[before + offset] {
            ChatMessage::Tool { tool_call_id, .. } => assert_eq!(tool_call_id, expected_id),
            other => panic!("expected a tool message, got {:?}", other),
        }
    }

    exchange.on_reply(AssistantMessage {
        content: Some("All three accounts hold 100 ICP.".to_string()),
        tool_calls: vec![],
    });
    assert!(matches!(exchange.phase, Phase::Done));
    assert_eq!(exchange.rounds, 2);
}

#[test]
fn unknown_tool_name_is_reported_and_the_loop_goes_on() {
    let mut exchange = Exchange::begin(balance_conversation("lookup"), balance_tools());
    exchange.on_reply(AssistantMessage {
        content: None,
        tool_calls: vec![tool_call("call-1", "transfer_funds", vec![])],
    });

    assert!(matches!(exchange.phase, Phase::ExecutingTools));
    match &exchange.pending[0].directive {
        ToolDirective::Respond { content } => {
            assert_eq!(content, "Unknown tool: transfer_funds");
            assert!(content.contains("transfer_funds"));
        }
        other => panic!("expected a loop-produced answer, got {:?}", other),
    }

    exchange.provide_results(vec![]);
    match exchange.conversation.last().unwrap() {
        ChatMessage::Tool {
            content,
            tool_call_id,
        } => {
            assert_eq!(content, "Unknown tool: transfer_funds");
            assert_eq!(tool_call_id, "call-1");
        }
        other => panic!("expected a tool message, got {:?}", other),
    }

    exchange.on_reply(AssistantMessage {
        content: Some("I cannot transfer funds.".to_string()),
        tool_calls: vec![],
    });
    assert!(matches!(exchange.phase, Phase::Done));
}

#[test]
fn missing_required_argument_is_reported_and_the_loop_goes_on() {
    let mut exchange = Exchange::begin(balance_conversation("lookup"), balance_tools());
    exchange.on_reply(AssistantMessage {
        content: None,
        tool_calls: vec![tool_call("call-1", "lookup_icp_balance", vec![])],
    });

    match &exchange.pending[0].directive {
        ToolDirective::Respond { content } => {
            assert_eq!(content, "Missing required argument: account");
            assert!(content.contains("account"));
        }
        other => panic!("expected a loop-produced answer, got {:?}", other),
    }

    exchange.provide_results(vec![]);
    match exchange.conversation.last().unwrap() {
        ChatMessage::Tool { content, .. } => {
            assert_eq!(content, "Missing required argument: account");
        }
        other => panic!("expected a tool message, got {:?}", other),
    }

    exchange.on_reply(AssistantMessage {
        content: Some("Which account should I look up?".to_string()),
        tool_calls: vec![],
    });
    assert!(matches!(exchange.phase, Phase::Done));
}

#[test]
fn balance_lookup_scenario() {
    let question = format!("what's the balance of account {}?", HEX_ACCOUNT);
    let mut exchange = Exchange::begin(balance_conversation(&question), balance_tools());

    exchange.on_reply(AssistantMessage {
        content: None,
        tool_calls: vec![tool_call(
            "call-1",
            "lookup_icp_balance",
            vec![ToolCallArgument {
                name: "account".to_string(),
                value: HEX_ACCOUNT.to_string(),
            }],
        )],
    });

    let results = run_executors(&exchange);
    assert_eq!(
        results,
        vec![format!("Balance of {} is 100 ICP", HEX_ACCOUNT)]
    );
    exchange.provide_results(results);

    match exchange.conversation.last().unwrap() {
        ChatMessage::Tool {
            content,
            tool_call_id,
        } => {
            assert_eq!(content, &format!("Balance of {} is 100 ICP", HEX_ACCOUNT));
            assert_eq!(tool_call_id, "call-1");
        }
        other => panic!("expected a tool message, got {:?}", other),
    }

    exchange.on_reply(AssistantMessage {
        content: Some("The account holds 100 ICP.".to_string()),
        tool_calls: vec![],
    });
    assert!(matches!(exchange.phase, Phase::Done));
    assert_eq!(exchange.answer.as_deref(), Some("The account holds 100 ICP."));
}

#[test]
fn invalid_account_error_string_is_appended_unchanged() {
    let mut exchange = Exchange::begin(
        balance_conversation("what's the balance of account too-short?"),
        balance_tools(),
    );

    exchange.on_reply(AssistantMessage {
        content: None,
        tool_calls: vec![tool_call(
            "call-1",
            "lookup_icp_balance",
            vec![ToolCallArgument {
                name: "account".to_string(),
                value: "too-short".to_string(),
            }],
        )],
    });

    let results = run_executors(&exchange);
    assert_eq!(results, vec!["Account must be 64 characters long".to_string()]);
    exchange.provide_results(results);

    match exchange.conversation.last().unwrap() {
        ChatMessage::Tool { content, .. } => {
            assert_eq!(content, "Account must be 64 characters long");
        }
        other => panic!("expected a tool message, got {:?}", other),
    }

    exchange.on_reply(AssistantMessage {
        content: Some("That account is not valid; it must be 64 characters.".to_string()),
        tool_calls: vec![],
    });
    assert!(matches!(exchange.phase, Phase::Done));
}

#[test]
fn unreachable_endpoint_fails_the_exchange_without_further_calls() {
    let mut exchange = Exchange::begin(balance_conversation("hello"), balance_tools());

    exchange.on_transport_error(ExchangeError::Transport(TransportError::Unreachable));

    assert!(matches!(exchange.phase, Phase::Failed));
    assert_eq!(exchange.rounds, 1);
    assert!(matches!(
        exchange.error,
        Some(ExchangeError::Transport(TransportError::Unreachable))
    ));
    assert!(exchange.answer.is_none());
}

#[test]
fn endpoint_resolution_failure_is_fatal() {
    let mut exchange = Exchange::begin(balance_conversation("hello"), vec![]);

    exchange.on_transport_error(ExchangeError::EndpointResolution);

    assert!(matches!(exchange.phase, Phase::Failed));
    assert!(matches!(
        exchange.error,
        Some(ExchangeError::EndpointResolution)
    ));
}

#[test]
fn malformed_reply_and_remote_error_are_fatal() {
    let mut exchange = Exchange::begin(balance_conversation("hello"), vec![]);
    exchange.on_transport_error(ExchangeError::Transport(TransportError::MalformedResponse));
    assert!(matches!(exchange.phase, Phase::Failed));

    let mut second = Exchange::begin(balance_conversation("hello"), vec![]);
    second.on_transport_error(ExchangeError::Transport(TransportError::RemoteError));
    assert!(matches!(
        second.error,
        Some(ExchangeError::Transport(TransportError::RemoteError))
    ));

    let mut third = Exchange::begin(balance_conversation("hello"), vec![]);
    third.on_transport_error(ExchangeError::Protocol);
    assert!(matches!(third.error, Some(ExchangeError::Protocol)));
}

#[test]
fn final_answer_defaults_to_empty() {
    let with_text = AssistantMessage {
        content: Some("an answer".to_string()),
        tool_calls: vec![],
    };
    let without_text = AssistantMessage {
        content: None,
        tool_calls: vec![],
    };

    assert_eq!(final_answer(&with_text), "an answer");
    assert_eq!(final_answer(&without_text), "");
}

#[test]
fn second_reply_is_final_even_with_tool_calls() {
    let mut exchange = Exchange::begin(balance_conversation("lookup"), balance_tools());
    exchange.on_reply(AssistantMessage {
        content: None,
        tool_calls: vec![tool_call("call-1", "transfer_funds", vec![])],
    });
    exchange.provide_results(vec![]);

    // The reply to the resubmission is treated as final even if it carries
    // tool calls: the loop performs exactly one tool round.
    exchange.on_reply(AssistantMessage {
        content: Some("final text".to_string()),
        tool_calls: vec![tool_call("call-2", "lookup_icp_balance", vec![])],
    });
    assert!(matches!(exchange.phase, Phase::Done));
    assert_eq!(exchange.rounds, 2);
    assert_eq!(exchange.answer.as_deref(), Some("final text"));
}

use ic_llm::{
    ChatBuilder, ChatMessage, FunctionCall, Model, ToolBuilder, ToolCallArgument,
};

#[test]
fn create_chat_builder() {
    let builder = ChatBuilder::new(Model::Llama3_1_8B);
    assert!(builder.messages.is_empty());
    assert!(builder.tools.is_empty());
}

#[test]
fn chat_builder_with_messages() {
    let messages = vec![
        ChatMessage::System {
            content: "You are a helpful assistant".to_string(),
        },
        ChatMessage::User {
            content: "Hello".to_string(),
        },
    ];

    let builder = ChatBuilder::new(Model::Llama3_1_8B).with_messages(messages.clone());

    assert_eq!(builder.messages, messages);
    assert!(builder.tools.is_empty());
}

#[test]
fn chat_builder_with_tools() {
    let tool = ToolBuilder::new("test_tool")
        .with_description("A test tool")
        .build();

    let builder = ChatBuilder::new(Model::Llama3_1_8B).with_tools(vec![tool.clone()]);

    assert!(builder.messages.is_empty());
    assert_eq!(builder.tools.len(), 1);
    assert_eq!(builder.tools[0], tool);
}

#[test]
fn chat_builder_with_messages_and_tools() {
    let messages = vec![ChatMessage::User {
        content: "Hello".to_string(),
    }];

    let tool = ToolBuilder::new("test_tool").build();

    let builder = ChatBuilder::new(Model::Llama3_1_8B)
        .with_messages(messages.clone())
        .with_tools(vec![tool.clone()]);

    assert_eq!(builder.messages, messages);
    assert_eq!(builder.tools.len(), 1);
    assert_eq!(builder.tools[0], tool);
}

#[test]
fn function_call_get() {
    let function_call = FunctionCall {
        name: "test_function".to_string(),
        arguments: vec![
            ToolCallArgument {
                name: "arg1".to_string(),
                value: "value1".to_string(),
            },
            ToolCallArgument {
                name: "arg2".to_string(),
                value: "value2".to_string(),
            },
        ],
    };

    assert_eq!(function_call.get("arg1"), Some("value1".to_string()));
    assert_eq!(function_call.get("arg2"), Some("value2".to_string()));
    assert_eq!(function_call.get("arg3"), None);
}

#[test]
fn chat_create_chat_builder() {
    let builder = ChatBuilder::new(Model::Llama3_1_8B);
    assert!(builder.messages.is_empty());
    assert!(builder.tools.is_empty());
}

#[test]
fn chat_chat_builder_with_messages() {
    let messages = vec![
        ChatMessage::System {
            content: "You are a helpful assistant".to_string(),
        },
        ChatMessage::User {
            content: "Hello".to_string(),
        },
    ];

    let builder = ChatBuilder::new(Model::Llama3_1_8B).with_messages(messages.clone());

    assert_eq!(builder.messages, messages);
    assert!(builder.tools.is_empty());
}

#[test]
fn chat_chat_builder_with_tools() {
    let tool = ToolBuilder::new("test_tool")
        .with_description("A test tool")
        .build();

    let builder = ChatBuilder::new(Model::Llama3_1_8B).with_tools(vec![tool.clone()]);

    assert!(builder.messages.is_empty());
    assert_eq!(builder.tools.len(), 1);
    assert_eq!(builder.tools[0], tool);
}

#[test]
fn chat_chat_builder_with_messages_and_tools() {
    let messages = vec![ChatMessage::User {
        content: "Hello".to_string(),
    }];

    let tool = ToolBuilder::new("test_tool").build();

    let builder = ChatBuilder::new(Model::Llama3_1_8B)
        .with_messages(messages.clone())
        .with_tools(vec![tool.clone()]);

    assert_eq!(builder.messages, messages);
    assert_eq!(builder.tools.len(), 1);
    assert_eq!(builder.tools[0], tool);
}

#[test]
fn function_call_get_first_match_wins() {
    let function_call = FunctionCall {
        name: "test_function".to_string(),
        arguments: vec![
            ToolCallArgument {
                name: "arg".to_string(),
                value: "first".to_string(),
            },
            ToolCallArgument {
                name: "arg".to_string(),
                value: "second".to_string(),
            },
        ],
    };

    assert_eq!(function_call.get("arg"), Some("first".to_string()));
}

#[test]
fn model_wire_identifiers() {
    assert_eq!(Model::Llama3_1_8B.as_str(), "llama3.1:8b");
    assert_eq!(Model::Qwen3_32B.as_str(), "qwen3:32b");
    assert_eq!(Model::Llama4Scout.as_str(), "llama4-scout");
}

#[test]
fn request_without_tools_omits_them() {
    let request = ic_llm::chat(Model::Llama3_1_8B)
        .with_messages(vec![ChatMessage::User {
            content: "Hello".to_string(),
        }])
        .into_request();

    assert_eq!(request.model, "llama3.1:8b");
    assert_eq!(request.messages.len(), 1);
    assert!(request.tools.is_none());
}

#[test]
fn request_with_tools_carries_them() {
    let tool = ToolBuilder::new("test_tool").build();
    let request = ChatBuilder::new(Model::Qwen3_32B)
        .with_tools(vec![tool.clone()])
        .into_request();

    assert_eq!(request.model, "qwen3:32b");
    assert_eq!(request.tools, Some(vec![tool]));
}

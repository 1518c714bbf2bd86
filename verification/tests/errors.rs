use southesk::client::introspect::{introspection_text, ToolListing};
use southesk::error::{ClientBuildError, ClientCallError, ClientConnectError};

#[test]
fn error_texts() {
    assert_eq!(
        ClientCallError::parse_err("oops").to_string(),
        "Failed to parse response: oops"
    );
    assert_eq!(
        ClientCallError::McpError("bad".into()).to_string(),
        "Error response from MCP service: bad"
    );
    assert_eq!(
        ClientCallError::CommunicationError("closed".into()).to_string(),
        "MCP service communication error"
    );
    assert_eq!(
        ClientCallError::InvalidArguments("x".into()).to_string(),
        "Invalid arguments"
    );
    assert_eq!(
        ClientConnectError::AuthError { msg: "m".into(), source: None }.to_string(),
        "Authentication failed: m"
    );
    assert_eq!(
        ClientConnectError::ConnectionError { msg: "n".into(), source: Some("s".into()) }
            .to_string(),
        "Connection failed: n"
    );
    assert_eq!(
        ClientBuildError { msg: "b".into(), source: None }.to_string(),
        "Failed to build client: b"
    );
}

#[test]
fn introspection_report() {
    let tools = Ok(vec![
        ToolListing {
            name: "get_holdings".into(),
            description: Some("Holdings".into()),
            input_schema: "{}".into(),
            output_schema: "None".into(),
        },
        ToolListing {
            name: "t2".into(),
            description: None,
            input_schema: "A".into(),
            output_schema: "B".into(),
        },
    ]);
    let prompts = Ok(vec!["p1".to_string()]);
    assert_eq!(
        introspection_text(&tools, &prompts),
        "Fetching available tools from server...\n\
         Available tools: 2\n\
         - get_holdings (Holdings)\n{}\nNone\n\n\
         - t2 ()\nA\nB\n\n\
         Fetching available prompts from server...\n\
         Available prompts: 1\n\
         - p1\n"
    );
    let tools: Result<Vec<ToolListing>, String> = Err("down".into());
    let prompts: Result<Vec<String>, String> = Ok(vec![]);
    assert_eq!(
        introspection_text(&tools, &prompts),
        "Fetching available tools from server...\n\
         Error fetching tools: down\n\
         Fetching available prompts from server...\n\
         Available prompts: 0\n"
    );
    let many: Vec<ToolListing> = (0..12)
        .map(|i| ToolListing {
            name: format!("t{i}"),
            description: None,
            input_schema: String::new(),
            output_schema: String::new(),
        })
        .collect();
    let text = introspection_text(&Ok(many), &Err("x".into()));
    assert!(text.contains("Available tools: 12\n"));
    assert!(text.ends_with("Error fetching prompts: x\n"));
}

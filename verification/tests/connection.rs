use southesk::client::connection::{
    is_auth_required_error, ConnectFlow, ConnectPhase, InitFailure, StepOutcome,
};
use southesk::error::ClientConnectError;

fn run(interactive: bool, outcomes: Vec<StepOutcome>) -> (ConnectFlow, Vec<String>) {
    let mut flow = ConnectFlow::new(interactive);
    let mut trace = Vec::new();
    for o in outcomes {
        assert!(!flow.is_finished(), "flow ended early at {:?}", flow.phase);
        trace.push(format!("{:?}", flow.phase));
        flow = flow.step(o);
    }
    (flow, trace)
}

fn auth_msg(flow: &ConnectFlow) -> (String, Option<String>) {
    match &flow.phase {
        ConnectPhase::Failed(ClientConnectError::AuthError { msg, source }) => {
            (msg.clone(), source.clone())
        }
        other => panic!("expected an authentication error, got {other:?}"),
    }
}

#[test]
fn stored_credentials_connect_without_interaction() {
    let (flow, trace) = run(
        true,
        vec![
            StepOutcome::Done,
            StepOutcome::Found(true),
            StepOutcome::Found(true),
            StepOutcome::Done,
            StepOutcome::Done,
            StepOutcome::Done,
        ],
    );
    assert!(matches!(flow.phase, ConnectPhase::Connected));
    assert_eq!(flow.new_auth_runs, 0);
    assert!(!trace.iter().any(|p| p.contains("RunAuthHandler")));
}

#[test]
fn missing_secret_starts_new_authorization() {
    let (flow, _) = run(
        true,
        vec![
            StepOutcome::Done,
            StepOutcome::Found(true),
            StepOutcome::Found(false),
        ],
    );
    assert!(matches!(flow.phase, ConnectPhase::StartAuthorization));
    assert_eq!(flow.new_auth_runs, 1);
}

#[test]
fn full_new_authorization_connects() {
    let (flow, trace) = run(
        true,
        vec![
            StepOutcome::Done,
            StepOutcome::Found(false),
            StepOutcome::Found(false),
            StepOutcome::Started { secret_present: true },
            StepOutcome::Done,
            StepOutcome::Done,
            StepOutcome::Done,
            StepOutcome::Done,
            StepOutcome::Found(true),
            StepOutcome::Done,
        ],
    );
    assert!(matches!(flow.phase, ConnectPhase::Connected));
    assert_eq!(
        trace,
        vec![
            "CreateAuthManager",
            "LoadStoredCredentials",
            "LoadClientSecret { creds_found: false }",
            "StartAuthorization",
            "GetAuthorizationUrl { secret_present: true }",
            "RunAuthHandler { secret_present: true }",
            "HandleCallback { secret_present: true }",
            "SaveClientSecret",
            "IntoAuthorizationManager",
            "InitMcpClient",
        ]
    );
}

#[test]
fn non_interactive_refuses_new_authorization() {
    let (flow, _) = run(
        false,
        vec![
            StepOutcome::Done,
            StepOutcome::Found(false),
            StepOutcome::Found(true),
        ],
    );
    assert_eq!(
        auth_msg(&flow),
        (
            "Need to do a new authentiction, but interactive authentication is disabled"
                .to_string(),
            None
        )
    );
}

#[test]
fn auth_required_on_first_init_retries_once() {
    let stored = vec![
        StepOutcome::Done,
        StepOutcome::Found(true),
        StepOutcome::Found(true),
        StepOutcome::Done,
        StepOutcome::Done,
        StepOutcome::InitFailed {
            failure: InitFailure::AuthRequired,
            detail: "401".into(),
        },
    ];
    let (flow, _) = run(true, stored.clone());
    assert!(matches!(flow.phase, ConnectPhase::StartAuthorization));
    assert_eq!(flow.init_attempts, 1);

    let mut again = stored;
    again.extend(vec![
        StepOutcome::Started { secret_present: true },
        StepOutcome::Done,
        StepOutcome::Done,
        StepOutcome::Done,
        StepOutcome::Done,
        StepOutcome::Found(true),
        StepOutcome::InitFailed {
            failure: InitFailure::AuthorizationRequired,
            detail: "401 again".into(),
        },
    ]);
    let (flow, _) = run(true, again);
    match flow.phase {
        ConnectPhase::Failed(ClientConnectError::ConnectionError { msg, source }) => {
            assert_eq!(msg, "Failed to connect to MCP server");
            assert_eq!(source.as_deref(), Some("401 again"));
        }
        other => panic!("unexpected {other:?}"),
    }
}

#[test]
fn other_init_failure_is_a_connection_error() {
    let (flow, _) = run(
        true,
        vec![
            StepOutcome::Done,
            StepOutcome::Found(true),
            StepOutcome::Found(true),
            StepOutcome::Done,
            StepOutcome::Done,
            StepOutcome::InitFailed {
                failure: InitFailure::OtherTransport,
                detail: "timeout".into(),
            },
        ],
    );
    assert!(matches!(
        flow.phase,
        ConnectPhase::Failed(ClientConnectError::ConnectionError { .. })
    ));
}

#[test]
fn auth_required_without_handler_fails() {
    let (flow, _) = run(
        false,
        vec![
            StepOutcome::Done,
            StepOutcome::Found(true),
            StepOutcome::Found(true),
            StepOutcome::Done,
            StepOutcome::Done,
            StepOutcome::InitFailed {
                failure: InitFailure::AuthorizationRequired,
                detail: "401".into(),
            },
        ],
    );
    assert_eq!(
        auth_msg(&flow).0,
        "Need to do a new authentiction, but interactive authentication is disabled"
    );
}

#[test]
fn each_step_failure_has_its_message() {
    let cases: Vec<(Vec<StepOutcome>, &str)> = vec![
        (vec![], "Failed to initialize authorization manager"),
        (
            vec![StepOutcome::Done],
            "Error while loading credentials from credential store",
        ),
        (
            vec![StepOutcome::Done, StepOutcome::Found(true)],
            "Error while loading client secret from credential store",
        ),
        (
            vec![
                StepOutcome::Done,
                StepOutcome::Found(true),
                StepOutcome::Found(true),
            ],
            "Failed to discover authorization server metadata",
        ),
        (
            vec![
                StepOutcome::Done,
                StepOutcome::Found(true),
                StepOutcome::Found(true),
                StepOutcome::Done,
            ],
            "Failed to configure authorization manager with client credentials",
        ),
        (
            vec![
                StepOutcome::Done,
                StepOutcome::Found(false),
                StepOutcome::Found(false),
            ],
            "Failed to start authorization",
        ),
        (
            vec![
                StepOutcome::Done,
                StepOutcome::Found(false),
                StepOutcome::Found(false),
                StepOutcome::Started {
                    secret_present: true,
                },
            ],
            "Failed to get authorization URL",
        ),
        (
            vec![
                StepOutcome::Done,
                StepOutcome::Found(false),
                StepOutcome::Found(false),
                StepOutcome::Started {
                    secret_present: true,
                },
                StepOutcome::Done,
                StepOutcome::Done,
            ],
            "Failed to handle authorization callback",
        ),
    ];
    for (mut outcomes, msg) in cases {
        outcomes.push(StepOutcome::Failed("boom".into()));
        let (flow, _) = run(true, outcomes);
        assert_eq!(auth_msg(&flow), (msg.to_string(), Some("boom".to_string())));
    }
}

#[test]
fn handler_error_is_passed_on() {
    let handler_err = ClientConnectError::AuthError {
        msg: "user cancelled".into(),
        source: None,
    };
    let (flow, _) = run(
        true,
        vec![
            StepOutcome::Done,
            StepOutcome::Found(false),
            StepOutcome::Found(false),
            StepOutcome::Started {
                secret_present: true,
            },
            StepOutcome::Done,
            StepOutcome::HandlerFailed(handler_err),
        ],
    );
    assert_eq!(auth_msg(&flow), ("user cancelled".to_string(), None));
}

#[test]
fn missing_authorization_manager_fails() {
    let (flow, _) = run(
        true,
        vec![
            StepOutcome::Done,
            StepOutcome::Found(false),
            StepOutcome::Found(false),
            StepOutcome::Started {
                secret_present: true,
            },
            StepOutcome::Done,
            StepOutcome::Done,
            StepOutcome::Done,
            StepOutcome::Done,
            StepOutcome::Found(false),
        ],
    );
    assert_eq!(
        auth_msg(&flow),
        (
            "Failed to convert OAuth state into authorization manager".to_string(),
            None
        )
    );
}

#[test]
fn auth_required_classification() {
    assert!(is_auth_required_error(InitFailure::AuthorizationRequired));
    assert!(is_auth_required_error(InitFailure::AuthRequired));
    assert!(!is_auth_required_error(InitFailure::OtherTransport));
    assert!(!is_auth_required_error(InitFailure::Other));
}

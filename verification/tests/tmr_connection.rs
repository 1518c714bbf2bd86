use southesk::client::connection::{InitFailure, StepOutcome};
use southesk::client::tmr_connection::{TmrConnectFlow, TmrPhase};
use southesk::error::ClientConnectError;

fn run_tmr(outcomes: Vec<StepOutcome>) -> (TmrConnectFlow, Vec<String>) {
    let mut flow = TmrConnectFlow::new();
    let mut trace = Vec::new();
    for o in outcomes {
        assert!(!flow.is_finished(), "flow ended early at {:?}", flow.phase);
        trace.push(format!("{:?}", flow.phase));
        flow = flow.step(o);
    }
    (flow, trace)
}

fn new_auth_outcomes() -> Vec<StepOutcome> {
    vec![
        StepOutcome::Done,
        StepOutcome::Done,
        StepOutcome::Done,
        StepOutcome::Done,
        StepOutcome::Done,
        StepOutcome::Done,
        StepOutcome::Found(true),
        StepOutcome::Found(true),
    ]
}

#[test]
fn tmr_stored_credentials_connect() {
    let (flow, trace) = run_tmr(vec![
        StepOutcome::Done,
        StepOutcome::Found(true),
        StepOutcome::Done,
    ]);
    assert!(matches!(flow.phase, TmrPhase::Connected));
    assert_eq!(flow.new_auth_runs, 0);
    assert_eq!(trace, vec!["CreateAuthManager", "InitFromStore", "InitMcpClient"]);
}

#[test]
fn tmr_new_authorization_connects() {
    let mut outcomes = vec![StepOutcome::Done, StepOutcome::Found(false)];
    outcomes.extend(new_auth_outcomes());
    outcomes.push(StepOutcome::Done);
    let (flow, trace) = run_tmr(outcomes);
    assert!(matches!(flow.phase, TmrPhase::Connected));
    assert_eq!(flow.new_auth_runs, 1);
    assert_eq!(
        trace,
        vec![
            "CreateAuthManager",
            "InitFromStore",
            "CreateOAuthState",
            "CreateCallbackHandler",
            "StartAuthorization",
            "GetAuthorizationUrl",
            "RunAuthHandler",
            "HandleCallback",
            "GetCredentials",
            "IntoAuthorizationManager",
            "InitMcpClient",
        ]
    );
}

#[test]
fn tmr_no_token_is_refused() {
    let (flow, _) = run_tmr(vec![
        StepOutcome::Done,
        StepOutcome::Found(false),
        StepOutcome::Done,
        StepOutcome::Done,
        StepOutcome::Done,
        StepOutcome::Done,
        StepOutcome::Done,
        StepOutcome::Done,
        StepOutcome::Found(false),
    ]);
    match flow.phase {
        TmrPhase::Failed(ClientConnectError::AuthError { msg, source }) => {
            assert_eq!(msg, "No credentials obtained from OAuth state");
            assert!(source.is_none());
        }
        other => panic!("unexpected {other:?}"),
    }
}

#[test]
fn tmr_step_errors_name_the_step() {
    let (flow, _) = run_tmr(vec![StepOutcome::Done, StepOutcome::Failed("disk".into())]);
    match flow.phase {
        TmrPhase::Failed(ClientConnectError::AuthError { msg, source }) => {
            assert_eq!(
                msg,
                "Failed to initialize authorization manager from credential store"
            );
            assert_eq!(source.as_deref(), Some("disk"));
        }
        other => panic!("unexpected {other:?}"),
    }
    let (flow, _) = run_tmr(vec![
        StepOutcome::Done,
        StepOutcome::Found(false),
        StepOutcome::Failed("net".into()),
    ]);
    match flow.phase {
        TmrPhase::Failed(ClientConnectError::AuthError { msg, .. }) => {
            assert_eq!(msg, "Failed to initialize OAuth state")
        }
        other => panic!("unexpected {other:?}"),
    }
}

#[test]
fn tmr_handler_creation_error_passes_through() {
    let err = ClientConnectError::AuthError {
        msg: "Failed to bind".into(),
        source: Some("port in use".into()),
    };
    let (flow, _) = run_tmr(vec![
        StepOutcome::Done,
        StepOutcome::Found(false),
        StepOutcome::Done,
        StepOutcome::HandlerFailed(err),
    ]);
    match flow.phase {
        TmrPhase::Failed(ClientConnectError::AuthError { msg, source }) => {
            assert_eq!(msg, "Failed to bind");
            assert_eq!(source.as_deref(), Some("port in use"));
        }
        other => panic!("unexpected {other:?}"),
    }
}

#[test]
fn tmr_retries_once_after_authorization_required() {
    let mut outcomes = vec![
        StepOutcome::Done,
        StepOutcome::Found(true),
        StepOutcome::InitFailed {
            failure: InitFailure::AuthRequired,
            detail: "401".into(),
        },
    ];
    outcomes.extend(new_auth_outcomes());
    outcomes.push(StepOutcome::InitFailed {
        failure: InitFailure::AuthorizationRequired,
        detail: "401 again".into(),
    });
    let (flow, _) = run_tmr(outcomes);
    assert_eq!(flow.new_auth_runs, 1);
    match flow.phase {
        TmrPhase::Failed(ClientConnectError::ConnectionError { msg, source }) => {
            assert_eq!(msg, "Failed to connect to MCP server");
            assert_eq!(source.as_deref(), Some("401 again"));
        }
        other => panic!("unexpected {other:?}"),
    }
}

#[test]
fn tmr_other_init_failure_is_not_retried() {
    let (flow, _) = run_tmr(vec![
        StepOutcome::Done,
        StepOutcome::Found(true),
        StepOutcome::InitFailed {
            failure: InitFailure::OtherTransport,
            detail: "timeout".into(),
        },
    ]);
    assert_eq!(flow.new_auth_runs, 0);
    assert!(matches!(
        flow.phase,
        TmrPhase::Failed(ClientConnectError::ConnectionError { .. })
    ));
}

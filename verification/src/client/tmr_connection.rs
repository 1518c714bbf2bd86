//! The connection flow of `TmrClient`: the authorization manager is
//! initialised from the credential store in one step; when that gives
//! nothing, a new authorization creates the OAuth state and the callback
//! handler, lets the user authenticate, exchanges the code and checks that
//! the exchange gave a token; the MCP client initialisation is retried once
//! with a new authorization when the server asks for one.
//!
//! As with [`ConnectFlow`](super::connection::ConnectFlow), the driver
//! performs the step that [`TmrConnectFlow::phase`] names, reports the
//! outcome with [`TmrConnectFlow::step`] and stops at `Connected` or
//! `Failed`.

use vstd::prelude::*;

use crate::client::connection::{
    is_auth_required_error, spec_is_auth_required, InitFailure, OutcomeModel, StepOutcome,
};
use crate::error::{ClientConnectError, ConnectErrorModel};

verus! {

/// The step the driver of a `TmrClient` connection performs next, or the end
/// of the flow.
#[derive(Debug, Clone)]
pub enum TmrPhase {
    /// Create an authorization manager for the MCP server.
    CreateAuthManager,
    /// Initialise the authorization manager from the credential store; the
    /// outcome says whether it was initialised.
    InitFromStore,
    /// Create the OAuth state for a new authorization.
    CreateOAuthState,
    /// Create the callback handler that waits for the redirect.
    CreateCallbackHandler,
    /// Start the authorization (client registration).
    StartAuthorization,
    /// Get the authorization URL.
    GetAuthorizationUrl,
    /// Let the callback handler have the user authenticate.
    RunAuthHandler,
    /// Exchange the authorization code for an access token.
    HandleCallback,
    /// Read the credentials from the OAuth state; the outcome says whether a
    /// token is there.
    GetCredentials,
    /// Turn the OAuth state into an authorization manager.
    IntoAuthorizationManager,
    /// Initialise the MCP client.
    InitMcpClient,
    /// The client is connected.
    Connected,
    /// The flow failed with this error.
    Failed(ClientConnectError),
}

/// The state of one `TmrClient` connection attempt.
#[derive(Debug, Clone)]
pub struct TmrConnectFlow {
    /// The step to perform next.
    pub phase: TmrPhase,
    /// How many new authorizations were started.
    pub new_auth_runs: u8,
    /// How many MCP client initialisations failed.
    pub init_attempts: u8,
}

/// The abstract value of a phase.
pub enum TmrPhaseModel {
    CreateAuthManager,
    InitFromStore,
    CreateOAuthState,
    CreateCallbackHandler,
    StartAuthorization,
    GetAuthorizationUrl,
    RunAuthHandler,
    HandleCallback,
    GetCredentials,
    IntoAuthorizationManager,
    InitMcpClient,
    Connected,
    Failed(ConnectErrorModel),
}

impl View for TmrPhase {
    type V = TmrPhaseModel;

    open spec fn view(&self) -> TmrPhaseModel {
        match self {
            TmrPhase::CreateAuthManager => TmrPhaseModel::CreateAuthManager,
            TmrPhase::InitFromStore => TmrPhaseModel::InitFromStore,
            TmrPhase::CreateOAuthState => TmrPhaseModel::CreateOAuthState,
            TmrPhase::CreateCallbackHandler => TmrPhaseModel::CreateCallbackHandler,
            TmrPhase::StartAuthorization => TmrPhaseModel::StartAuthorization,
            TmrPhase::GetAuthorizationUrl => TmrPhaseModel::GetAuthorizationUrl,
            TmrPhase::RunAuthHandler => TmrPhaseModel::RunAuthHandler,
            TmrPhase::HandleCallback => TmrPhaseModel::HandleCallback,
            TmrPhase::GetCredentials => TmrPhaseModel::GetCredentials,
            TmrPhase::IntoAuthorizationManager => TmrPhaseModel::IntoAuthorizationManager,
            TmrPhase::InitMcpClient => TmrPhaseModel::InitMcpClient,
            TmrPhase::Connected => TmrPhaseModel::Connected,
            TmrPhase::Failed(e) => TmrPhaseModel::Failed(e@),
        }
    }
}

/// The abstract value of a `TmrClient` connection flow.
pub struct TmrFlowModel {
    pub phase: TmrPhaseModel,
    pub new_auth_runs: nat,
    pub init_attempts: nat,
}

impl View for TmrConnectFlow {
    type V = TmrFlowModel;

    open spec fn view(&self) -> TmrFlowModel {
        TmrFlowModel {
            phase: self.phase@,
            new_auth_runs: self.new_auth_runs as nat,
            init_attempts: self.init_attempts as nat,
        }
    }
}

// ---------------------------------------------------------------------------
// The transition relation
// ---------------------------------------------------------------------------

/// An authentication failure with a message and the failing step's error.
pub open spec fn tmr_auth_failure(msg: Seq<char>, detail: Seq<char>) -> TmrPhaseModel {
    TmrPhaseModel::Failed(ConnectErrorModel::Auth { msg, source: Some(detail) })
}

/// An authentication failure with a message and no source.
pub open spec fn tmr_refusal(msg: Seq<char>) -> TmrPhaseModel {
    TmrPhaseModel::Failed(ConnectErrorModel::Auth { msg, source: None })
}

/// Whether a phase belongs to the new authorization.
pub open spec fn is_tmr_new_auth_phase(p: TmrPhaseModel) -> bool {
    match p {
        TmrPhaseModel::CreateOAuthState => true,
        TmrPhaseModel::CreateCallbackHandler => true,
        TmrPhaseModel::StartAuthorization => true,
        TmrPhaseModel::GetAuthorizationUrl => true,
        TmrPhaseModel::RunAuthHandler => true,
        TmrPhaseModel::HandleCallback => true,
        TmrPhaseModel::GetCredentials => true,
        TmrPhaseModel::IntoAuthorizationManager => true,
        _ => false,
    }
}

/// Whether the flow has ended.
pub open spec fn is_tmr_terminal(p: TmrPhaseModel) -> bool {
    p is Connected || p is Failed
}

/// The flow in a given phase, counters unchanged.
pub open spec fn tmr_goto(f: TmrFlowModel, p: TmrPhaseModel) -> TmrFlowModel {
    TmrFlowModel { phase: p, ..f }
}

/// Starting a new authorization.
pub open spec fn tmr_begin_new_auth(f: TmrFlowModel, init_attempts: nat) -> TmrFlowModel {
    TmrFlowModel {
        phase: TmrPhaseModel::CreateOAuthState,
        new_auth_runs: f.new_auth_runs + 1,
        init_attempts,
    }
}

/// The flow after the driver reports outcome `o` of the current step.
pub open spec fn spec_tmr_next(f: TmrFlowModel, o: OutcomeModel) -> TmrFlowModel {
    match f.phase {
        TmrPhaseModel::CreateAuthManager => match o {
            OutcomeModel::Done => tmr_goto(f, TmrPhaseModel::InitFromStore),
            OutcomeModel::Failed(d) => tmr_goto(
                f,
                tmr_auth_failure("Failed to initialize authorization manager"@, d),
            ),
            _ => f,
        },
        TmrPhaseModel::InitFromStore => match o {
            OutcomeModel::Found(true) => tmr_goto(f, TmrPhaseModel::InitMcpClient),
            OutcomeModel::Found(false) => tmr_begin_new_auth(f, f.init_attempts),
            OutcomeModel::Failed(d) => tmr_goto(
                f,
                tmr_auth_failure(
                    "Failed to initialize authorization manager from credential store"@,
                    d,
                ),
            ),
            _ => f,
        },
        TmrPhaseModel::CreateOAuthState => match o {
            OutcomeModel::Done => tmr_goto(f, TmrPhaseModel::CreateCallbackHandler),
            OutcomeModel::Failed(d) => tmr_goto(
                f,
                tmr_auth_failure("Failed to initialize OAuth state"@, d),
            ),
            _ => f,
        },
        TmrPhaseModel::CreateCallbackHandler => match o {
            OutcomeModel::Done => tmr_goto(f, TmrPhaseModel::StartAuthorization),
            OutcomeModel::HandlerFailed(e) => tmr_goto(f, TmrPhaseModel::Failed(e)),
            _ => f,
        },
        TmrPhaseModel::StartAuthorization => match o {
            OutcomeModel::Done => tmr_goto(f, TmrPhaseModel::GetAuthorizationUrl),
            OutcomeModel::Failed(d) => tmr_goto(
                f,
                tmr_auth_failure("Failed to start authorization"@, d),
            ),
            _ => f,
        },
        TmrPhaseModel::GetAuthorizationUrl => match o {
            OutcomeModel::Done => tmr_goto(f, TmrPhaseModel::RunAuthHandler),
            OutcomeModel::Failed(d) => tmr_goto(
                f,
                tmr_auth_failure("Failed to get authorization URL"@, d),
            ),
            _ => f,
        },
        TmrPhaseModel::RunAuthHandler => match o {
            OutcomeModel::Done => tmr_goto(f, TmrPhaseModel::HandleCallback),
            OutcomeModel::HandlerFailed(e) => tmr_goto(f, TmrPhaseModel::Failed(e)),
            _ => f,
        },
        TmrPhaseModel::HandleCallback => match o {
            OutcomeModel::Done => tmr_goto(f, TmrPhaseModel::GetCredentials),
            OutcomeModel::Failed(d) => tmr_goto(
                f,
                tmr_auth_failure("Failed to handle authorization callback"@, d),
            ),
            _ => f,
        },
        TmrPhaseModel::GetCredentials => match o {
            OutcomeModel::Found(true) => tmr_goto(f, TmrPhaseModel::IntoAuthorizationManager),
            OutcomeModel::Found(false) => tmr_goto(
                f,
                tmr_refusal("No credentials obtained from OAuth state"@),
            ),
            OutcomeModel::Failed(d) => tmr_goto(
                f,
                tmr_auth_failure("Failed to get credentials from OAuth state"@, d),
            ),
            _ => f,
        },
        TmrPhaseModel::IntoAuthorizationManager => match o {
            OutcomeModel::Found(true) => tmr_goto(f, TmrPhaseModel::InitMcpClient),
            OutcomeModel::Found(false) => tmr_goto(
                f,
                tmr_refusal("Failed to convert OAuth state into authorization manager"@),
            ),
            _ => f,
        },
        TmrPhaseModel::InitMcpClient => match o {
            OutcomeModel::Done => tmr_goto(f, TmrPhaseModel::Connected),
            OutcomeModel::InitFailed { failure, detail } => if f.init_attempts == 0
                && spec_is_auth_required(failure) {
                tmr_begin_new_auth(f, 1)
            } else {
                tmr_goto(
                    f,
                    TmrPhaseModel::Failed(
                        ConnectErrorModel::Connection {
                            msg: "Failed to connect to MCP server"@,
                            source: Some(detail),
                        },
                    ),
                )
            },
            _ => f,
        },
        TmrPhaseModel::Connected => f,
        TmrPhaseModel::Failed(_) => f,
    }
}

/// Whether outcome `o` is one that the step of phase `p` can have.
pub open spec fn tmr_outcome_fits(p: TmrPhaseModel, o: OutcomeModel) -> bool {
    match p {
        TmrPhaseModel::CreateAuthManager => o is Done || o is Failed,
        TmrPhaseModel::InitFromStore => o is Found || o is Failed,
        TmrPhaseModel::CreateOAuthState => o is Done || o is Failed,
        TmrPhaseModel::CreateCallbackHandler => o is Done || o is HandlerFailed,
        TmrPhaseModel::StartAuthorization => o is Done || o is Failed,
        TmrPhaseModel::GetAuthorizationUrl => o is Done || o is Failed,
        TmrPhaseModel::RunAuthHandler => o is Done || o is HandlerFailed,
        TmrPhaseModel::HandleCallback => o is Done || o is Failed,
        TmrPhaseModel::GetCredentials => o is Found || o is Failed,
        TmrPhaseModel::IntoAuthorizationManager => o is Found,
        TmrPhaseModel::InitMcpClient => o is Done || o is InitFailed,
        TmrPhaseModel::Connected => false,
        TmrPhaseModel::Failed(_) => false,
    }
}

/// The invariant of a `TmrClient` connection flow.
pub open spec fn tmr_flow_wf(f: TmrFlowModel) -> bool {
    &&& f.init_attempts <= 1
    &&& f.new_auth_runs <= f.init_attempts + 1
    &&& (f.phase is CreateAuthManager || f.phase is InitFromStore) ==> f.init_attempts == 0
        && f.new_auth_runs == 0
    &&& is_tmr_new_auth_phase(f.phase) ==> f.new_auth_runs >= 1
    &&& f.phase is InitMcpClient && f.init_attempts == 0 ==> f.new_auth_runs <= 1
}

/// The position of a phase within one round of the flow.
pub open spec fn tmr_phase_pos(p: TmrPhaseModel) -> nat {
    match p {
        TmrPhaseModel::CreateAuthManager => 0,
        TmrPhaseModel::InitFromStore => 1,
        TmrPhaseModel::CreateOAuthState => 2,
        TmrPhaseModel::CreateCallbackHandler => 3,
        TmrPhaseModel::StartAuthorization => 4,
        TmrPhaseModel::GetAuthorizationUrl => 5,
        TmrPhaseModel::RunAuthHandler => 6,
        TmrPhaseModel::HandleCallback => 7,
        TmrPhaseModel::GetCredentials => 8,
        TmrPhaseModel::IntoAuthorizationManager => 9,
        TmrPhaseModel::InitMcpClient => 10,
        TmrPhaseModel::Connected => 11,
        TmrPhaseModel::Failed(_) => 11,
    }
}

/// A measure of the work left: it falls with every step until the flow ends.
pub open spec fn tmr_flow_rank(f: TmrFlowModel) -> nat {
    if is_tmr_terminal(f.phase) {
        0
    } else {
        ((2 - f.init_attempts) * 11 + (11 - tmr_phase_pos(f.phase))) as nat
    }
}

/// The flow at its start.
pub open spec fn spec_tmr_initial_flow() -> TmrFlowModel {
    TmrFlowModel { phase: TmrPhaseModel::CreateAuthManager, new_auth_runs: 0, init_attempts: 0 }
}

// ---------------------------------------------------------------------------
// The executable flow
// ---------------------------------------------------------------------------

fn tmr_auth_failed(msg: &str, detail: String) -> (p: TmrPhase)
    ensures
        p@ == tmr_auth_failure(msg@, detail@),
{
    TmrPhase::Failed(ClientConnectError::AuthError { msg: msg.to_owned(), source: Some(detail) })
}

fn tmr_refused(msg: &str) -> (p: TmrPhase)
    ensures
        p@ == tmr_refusal(msg@),
{
    TmrPhase::Failed(ClientConnectError::AuthError { msg: msg.to_owned(), source: None })
}

impl TmrConnectFlow {
    /// A new connection attempt.
    pub fn new() -> (f: TmrConnectFlow)
        ensures
            f@ == spec_tmr_initial_flow(),
            tmr_flow_wf(f@),
    {
        TmrConnectFlow { phase: TmrPhase::CreateAuthManager, new_auth_runs: 0, init_attempts: 0 }
    }

    /// Whether the flow has ended, connected or failed.
    pub fn is_finished(&self) -> (b: bool)
        ensures
            b == is_tmr_terminal(self@.phase),
    {
        match self.phase {
            TmrPhase::Connected => true,
            TmrPhase::Failed(_) => true,
            _ => false,
        }
    }

    fn begin_new_auth(self, init_attempts: u8) -> (next: TmrConnectFlow)
        requires
            self.new_auth_runs < 2,
        ensures
            next@ == tmr_begin_new_auth(self@, init_attempts as nat),
    {
        TmrConnectFlow {
            phase: TmrPhase::CreateOAuthState,
            new_auth_runs: self.new_auth_runs + 1,
            init_attempts,
        }
    }

    fn goto(self, phase: TmrPhase) -> (next: TmrConnectFlow)
        ensures
            next@ == tmr_goto(self@, phase@),
    {
        TmrConnectFlow { phase, ..self }
    }

    /// The flow after the outcome of the current step.
    pub fn step(self, outcome: StepOutcome) -> (next: TmrConnectFlow)
        requires
            tmr_flow_wf(self@),
            tmr_outcome_fits(self@.phase, outcome@),
        ensures
            next@ == spec_tmr_next(self@, outcome@),
            tmr_flow_wf(next@),
            tmr_flow_rank(next@) < tmr_flow_rank(self@),
    {
        proof {
            lemma_tmr_step_progress(self@, outcome@);
        }
        match &self.phase {
            TmrPhase::CreateAuthManager => match outcome {
                StepOutcome::Done => self.goto(TmrPhase::InitFromStore),
                StepOutcome::Failed(d) => self.goto(
                    tmr_auth_failed("Failed to initialize authorization manager", d),
                ),
                _ => self,
            },
            TmrPhase::InitFromStore => match outcome {
                StepOutcome::Found(b) => if b {
                    self.goto(TmrPhase::InitMcpClient)
                } else {
                    let a = self.init_attempts;
                    self.begin_new_auth(a)
                },
                StepOutcome::Failed(d) => self.goto(
                    tmr_auth_failed(
                        "Failed to initialize authorization manager from credential store",
                        d,
                    ),
                ),
                _ => self,
            },
            TmrPhase::CreateOAuthState => match outcome {
                StepOutcome::Done => self.goto(TmrPhase::CreateCallbackHandler),
                StepOutcome::Failed(d) => self.goto(
                    tmr_auth_failed("Failed to initialize OAuth state", d),
                ),
                _ => self,
            },
            TmrPhase::CreateCallbackHandler => match outcome {
                StepOutcome::Done => self.goto(TmrPhase::StartAuthorization),
                StepOutcome::HandlerFailed(e) => self.goto(TmrPhase::Failed(e)),
                _ => self,
            },
            TmrPhase::StartAuthorization => match outcome {
                StepOutcome::Done => self.goto(TmrPhase::GetAuthorizationUrl),
                StepOutcome::Failed(d) => self.goto(
                    tmr_auth_failed("Failed to start authorization", d),
                ),
                _ => self,
            },
            TmrPhase::GetAuthorizationUrl => match outcome {
                StepOutcome::Done => self.goto(TmrPhase::RunAuthHandler),
                StepOutcome::Failed(d) => self.goto(
                    tmr_auth_failed("Failed to get authorization URL", d),
                ),
                _ => self,
            },
            TmrPhase::RunAuthHandler => match outcome {
                StepOutcome::Done => self.goto(TmrPhase::HandleCallback),
                StepOutcome::HandlerFailed(e) => self.goto(TmrPhase::Failed(e)),
                _ => self,
            },
            TmrPhase::HandleCallback => match outcome {
                StepOutcome::Done => self.goto(TmrPhase::GetCredentials),
                StepOutcome::Failed(d) => self.goto(
                    tmr_auth_failed("Failed to handle authorization callback", d),
                ),
                _ => self,
            },
            TmrPhase::GetCredentials => match outcome {
                StepOutcome::Found(b) => if b {
                    self.goto(TmrPhase::IntoAuthorizationManager)
                } else {
                    self.goto(tmr_refused("No credentials obtained from OAuth state"))
                },
                StepOutcome::Failed(d) => self.goto(
                    tmr_auth_failed("Failed to get credentials from OAuth state", d),
                ),
                _ => self,
            },
            TmrPhase::IntoAuthorizationManager => match outcome {
                StepOutcome::Found(b) => if b {
                    self.goto(TmrPhase::InitMcpClient)
                } else {
                    self.goto(tmr_refused("Failed to convert OAuth state into authorization manager"))
                },
                _ => self,
            },
            TmrPhase::InitMcpClient => match outcome {
                StepOutcome::Done => self.goto(TmrPhase::Connected),
                StepOutcome::InitFailed { failure, detail } => if self.init_attempts == 0
                    && is_auth_required_error(failure) {
                    self.begin_new_auth(1)
                } else {
                    self.goto(
                        TmrPhase::Failed(
                            ClientConnectError::ConnectionError {
                                msg: "Failed to connect to MCP server".to_owned(),
                                source: Some(detail),
                            },
                        ),
                    )
                },
                _ => self,
            },
            TmrPhase::Connected => self,
            TmrPhase::Failed(_) => self,
        }
    }
}

// ---------------------------------------------------------------------------
// Laws of the flow
// ---------------------------------------------------------------------------

/// Every step of a well-formed flow keeps it well-formed and lowers its rank:
/// a `TmrClient` connection attempt ends, connected or failed, after at most
/// `tmr_flow_rank` of its start (33) reported outcomes.
pub proof fn lemma_tmr_step_progress(f: TmrFlowModel, o: OutcomeModel)
    requires
        tmr_flow_wf(f),
        tmr_outcome_fits(f.phase, o),
    ensures
        tmr_flow_wf(spec_tmr_next(f, o)),
        tmr_flow_rank(spec_tmr_next(f, o)) < tmr_flow_rank(f),
{
}

/// The flow after the outcomes `os`, reported one by one until it ends.
pub open spec fn tmr_run(f: TmrFlowModel, os: Seq<OutcomeModel>) -> TmrFlowModel
    decreases os.len(),
{
    if os.len() == 0 || is_tmr_terminal(f.phase) {
        f
    } else {
        tmr_run(spec_tmr_next(f, os[0]), os.drop_first())
    }
}

/// Whether each outcome of `os` is one that the step it answers can have.
pub open spec fn tmr_run_fits(f: TmrFlowModel, os: Seq<OutcomeModel>) -> bool
    decreases os.len(),
{
    if os.len() == 0 || is_tmr_terminal(f.phase) {
        true
    } else {
        tmr_outcome_fits(f.phase, os[0]) && tmr_run_fits(spec_tmr_next(f, os[0]), os.drop_first())
    }
}

/// A well-formed flow ends, connected or failed, once as many outcomes as its
/// rank have been reported.
pub proof fn lemma_tmr_runs_end(f: TmrFlowModel, os: Seq<OutcomeModel>)
    requires
        tmr_flow_wf(f),
        tmr_run_fits(f, os),
        os.len() >= tmr_flow_rank(f),
    ensures
        is_tmr_terminal(tmr_run(f, os).phase),
    decreases os.len(),
{
    if os.len() > 0 && !is_tmr_terminal(f.phase) {
        lemma_tmr_step_progress(f, os[0]);
        lemma_tmr_runs_end(spec_tmr_next(f, os[0]), os.drop_first());
    }
}

/// Every `TmrClient` connection attempt ends, connected or failed, after at
/// most 33 reported outcomes.
pub proof fn lemma_tmr_connect_ends(os: Seq<OutcomeModel>)
    requires
        tmr_run_fits(spec_tmr_initial_flow(), os),
        os.len() >= 33,
    ensures
        is_tmr_terminal(tmr_run(spec_tmr_initial_flow(), os).phase),
{
    assert(tmr_flow_rank(spec_tmr_initial_flow()) == 33);
    lemma_tmr_runs_end(spec_tmr_initial_flow(), os);
}

/// At most two new authorizations are started, and the MCP client is
/// initialised at most twice, in one connection attempt.
pub proof fn lemma_tmr_new_auth_runs_bounded(f: TmrFlowModel)
    requires
        tmr_flow_wf(f),
    ensures
        f.new_auth_runs <= 2,
        f.init_attempts <= 1,
{
}

/// After a failed retry of the MCP client initialisation the flow ends.
pub proof fn lemma_tmr_second_init_ends(f: TmrFlowModel, o: OutcomeModel)
    requires
        tmr_flow_wf(f),
        f.phase is InitMcpClient,
        f.init_attempts == 1,
        tmr_outcome_fits(f.phase, o),
    ensures
        is_tmr_terminal(spec_tmr_next(f, o).phase),
        o is Done ==> spec_tmr_next(f, o).phase is Connected,
{
}

/// A new authorization starts only when the credential store gave nothing,
/// or when the first initialisation of the MCP client failed because the
/// server asked for authorization.
pub proof fn lemma_tmr_new_auth_causes(f: TmrFlowModel, o: OutcomeModel)
    requires
        tmr_flow_wf(f),
        tmr_outcome_fits(f.phase, o),
        spec_tmr_next(f, o).phase is CreateOAuthState,
    ensures
        ({
            ||| (f.phase is InitFromStore && o == OutcomeModel::Found(false))
            ||| (f.phase is InitMcpClient && f.init_attempts == 0 && (
            o matches OutcomeModel::InitFailed { failure, .. } && spec_is_auth_required(failure)))
        }),
{
}

/// When the credential store initialises the authorization manager, the MCP
/// client is initialised without a new authorization.
pub proof fn lemma_tmr_stored_credentials_used()
    ensures
        ({
            let f1 = spec_tmr_next(spec_tmr_initial_flow(), OutcomeModel::Done);
            let f2 = spec_tmr_next(f1, OutcomeModel::Found(true));
            &&& f2.phase is InitMcpClient
            &&& f2.new_auth_runs == 0
        }),
{
}

/// An error of the callback handler, when it is created or while the user
/// authenticates, ends the flow with that error, unchanged.
pub proof fn lemma_tmr_handler_error_propagates(f: TmrFlowModel, e: ConnectErrorModel)
    requires
        f.phase is CreateCallbackHandler || f.phase is RunAuthHandler,
    ensures
        spec_tmr_next(f, OutcomeModel::HandlerFailed(e)).phase == TmrPhaseModel::Failed(e),
{
}

/// A code exchange that gave no token is refused: the flow ends with an
/// authentication error without a source.
pub proof fn lemma_tmr_no_token_refused(f: TmrFlowModel)
    requires
        f.phase is GetCredentials,
    ensures
        spec_tmr_next(f, OutcomeModel::Found(false)).phase == tmr_refusal(
            "No credentials obtained from OAuth state"@,
        ),
{
}

} // verus!

verus! {

/// When the first MCP client initialisation fails because the server asks for
/// authorization (either kind of failure that says so), a new authorization
/// starts, for a single retry.
pub proof fn lemma_tmr_auth_required_init_reauthorizes(
    f: TmrFlowModel,
    failure: InitFailure,
    detail: Seq<char>,
)
    requires
        f.phase is InitMcpClient,
        f.init_attempts == 0,
        failure == InitFailure::AuthorizationRequired || failure == InitFailure::AuthRequired,
    ensures
        ({
            let n = spec_tmr_next(f, OutcomeModel::InitFailed { failure, detail });
            &&& n.phase is CreateOAuthState
            &&& n.init_attempts == 1
            &&& n.new_auth_runs == f.new_auth_runs + 1
        }),
{
}

/// An initialisation failure that does not ask for authorization, or any
/// failure of the retry, ends the flow with the connection error that carries
/// the failure's description.
pub proof fn lemma_tmr_init_failure_ends_with_connection_error(
    f: TmrFlowModel,
    failure: InitFailure,
    detail: Seq<char>,
)
    requires
        f.phase is InitMcpClient,
        f.init_attempts == 1 || failure == InitFailure::OtherTransport || failure
            == InitFailure::Other,
    ensures
        spec_tmr_next(f, OutcomeModel::InitFailed { failure, detail }).phase
            == TmrPhaseModel::Failed(
            ConnectErrorModel::Connection {
                msg: "Failed to connect to MCP server"@,
                source: Some(detail),
            },
        ),
{
}

/// When the credential store does not initialise the authorization manager,
/// a new authorization starts.
pub proof fn lemma_tmr_empty_store_starts_new_auth()
    ensures
        ({
            let f1 = spec_tmr_next(spec_tmr_initial_flow(), OutcomeModel::Done);
            let f2 = spec_tmr_next(f1, OutcomeModel::Found(false));
            &&& f2.phase is CreateOAuthState
            &&& f2.new_auth_runs == 1
            &&& f2.init_attempts == 0
        }),
{
}

/// A new authorization whose steps all succeed (OAuth state and callback
/// handler created, authorization started, URL got, user authenticated, code
/// exchanged, token present, authorization manager made) leads to the
/// initialisation of the MCP client, with the counters unchanged; a
/// successful initialisation connects.
pub proof fn lemma_tmr_new_auth_leads_to_init(f: TmrFlowModel)
    requires
        f.phase is CreateOAuthState,
    ensures
        ({
            let f1 = spec_tmr_next(f, OutcomeModel::Done);
            let f2 = spec_tmr_next(f1, OutcomeModel::Done);
            let f3 = spec_tmr_next(f2, OutcomeModel::Done);
            let f4 = spec_tmr_next(f3, OutcomeModel::Done);
            let f5 = spec_tmr_next(f4, OutcomeModel::Done);
            let f6 = spec_tmr_next(f5, OutcomeModel::Done);
            let f7 = spec_tmr_next(f6, OutcomeModel::Found(true));
            let f8 = spec_tmr_next(f7, OutcomeModel::Found(true));
            &&& f8.phase is InitMcpClient
            &&& f8.new_auth_runs == f.new_auth_runs
            &&& f8.init_attempts == f.init_attempts
            &&& spec_tmr_next(f8, OutcomeModel::Done).phase is Connected
        }),
{
}

} // verus!

//! The connection flow of the client: authorization from the credential
//! store, the interactive OAuth authorization, the MCP client initialisation
//! and the single retry after the server asks for authorization.
//!
//! The flow is a state machine. The driver performs the step that
//! [`ConnectFlow::phase`] names (a call to the OAuth or MCP machinery, a load
//! from the credential store, or the authentication handler), reports the
//! outcome with [`ConnectFlow::step`], and stops when the phase is
//! `Connected` or `Failed`.

use vstd::prelude::*;

use crate::error::{ClientConnectError, ConnectErrorModel};

verus! {

/// How an MCP client initialisation failed, as far as the flow needs to know.
#[derive(Debug, Clone, Copy, PartialEq, Eq, Structural)]
pub enum InitFailure {
    /// A transport error carrying an HTTP error that says authorization is
    /// required (`AuthError::AuthorizationRequired`).
    AuthorizationRequired,
    /// A transport error carrying an HTTP error that says authentication is
    /// required (`AuthRequired`).
    AuthRequired,
    /// Any other transport error.
    OtherTransport,
    /// An initialisation error that is not a transport error.
    Other,
}

/// Whether an initialisation failure asks for a new authorization: a
/// transport error whose HTTP error says that authorization or
/// authentication is required.
pub open spec fn spec_is_auth_required(f: InitFailure) -> bool {
    f == InitFailure::AuthorizationRequired || f == InitFailure::AuthRequired
}

/// Whether an initialisation failure asks for a new authorization.
pub fn is_auth_required_error(f: InitFailure) -> (b: bool)
    ensures
        b == spec_is_auth_required(f),
{
    match f {
        InitFailure::AuthorizationRequired => true,
        InitFailure::AuthRequired => true,
        InitFailure::OtherTransport => false,
        InitFailure::Other => false,
    }
}

/// The outcome of the step that the driver performed.
#[derive(Debug, Clone)]
pub enum StepOutcome {
    /// The step succeeded and has nothing to report.
    Done,
    /// A load or a conversion succeeded; the flag says whether a value was
    /// there.
    Found(bool),
    /// The authorization was started; the flag says whether the server gave a
    /// client secret.
    Started { secret_present: bool },
    /// The step failed; the text describes the error.
    Failed(String),
    /// The authentication handler failed with its own error.
    HandlerFailed(ClientConnectError),
    /// The MCP client initialisation failed.
    InitFailed { failure: InitFailure, detail: String },
}

/// The step the driver performs next, or the end of the flow.
#[derive(Debug, Clone)]
pub enum ConnectPhase {
    /// Create an authorization manager for the MCP server.
    CreateAuthManager,
    /// Load the stored OAuth credentials.
    LoadStoredCredentials,
    /// Load the stored client secret.
    LoadClientSecret { creds_found: bool },
    /// Discover the authorization server metadata.
    DiscoverMetadata,
    /// Configure the authorization manager with the stored client.
    ConfigureClient,
    /// Register the client and start a new authorization session.
    StartAuthorization,
    /// Get the authorization URL of the session.
    GetAuthorizationUrl { secret_present: bool },
    /// Let the authentication handler have the user authenticate.
    RunAuthHandler { secret_present: bool },
    /// Exchange the authorization code for an access token.
    HandleCallback { secret_present: bool },
    /// Save the client secret in the credential store.
    SaveClientSecret,
    /// Turn the authorized session into an authorization manager.
    IntoAuthorizationManager,
    /// Initialise the MCP client with the authorization manager.
    InitMcpClient,
    /// The client is connected.
    Connected,
    /// The flow failed with this error.
    Failed(ClientConnectError),
}

/// The state of one connection attempt.
#[derive(Debug, Clone)]
pub struct ConnectFlow {
    /// Whether an authentication handler is there (interactive authentication
    /// is allowed).
    pub interactive: bool,
    /// The step to perform next.
    pub phase: ConnectPhase,
    /// How many new authorizations were started.
    pub new_auth_runs: u8,
    /// How many MCP client initialisations failed.
    pub init_attempts: u8,
}

// ---------------------------------------------------------------------------
// Abstract model
// ---------------------------------------------------------------------------

/// The abstract value of a step outcome.
pub enum OutcomeModel {
    Done,
    Found(bool),
    Started { secret_present: bool },
    Failed(Seq<char>),
    HandlerFailed(ConnectErrorModel),
    InitFailed { failure: InitFailure, detail: Seq<char> },
}

impl View for StepOutcome {
    type V = OutcomeModel;

    open spec fn view(&self) -> OutcomeModel {
        match self {
            StepOutcome::Done => OutcomeModel::Done,
            StepOutcome::Found(b) => OutcomeModel::Found(*b),
            StepOutcome::Started { secret_present } => OutcomeModel::Started {
                secret_present: *secret_present,
            },
            StepOutcome::Failed(d) => OutcomeModel::Failed(d@),
            StepOutcome::HandlerFailed(e) => OutcomeModel::HandlerFailed(e@),
            StepOutcome::InitFailed { failure, detail } => OutcomeModel::InitFailed {
                failure: *failure,
                detail: detail@,
            },
        }
    }
}

/// The abstract value of a phase.
pub enum PhaseModel {
    CreateAuthManager,
    LoadStoredCredentials,
    LoadClientSecret { creds_found: bool },
    DiscoverMetadata,
    ConfigureClient,
    StartAuthorization,
    GetAuthorizationUrl { secret_present: bool },
    RunAuthHandler { secret_present: bool },
    HandleCallback { secret_present: bool },
    SaveClientSecret,
    IntoAuthorizationManager,
    InitMcpClient,
    Connected,
    Failed(ConnectErrorModel),
}

impl View for ConnectPhase {
    type V = PhaseModel;

    open spec fn view(&self) -> PhaseModel {
        match self {
            ConnectPhase::CreateAuthManager => PhaseModel::CreateAuthManager,
            ConnectPhase::LoadStoredCredentials => PhaseModel::LoadStoredCredentials,
            ConnectPhase::LoadClientSecret { creds_found } => PhaseModel::LoadClientSecret {
                creds_found: *creds_found,
            },
            ConnectPhase::DiscoverMetadata => PhaseModel::DiscoverMetadata,
            ConnectPhase::ConfigureClient => PhaseModel::ConfigureClient,
            ConnectPhase::StartAuthorization => PhaseModel::StartAuthorization,
            ConnectPhase::GetAuthorizationUrl { secret_present } => PhaseModel::GetAuthorizationUrl {
                secret_present: *secret_present,
            },
            ConnectPhase::RunAuthHandler { secret_present } => PhaseModel::RunAuthHandler {
                secret_present: *secret_present,
            },
            ConnectPhase::HandleCallback { secret_present } => PhaseModel::HandleCallback {
                secret_present: *secret_present,
            },
            ConnectPhase::SaveClientSecret => PhaseModel::SaveClientSecret,
            ConnectPhase::IntoAuthorizationManager => PhaseModel::IntoAuthorizationManager,
            ConnectPhase::InitMcpClient => PhaseModel::InitMcpClient,
            ConnectPhase::Connected => PhaseModel::Connected,
            ConnectPhase::Failed(e) => PhaseModel::Failed(e@),
        }
    }
}

/// The abstract value of a connection flow.
pub struct FlowModel {
    pub interactive: bool,
    pub phase: PhaseModel,
    pub new_auth_runs: nat,
    pub init_attempts: nat,
}

impl View for ConnectFlow {
    type V = FlowModel;

    open spec fn view(&self) -> FlowModel {
        FlowModel {
            interactive: self.interactive,
            phase: self.phase@,
            new_auth_runs: self.new_auth_runs as nat,
            init_attempts: self.init_attempts as nat,
        }
    }
}

// ---------------------------------------------------------------------------
// The transition relation
// ---------------------------------------------------------------------------

/// An authentication failure with a message and the failing step's error.
pub open spec fn auth_failure(msg: Seq<char>, detail: Seq<char>) -> PhaseModel {
    PhaseModel::Failed(ConnectErrorModel::Auth { msg, source: Some(detail) })
}

/// Whether a phase belongs to the interactive (new) authorization.
pub open spec fn is_new_auth_phase(p: PhaseModel) -> bool {
    match p {
        PhaseModel::StartAuthorization => true,
        PhaseModel::GetAuthorizationUrl { .. } => true,
        PhaseModel::RunAuthHandler { .. } => true,
        PhaseModel::HandleCallback { .. } => true,
        PhaseModel::SaveClientSecret => true,
        PhaseModel::IntoAuthorizationManager => true,
        _ => false,
    }
}

/// Whether a phase belongs to the authorization from the credential store.
pub open spec fn is_store_phase(p: PhaseModel) -> bool {
    match p {
        PhaseModel::CreateAuthManager => true,
        PhaseModel::LoadStoredCredentials => true,
        PhaseModel::LoadClientSecret { .. } => true,
        PhaseModel::DiscoverMetadata => true,
        PhaseModel::ConfigureClient => true,
        _ => false,
    }
}

/// Whether the flow has ended.
pub open spec fn is_terminal(p: PhaseModel) -> bool {
    p is Connected || p is Failed
}

/// Starting a new authorization: refused when interactive authentication is
/// not allowed.
pub open spec fn begin_new_auth(f: FlowModel, init_attempts: nat) -> FlowModel {
    if f.interactive {
        FlowModel {
            phase: PhaseModel::StartAuthorization,
            new_auth_runs: f.new_auth_runs + 1,
            init_attempts,
            ..f
        }
    } else {
        FlowModel {
            phase: PhaseModel::Failed(
                ConnectErrorModel::Auth {
                    msg: "Need to do a new authentiction, but interactive authentication is disabled"@,
                    source: None,
                },
            ),
            init_attempts,
            ..f
        }
    }
}

/// The flow in a given phase, other counters unchanged.
pub open spec fn goto(f: FlowModel, p: PhaseModel) -> FlowModel {
    FlowModel { phase: p, ..f }
}

/// The flow after the driver reports outcome `o` of the current step.
pub open spec fn spec_next(f: FlowModel, o: OutcomeModel) -> FlowModel {
    match f.phase {
        PhaseModel::CreateAuthManager => match o {
            OutcomeModel::Done => goto(f, PhaseModel::LoadStoredCredentials),
            OutcomeModel::Failed(d) => goto(
                f,
                auth_failure("Failed to initialize authorization manager"@, d),
            ),
            _ => f,
        },
        PhaseModel::LoadStoredCredentials => match o {
            OutcomeModel::Found(b) => goto(f, PhaseModel::LoadClientSecret { creds_found: b }),
            OutcomeModel::Failed(d) => goto(
                f,
                auth_failure("Error while loading credentials from credential store"@, d),
            ),
            _ => f,
        },
        PhaseModel::LoadClientSecret { creds_found } => match o {
            OutcomeModel::Found(b) => if creds_found && b {
                goto(f, PhaseModel::DiscoverMetadata)
            } else {
                begin_new_auth(f, f.init_attempts)
            },
            OutcomeModel::Failed(d) => goto(
                f,
                auth_failure("Error while loading client secret from credential store"@, d),
            ),
            _ => f,
        },
        PhaseModel::DiscoverMetadata => match o {
            OutcomeModel::Done => goto(f, PhaseModel::ConfigureClient),
            OutcomeModel::Failed(d) => goto(
                f,
                auth_failure("Failed to discover authorization server metadata"@, d),
            ),
            _ => f,
        },
        PhaseModel::ConfigureClient => match o {
            OutcomeModel::Done => goto(f, PhaseModel::InitMcpClient),
            OutcomeModel::Failed(d) => goto(
                f,
                auth_failure(
                    "Failed to configure authorization manager with client credentials"@,
                    d,
                ),
            ),
            _ => f,
        },
        PhaseModel::StartAuthorization => match o {
            OutcomeModel::Started { secret_present } => goto(
                f,
                PhaseModel::GetAuthorizationUrl { secret_present },
            ),
            OutcomeModel::Failed(d) => goto(f, auth_failure("Failed to start authorization"@, d)),
            _ => f,
        },
        PhaseModel::GetAuthorizationUrl { secret_present } => match o {
            OutcomeModel::Done => goto(f, PhaseModel::RunAuthHandler { secret_present }),
            OutcomeModel::Failed(d) => goto(f, auth_failure("Failed to get authorization URL"@, d)),
            _ => f,
        },
        PhaseModel::RunAuthHandler { secret_present } => match o {
            OutcomeModel::Done => goto(f, PhaseModel::HandleCallback { secret_present }),
            OutcomeModel::HandlerFailed(e) => goto(f, PhaseModel::Failed(e)),
            _ => f,
        },
        PhaseModel::HandleCallback { secret_present } => match o {
            OutcomeModel::Done => goto(f, PhaseModel::SaveClientSecret),
            OutcomeModel::Failed(d) => goto(
                f,
                auth_failure("Failed to handle authorization callback"@, d),
            ),
            _ => f,
        },
        PhaseModel::SaveClientSecret => match o {
            OutcomeModel::Done => goto(f, PhaseModel::IntoAuthorizationManager),
            _ => f,
        },
        PhaseModel::IntoAuthorizationManager => match o {
            OutcomeModel::Found(true) => goto(f, PhaseModel::InitMcpClient),
            OutcomeModel::Found(false) => goto(
                f,
                PhaseModel::Failed(
                    ConnectErrorModel::Auth {
                        msg: "Failed to convert OAuth state into authorization manager"@,
                        source: None,
                    },
                ),
            ),
            _ => f,
        },
        PhaseModel::InitMcpClient => match o {
            OutcomeModel::Done => goto(f, PhaseModel::Connected),
            OutcomeModel::InitFailed { failure, detail } => if f.init_attempts == 0
                && spec_is_auth_required(failure) {
                begin_new_auth(f, 1)
            } else {
                goto(
                    f,
                    PhaseModel::Failed(
                        ConnectErrorModel::Connection {
                            msg: "Failed to connect to MCP server"@,
                            source: Some(detail),
                        },
                    ),
                )
            },
            _ => f,
        },
        PhaseModel::Connected => f,
        PhaseModel::Failed(_) => f,
    }
}

/// Whether outcome `o` is one that the step of phase `p` can have. A failed
/// save of the client secret, and a finished code exchange without a client
/// secret, are left out: the driver panics there.
pub open spec fn outcome_fits(p: PhaseModel, o: OutcomeModel) -> bool {
    match p {
        PhaseModel::CreateAuthManager => o is Done || o is Failed,
        PhaseModel::LoadStoredCredentials => o is Found || o is Failed,
        PhaseModel::LoadClientSecret { .. } => o is Found || o is Failed,
        PhaseModel::DiscoverMetadata => o is Done || o is Failed,
        PhaseModel::ConfigureClient => o is Done || o is Failed,
        PhaseModel::StartAuthorization => o is Started || o is Failed,
        PhaseModel::GetAuthorizationUrl { .. } => o is Done || o is Failed,
        PhaseModel::RunAuthHandler { .. } => o is Done || o is HandlerFailed,
        PhaseModel::HandleCallback { secret_present } => (o is Done && secret_present)
            || o is Failed,
        PhaseModel::SaveClientSecret => o is Done,
        PhaseModel::IntoAuthorizationManager => o is Found,
        PhaseModel::InitMcpClient => o is Done || o is InitFailed,
        PhaseModel::Connected => false,
        PhaseModel::Failed(_) => false,
    }
}

/// The invariant of a connection flow.
pub open spec fn flow_wf(f: FlowModel) -> bool {
    &&& f.init_attempts <= 1
    &&& f.new_auth_runs <= f.init_attempts + 1
    &&& is_store_phase(f.phase) ==> f.init_attempts == 0 && f.new_auth_runs == 0
    &&& is_new_auth_phase(f.phase) ==> f.interactive && f.new_auth_runs >= 1
    &&& f.phase is InitMcpClient && f.init_attempts == 0 ==> f.new_auth_runs <= 1
}

/// The position of a phase within one round of the flow.
pub open spec fn phase_pos(p: PhaseModel) -> nat {
    match p {
        PhaseModel::CreateAuthManager => 0,
        PhaseModel::LoadStoredCredentials => 1,
        PhaseModel::LoadClientSecret { .. } => 2,
        PhaseModel::DiscoverMetadata => 3,
        PhaseModel::ConfigureClient => 4,
        PhaseModel::StartAuthorization => 5,
        PhaseModel::GetAuthorizationUrl { .. } => 6,
        PhaseModel::RunAuthHandler { .. } => 7,
        PhaseModel::HandleCallback { .. } => 8,
        PhaseModel::SaveClientSecret => 9,
        PhaseModel::IntoAuthorizationManager => 10,
        PhaseModel::InitMcpClient => 11,
        PhaseModel::Connected => 12,
        PhaseModel::Failed(_) => 12,
    }
}

/// A measure of the work left: it falls with every step until the flow ends.
pub open spec fn flow_rank(f: FlowModel) -> nat {
    if is_terminal(f.phase) {
        0
    } else {
        ((2 - f.init_attempts) * 12 + (12 - phase_pos(f.phase))) as nat
    }
}

/// The flow at its start.
pub open spec fn spec_initial_flow(interactive: bool) -> FlowModel {
    FlowModel {
        interactive,
        phase: PhaseModel::CreateAuthManager,
        new_auth_runs: 0,
        init_attempts: 0,
    }
}

// ---------------------------------------------------------------------------
// The executable flow
// ---------------------------------------------------------------------------

fn auth_failed(msg: &str, detail: String) -> (p: ConnectPhase)
    ensures
        p@ == auth_failure(msg@, detail@),
{
    ConnectPhase::Failed(ClientConnectError::AuthError { msg: msg.to_owned(), source: Some(detail) })
}

impl ConnectFlow {
    /// A new connection attempt. `interactive` says whether an authentication
    /// handler is there.
    pub fn new(interactive: bool) -> (f: ConnectFlow)
        ensures
            f@ == spec_initial_flow(interactive),
            flow_wf(f@),
    {
        ConnectFlow {
            interactive,
            phase: ConnectPhase::CreateAuthManager,
            new_auth_runs: 0,
            init_attempts: 0,
        }
    }

    /// Whether the flow has ended, connected or failed.
    pub fn is_finished(&self) -> (b: bool)
        ensures
            b == is_terminal(self@.phase),
    {
        match self.phase {
            ConnectPhase::Connected => true,
            ConnectPhase::Failed(_) => true,
            _ => false,
        }
    }

    fn begin_new_auth(self, init_attempts: u8) -> (next: ConnectFlow)
        requires
            self.new_auth_runs < 2,
        ensures
            next@ == begin_new_auth(self@, init_attempts as nat),
    {
        if self.interactive {
            ConnectFlow {
                interactive: self.interactive,
                phase: ConnectPhase::StartAuthorization,
                new_auth_runs: self.new_auth_runs + 1,
                init_attempts,
            }
        } else {
            ConnectFlow {
                interactive: self.interactive,
                phase: ConnectPhase::Failed(
                    ClientConnectError::AuthError {
                        msg: "Need to do a new authentiction, but interactive authentication is disabled".to_owned(),
                        source: None,
                    },
                ),
                new_auth_runs: self.new_auth_runs,
                init_attempts,
            }
        }
    }

    fn goto(self, phase: ConnectPhase) -> (next: ConnectFlow)
        ensures
            next@ == goto(self@, phase@),
    {
        ConnectFlow { phase, ..self }
    }

    /// The flow after the outcome of the current step.
    pub fn step(self, outcome: StepOutcome) -> (next: ConnectFlow)
        requires
            flow_wf(self@),
            outcome_fits(self@.phase, outcome@),
        ensures
            next@ == spec_next(self@, outcome@),
            flow_wf(next@),
            flow_rank(next@) < flow_rank(self@),
    {
        proof {
            lemma_step_progress(self@, outcome@);
        }
        match &self.phase {
            ConnectPhase::CreateAuthManager => match outcome {
                StepOutcome::Done => self.goto(ConnectPhase::LoadStoredCredentials),
                StepOutcome::Failed(d) => self.goto(
                    auth_failed("Failed to initialize authorization manager", d),
                ),
                _ => self,
            },
            ConnectPhase::LoadStoredCredentials => match outcome {
                StepOutcome::Found(b) => self.goto(ConnectPhase::LoadClientSecret { creds_found: b }),
                StepOutcome::Failed(d) => self.goto(
                    auth_failed("Error while loading credentials from credential store", d),
                ),
                _ => self,
            },
            ConnectPhase::LoadClientSecret { creds_found } => match outcome {
                StepOutcome::Found(b) => if *creds_found && b {
                    self.goto(ConnectPhase::DiscoverMetadata)
                } else {
                    let a = self.init_attempts;
                    self.begin_new_auth(a)
                },
                StepOutcome::Failed(d) => self.goto(
                    auth_failed("Error while loading client secret from credential store", d),
                ),
                _ => self,
            },
            ConnectPhase::DiscoverMetadata => match outcome {
                StepOutcome::Done => self.goto(ConnectPhase::ConfigureClient),
                StepOutcome::Failed(d) => self.goto(
                    auth_failed("Failed to discover authorization server metadata", d),
                ),
                _ => self,
            },
            ConnectPhase::ConfigureClient => match outcome {
                StepOutcome::Done => self.goto(ConnectPhase::InitMcpClient),
                StepOutcome::Failed(d) => self.goto(
                    auth_failed(
                        "Failed to configure authorization manager with client credentials",
                        d,
                    ),
                ),
                _ => self,
            },
            ConnectPhase::StartAuthorization => match outcome {
                StepOutcome::Started { secret_present } => self.goto(
                    ConnectPhase::GetAuthorizationUrl { secret_present },
                ),
                StepOutcome::Failed(d) => self.goto(auth_failed("Failed to start authorization", d)),
                _ => self,
            },
            ConnectPhase::GetAuthorizationUrl { secret_present } => match outcome {
                StepOutcome::Done => {
                    let sp = *secret_present;
                    self.goto(ConnectPhase::RunAuthHandler { secret_present: sp })
                },
                StepOutcome::Failed(d) => self.goto(
                    auth_failed("Failed to get authorization URL", d),
                ),
                _ => self,
            },
            ConnectPhase::RunAuthHandler { secret_present } => match outcome {
                StepOutcome::Done => {
                    let sp = *secret_present;
                    self.goto(ConnectPhase::HandleCallback { secret_present: sp })
                },
                StepOutcome::HandlerFailed(e) => self.goto(ConnectPhase::Failed(e)),
                _ => self,
            },
            ConnectPhase::HandleCallback { .. } => match outcome {
                StepOutcome::Done => self.goto(ConnectPhase::SaveClientSecret),
                StepOutcome::Failed(d) => self.goto(
                    auth_failed("Failed to handle authorization callback", d),
                ),
                _ => self,
            },
            ConnectPhase::SaveClientSecret => match outcome {
                StepOutcome::Done => self.goto(ConnectPhase::IntoAuthorizationManager),
                _ => self,
            },
            ConnectPhase::IntoAuthorizationManager => match outcome {
                StepOutcome::Found(b) => if b {
                    self.goto(ConnectPhase::InitMcpClient)
                } else {
                    self.goto(
                        ConnectPhase::Failed(
                            ClientConnectError::AuthError {
                                msg: "Failed to convert OAuth state into authorization manager".to_owned(),
                                source: None,
                            },
                        ),
                    )
                },
                _ => self,
            },
            ConnectPhase::InitMcpClient => match outcome {
                StepOutcome::Done => self.goto(ConnectPhase::Connected),
                StepOutcome::InitFailed { failure, detail } => if self.init_attempts == 0
                    && is_auth_required_error(failure) {
                    self.begin_new_auth(1)
                } else {
                    self.goto(
                        ConnectPhase::Failed(
                            ClientConnectError::ConnectionError {
                                msg: "Failed to connect to MCP server".to_owned(),
                                source: Some(detail),
                            },
                        ),
                    )
                },
                _ => self,
            },
            ConnectPhase::Connected => self,
            ConnectPhase::Failed(_) => self,
        }
    }
}

// ---------------------------------------------------------------------------
// Laws of the flow
// ---------------------------------------------------------------------------

/// Every step of a well-formed flow keeps it well-formed and lowers its rank:
/// a connection attempt ends, connected or failed, after at most
/// `flow_rank` of its start (36) reported outcomes.
pub proof fn lemma_step_progress(f: FlowModel, o: OutcomeModel)
    requires
        flow_wf(f),
        outcome_fits(f.phase, o),
    ensures
        flow_wf(spec_next(f, o)),
        flow_rank(spec_next(f, o)) < flow_rank(f),
{
}

/// The flow after the outcomes `os`, reported one by one until it ends.
pub open spec fn run(f: FlowModel, os: Seq<OutcomeModel>) -> FlowModel
    decreases os.len(),
{
    if os.len() == 0 || is_terminal(f.phase) {
        f
    } else {
        run(spec_next(f, os[0]), os.drop_first())
    }
}

/// Whether each outcome of `os` is one that the step it answers can have.
pub open spec fn run_fits(f: FlowModel, os: Seq<OutcomeModel>) -> bool
    decreases os.len(),
{
    if os.len() == 0 || is_terminal(f.phase) {
        true
    } else {
        outcome_fits(f.phase, os[0]) && run_fits(spec_next(f, os[0]), os.drop_first())
    }
}

/// A well-formed flow ends, connected or failed, once as many outcomes as its
/// rank have been reported.
pub proof fn lemma_runs_end(f: FlowModel, os: Seq<OutcomeModel>)
    requires
        flow_wf(f),
        run_fits(f, os),
        os.len() >= flow_rank(f),
    ensures
        is_terminal(run(f, os).phase),
    decreases os.len(),
{
    if os.len() > 0 && !is_terminal(f.phase) {
        lemma_step_progress(f, os[0]);
        lemma_runs_end(spec_next(f, os[0]), os.drop_first());
    }
}

/// Every connection attempt ends, connected or failed, after at most 36
/// reported outcomes.
pub proof fn lemma_connect_ends(interactive: bool, os: Seq<OutcomeModel>)
    requires
        run_fits(spec_initial_flow(interactive), os),
        os.len() >= 36,
    ensures
        is_terminal(run(spec_initial_flow(interactive), os).phase),
{
    lemma_initial_flow(interactive);
    lemma_runs_end(spec_initial_flow(interactive), os);
}

/// A new connection attempt is well-formed and its rank is 36.
pub proof fn lemma_initial_flow(interactive: bool)
    ensures
        flow_wf(spec_initial_flow(interactive)),
        flow_rank(spec_initial_flow(interactive)) == 36,
{
}

/// Without an authentication handler, the flow never starts an interactive
/// authorization: every well-formed state of it is outside the new
/// authorization phases.
pub proof fn lemma_no_interactive_auth_without_handler(f: FlowModel)
    requires
        flow_wf(f),
        !f.interactive,
    ensures
        !is_new_auth_phase(f.phase),
{
}

/// At most two new authorizations are started in one connection attempt.
pub proof fn lemma_new_auth_runs_bounded(f: FlowModel)
    requires
        flow_wf(f),
    ensures
        f.new_auth_runs <= 2,
        f.init_attempts <= 1,
{
}

/// The MCP client is initialised at most twice: after a failed retry the flow
/// ends, with the connection error.
pub proof fn lemma_second_init_ends(f: FlowModel, o: OutcomeModel)
    requires
        flow_wf(f),
        f.phase is InitMcpClient,
        f.init_attempts == 1,
        outcome_fits(f.phase, o),
    ensures
        is_terminal(spec_next(f, o).phase),
        o is Done ==> spec_next(f, o).phase is Connected,
{
}

/// A new authorization starts only when the store lacks the credentials or
/// the client secret, or when the first initialisation of the MCP client
/// failed because the server asked for authorization.
pub proof fn lemma_new_auth_causes(f: FlowModel, o: OutcomeModel)
    requires
        flow_wf(f),
        outcome_fits(f.phase, o),
        spec_next(f, o).phase is StartAuthorization,
    ensures
        ({
            ||| (f.phase matches PhaseModel::LoadClientSecret { creds_found } && !(creds_found
                && o == OutcomeModel::Found(true)))
            ||| (f.phase is InitMcpClient && f.init_attempts == 0 && (
            o matches OutcomeModel::InitFailed { failure, .. } && spec_is_auth_required(failure)))
        }),
{
}

/// When both the credentials and the client secret are in the store and the
/// client configuration succeeds, the MCP client is initialised without any
/// interactive authorization.
pub proof fn lemma_stored_credentials_used(interactive: bool)
    ensures
        ({
            let f0 = spec_initial_flow(interactive);
            let f1 = spec_next(f0, OutcomeModel::Done);
            let f2 = spec_next(f1, OutcomeModel::Found(true));
            let f3 = spec_next(f2, OutcomeModel::Found(true));
            let f4 = spec_next(f3, OutcomeModel::Done);
            let f5 = spec_next(f4, OutcomeModel::Done);
            &&& f5.phase is InitMcpClient
            &&& f5.new_auth_runs == 0
        }),
{
}

/// An error of the authentication handler ends the flow with that error,
/// unchanged.
pub proof fn lemma_handler_error_propagates(f: FlowModel, e: ConnectErrorModel)
    requires
        f.phase is RunAuthHandler,
    ensures
        spec_next(f, OutcomeModel::HandlerFailed(e)).phase == PhaseModel::Failed(e),
{
}

} // verus!

verus! {

/// When the first MCP client initialisation fails because the server asks for
/// authorization (either kind of failure that says so), the flow goes back to
/// a new authorization for a single retry: with an authentication handler it
/// starts the authorization, without one it ends with the refusal of
/// interactive authentication.
pub proof fn lemma_auth_required_init_reauthorizes(
    f: FlowModel,
    failure: InitFailure,
    detail: Seq<char>,
)
    requires
        f.phase is InitMcpClient,
        f.init_attempts == 0,
        failure == InitFailure::AuthorizationRequired || failure == InitFailure::AuthRequired,
    ensures
        ({
            let n = spec_next(f, OutcomeModel::InitFailed { failure, detail });
            &&& n.init_attempts == 1
            &&& n.interactive == f.interactive
            &&& f.interactive ==> n.phase is StartAuthorization && n.new_auth_runs
                == f.new_auth_runs + 1
            &&& !f.interactive ==> n.phase == PhaseModel::Failed(
                ConnectErrorModel::Auth {
                    msg: "Need to do a new authentiction, but interactive authentication is disabled"@,
                    source: None,
                },
            )
        }),
{
}

/// An initialisation failure that does not ask for authorization, or any
/// failure of the retry, ends the flow with the connection error that carries
/// the failure's description.
pub proof fn lemma_init_failure_ends_with_connection_error(
    f: FlowModel,
    failure: InitFailure,
    detail: Seq<char>,
)
    requires
        f.phase is InitMcpClient,
        f.init_attempts == 1 || failure == InitFailure::OtherTransport || failure
            == InitFailure::Other,
    ensures
        spec_next(f, OutcomeModel::InitFailed { failure, detail }).phase == PhaseModel::Failed(
            ConnectErrorModel::Connection {
                msg: "Failed to connect to MCP server"@,
                source: Some(detail),
            },
        ),
{
}

/// A new authorization whose steps all succeed (the session is started, the
/// URL is got, the user authenticates, the code is exchanged, the client
/// secret is saved and the session becomes an authorization manager) leads to
/// the initialisation of the MCP client, with the counters unchanged.
pub proof fn lemma_new_auth_leads_to_init(f: FlowModel)
    requires
        f.phase is StartAuthorization,
    ensures
        ({
            let f1 = spec_next(f, OutcomeModel::Started { secret_present: true });
            let f2 = spec_next(f1, OutcomeModel::Done);
            let f3 = spec_next(f2, OutcomeModel::Done);
            let f4 = spec_next(f3, OutcomeModel::Done);
            let f5 = spec_next(f4, OutcomeModel::Done);
            let f6 = spec_next(f5, OutcomeModel::Found(true));
            &&& f6.phase is InitMcpClient
            &&& f6.new_auth_runs == f.new_auth_runs
            &&& f6.init_attempts == f.init_attempts
            &&& f6.interactive == f.interactive
        }),
{
}

/// A successful initialisation of the MCP client connects the client.
pub proof fn lemma_init_success_connects(f: FlowModel)
    requires
        f.phase is InitMcpClient,
    ensures
        spec_next(f, OutcomeModel::Done).phase is Connected,
{
}

/// When the credential store lacks the credentials or the client secret, the
/// flow turns to a new authorization: with an authentication handler it
/// starts one, without one it ends with the refusal of interactive
/// authentication. When both are there it goes on to the metadata discovery.
pub proof fn lemma_missing_store_data_starts_new_auth(
    f: FlowModel,
    creds_found: bool,
    secret_found: bool,
)
    requires
        f.phase == (PhaseModel::LoadClientSecret { creds_found }),
    ensures
        ({
            let n = spec_next(f, OutcomeModel::Found(secret_found));
            &&& creds_found && secret_found ==> n.phase is DiscoverMetadata && n.new_auth_runs
                == f.new_auth_runs
            &&& !(creds_found && secret_found) && f.interactive ==> n.phase is StartAuthorization
                && n.new_auth_runs == f.new_auth_runs + 1 && n.init_attempts == f.init_attempts
            &&& !(creds_found && secret_found) && !f.interactive ==> n.phase == PhaseModel::Failed(
                ConnectErrorModel::Auth {
                    msg: "Need to do a new authentiction, but interactive authentication is disabled"@,
                    source: None,
                },
            )
        }),
{
}

} // verus!

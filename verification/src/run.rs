//! A command from its login to its deployment.
//!
//! A run is a login, and then, if there is a login to use, a deployment with it.

use vstd::prelude::*;

use crate::buildinfo::{is_drawn, random_buildinfo, BuildInfo};
use crate::deploy::{
    first_order, DeployAction, DeployActionView, DeployCommand, DeployEvent, Deployment,
};
use crate::deploy_laws::{deploy_after, deploy_runs};
use crate::error::{outcome, DeployError, Failure};
use crate::login::{expiry_at, has_expired, LoginConnection};
use crate::login_flow::{
    login_after, login_connection, login_runs, LoginAction, LoginEvent, LoginFlow, LoginStage,
};
use crate::manifest::AppManifest;
use crate::web_url::Url;

verus! {

/// A command under way.
#[derive(Debug)]
pub enum Run {
    /// The command has no login yet.
    LoggingIn { command: DeployCommand, flow: LoginFlow },
    /// There was no login to use, so nothing is deployed.
    LoginFailed,
    /// The command is carried out with its login.
    Deploying { deployment: Deployment },
}

/// What happened.
#[derive(Debug)]
pub enum RunEvent {
    Login(LoginEvent),
    Deploy(DeployEvent),
}

/// What to do next. `S`, `L` and `U` are those of `DeployAction`.
#[derive(Debug)]
pub enum RunAction<S = String, L = Vec<String>, U = Url> {
    Login(LoginAction<S>),
    Deploy(DeployAction<S, L, U>),
}

/// What to do next, as contracts state it.
pub type RunActionView = RunAction<Seq<char>, Seq<Seq<char>>, (Seq<char>, Seq<char>)>;

impl View for RunAction {
    type V = RunActionView;

    open spec fn view(&self) -> RunActionView {
        match *self {
            RunAction::Login(action) => RunAction::Login(action@),
            RunAction::Deploy(action) => RunAction::Deploy(action@),
        }
    }
}

impl Run {
    /// Whether a run is waiting for what happened.
    pub open spec fn awaits(self, event: RunEvent) -> bool {
        match (self, event) {
            (Run::LoggingIn { flow, .. }, RunEvent::Login(event)) => flow.awaits(event),
            (Run::Deploying { deployment }, RunEvent::Deploy(event)) => deployment.awaits(event),
            _ => false,
        }
    }

    /// What becomes of a command whose login has ended: the deployment with the
    /// login, or, where there is none, nothing more.
    pub open spec fn after_login(command: DeployCommand, ended: LoginAction<Seq<char>>) -> (
        Run,
        RunActionView,
    ) {
        match ended {
            LoginAction::Done { connection } => (
                Run::Deploying { deployment: command.begun_with(connection) },
                RunAction::Deploy(first_order(connection)),
            ),
            _ => (Run::LoginFailed, RunAction::Login(ended)),
        }
    }

    /// Where a run stands after what happened, and what to do next. Of something
    /// that the run is not waiting for, nothing is meant.
    pub open spec fn next(self, event: RunEvent) -> (Run, RunActionView) {
        match (self, event) {
            (Run::LoggingIn { command, flow }, RunEvent::Login(event)) => {
                let (stage, action) = flow.next(event);
                if stage is Ended {
                    Self::after_login(command, action)
                } else {
                    (
                        Run::LoggingIn { command, flow: flow.after(event) },
                        RunAction::Login(action),
                    )
                }
            },
            (Run::Deploying { deployment }, RunEvent::Deploy(event)) => (
                Run::Deploying { deployment: deployment.after(event) },
                RunAction::Deploy(deployment.next(event).1),
            ),
            (run, RunEvent::Login(_)) => (
                run,
                RunAction::Login(LoginAction::Fail(Failure::Passed)),
            ),
            (run, RunEvent::Deploy(_)) => (
                run,
                RunAction::Deploy(DeployAction::Fail(Failure::Passed)),
            ),
        }
    }

    /// Whether the run is waiting for what happened.
    pub fn is_waiting_for(&self, event: &RunEvent) -> (waiting: bool)
        ensures
            waiting == self.awaits(*event),
    {
        match (self, event) {
            (Run::LoggingIn { flow, .. }, RunEvent::Login(event)) => flow.is_waiting_for(event),
            (Run::Deploying { deployment }, RunEvent::Deploy(event)) => {
                deployment.is_waiting_for(event)
            },
            _ => false,
        }
    }

    /// Goes on after what happened: the run from there on, and what to do next.
    pub fn step(self, event: RunEvent) -> (result: (Run, RunAction))
        requires
            self.awaits(event),
        ensures
            result.0 == self.next(event).0,
            result.1@ == self.next(event).1,
    {
        match (self, event) {
            (Run::LoggingIn { command, flow }, RunEvent::Login(event)) => {
                let (flow, action) = flow.step(event);
                match flow.stage {
                    LoginStage::Ended => match command.go_on(action) {
                        Ok((deployment, action)) => (
                            Run::Deploying { deployment },
                            RunAction::Deploy(action),
                        ),
                        Err(ended) => (Run::LoginFailed, RunAction::Login(ended)),
                    },
                    _ => (Run::LoggingIn { command, flow }, RunAction::Login(action)),
                }
            },
            (Run::Deploying { deployment }, RunEvent::Deploy(event)) => {
                let (deployment, action) = deployment.step(event);
                (Run::Deploying { deployment }, RunAction::Deploy(action))
            },
            (run, _) => (
                run,
                RunAction::Login(LoginAction::Fail(Failure::Passed)),
            ),
        }
    }

    /// Whether a run finds out next whether a login has expired.
    pub open spec fn checks_expiry(self) -> bool {
        self matches Run::LoggingIn { flow, .. } && flow.stage is CheckingExpiry
    }

    /// The login whose expiry a run finds out.
    pub open spec fn login_checked(self) -> LoginConnection {
        self->LoggingIn_flow.stage->CheckingExpiry_connection
    }

    /// Finds out whether the login has expired by now, and goes on after that.
    /// Which time it is depends on the clock; a login without an expiration time
    /// is used at any time.
    pub fn check_expiry(self) -> (result: (Run, RunAction))
        requires
            self.checks_expiry(),
        ensures
            exists|verdict: Result<bool, DeployError>, now: (i64, u32)|
                outcome(verdict) == #[trigger] expiry_at(self.login_checked(), now) && (
                result.0,
                result.1@,
            ) == #[trigger] self.next(RunEvent::Login(LoginEvent::Expiry { verdict })),
            self.login_checked().expiration is None ==> (result.0, result.1@) == self.next(
                RunEvent::Login(LoginEvent::Expiry { verdict: Ok(false) }),
            ),
    {
        let verdict = match &self {
            Run::LoggingIn { flow, .. } => match &flow.stage {
                LoginStage::CheckingExpiry { connection } => has_expired(connection),
                _ => Ok(false),
            },
            _ => Ok(false),
        };
        self.step(RunEvent::Login(LoginEvent::Expiry { verdict }))
    }

    /// Whether a run is waiting for the manifest of its application.
    pub open spec fn loads_manifest(self) -> bool {
        self matches Run::Deploying { deployment } && deployment.stage is LoadingManifest
    }

    /// Goes on with the manifest of the application. Build information that is
    /// neither given nor left out is drawn at random.
    pub fn load(self, manifest: AppManifest) -> (result: (Run, RunAction))
        requires
            self.loads_manifest(),
        ensures
            exists|fallback: BuildInfo|
                is_drawn(#[trigger] fallback@) && (result.0, result.1@) == self.next(
                    RunEvent::Deploy(DeployEvent::Manifest { manifest, fallback }),
                ),
            self->Deploying_deployment.command.no_buildinfo
                || self->Deploying_deployment.command.buildinfo is Some ==> forall|
                fallback: BuildInfo,
            |
                (result.0, result.1@) == #[trigger] self.next(
                    RunEvent::Deploy(DeployEvent::Manifest { manifest, fallback }),
                ),
    {
        let fallback = random_buildinfo();
        assert(is_drawn(fallback@));
        self.step(RunEvent::Deploy(DeployEvent::Manifest { manifest, fallback }))
    }
}

impl DeployCommand {
    /// Begins to carry out the command: first comes the way to a login of its
    /// environment, whose login is kept in a file (see `config_file`).
    pub fn run(self, config_path: String) -> (begun: (Run, RunAction))
        ensures
            begun.0 == (Run::LoggingIn {
                command: self,
                flow: LoginFlow {
                    deployment_env_id: self.deployment_env_id,
                    config_path,
                    stage: LoginStage::Reading,
                },
            }),
            begun.1@ == RunActionView::Login(LoginAction::ReadConfig),
    {
        let deployment_env_id = match &self.deployment_env_id {
            Some(name) => Some(name.clone()),
            None => None,
        };
        let (flow, action) = login_connection(deployment_env_id, config_path);
        (Run::LoggingIn { command: self, flow }, RunAction::Login(action))
    }

    /// Goes on once the login has ended: begins the deployment with the login that
    /// is to be used, or, where there is none, gives back how the login ended.
    pub fn go_on(self, ended: LoginAction) -> (begun: Result<
        (Deployment, DeployAction),
        LoginAction,
    >)
        ensures
            match ended {
                LoginAction::Done { connection } => begun matches Ok(begun) && begun.0
                    == self.begun_with(connection) && begun.1@ == first_order(connection),
                _ => begun == Err::<(Deployment, DeployAction), LoginAction>(ended),
            },
    {
        match ended {
            LoginAction::Done { connection } => Ok(self.deploy(connection)),
            ended => Err(ended),
        }
    }
}

/// Whether, from a start on, each thing that happened was awaited when it did.
pub open spec fn run_runs(start: Run, events: Seq<RunEvent>) -> bool
    decreases events.len(),
{
    events.len() == 0 || (run_runs(start, events.drop_last()) && run_after(
        start,
        events.drop_last(),
    ).awaits(events.last()))
}

/// The run after some things happened.
pub open spec fn run_after(start: Run, events: Seq<RunEvent>) -> Run
    decreases events.len(),
{
    if events.len() == 0 {
        start
    } else {
        run_after(start, events.drop_last()).next(events.last()).0
    }
}

/// What happened in the login.
pub open spec fn login_part(events: Seq<RunEvent>) -> Seq<LoginEvent>
    decreases events.len(),
{
    if events.len() == 0 {
        Seq::empty()
    } else {
        match events.last() {
            RunEvent::Login(event) => login_part(events.drop_last()).push(event),
            RunEvent::Deploy(_) => login_part(events.drop_last()),
        }
    }
}

/// What happened in the deployment.
pub open spec fn deploy_part(events: Seq<RunEvent>) -> Seq<DeployEvent>
    decreases events.len(),
{
    if events.len() == 0 {
        Seq::empty()
    } else {
        match events.last() {
            RunEvent::Login(_) => deploy_part(events.drop_last()),
            RunEvent::Deploy(event) => deploy_part(events.drop_last()).push(event),
        }
    }
}

/// How a flow ends, if it ends with the last thing that happened.
pub open spec fn login_ending(flow: LoginFlow, events: Seq<LoginEvent>) -> LoginAction<Seq<char>> {
    login_after(flow, events.drop_last()).next(events.last()).1
}

/// Whether a deployment is that of a command with the login that its flow ended
/// with, after some things happened in it.
pub open spec fn is_deployment_of(
    deployment: Deployment,
    command: DeployCommand,
    flow: LoginFlow,
    login_events: Seq<LoginEvent>,
    deploy_events: Seq<DeployEvent>,
) -> bool {
    &&& login_events.len() > 0
    &&& login_ending(flow, login_events) == (LoginAction::<Seq<char>>::Done {
        connection: deployment.login,
    })
    &&& deploy_runs(command.begun_with(deployment.login), deploy_events)
    &&& deployment == deploy_after(command.begun_with(deployment.login), deploy_events)
}

/// A run is a login of its command's own flow, and then a deployment of the
/// command with exactly the login that the flow ended with. As long as the flow
/// has not ended with a login nothing of a deployment happens, and if it ended
/// without one nothing ever does.
pub proof fn law_a_run_is_a_login_and_then_a_deployment(
    command: DeployCommand,
    flow: LoginFlow,
    events: Seq<RunEvent>,
)
    requires
        !(flow.stage is Ended),
        run_runs(Run::LoggingIn { command, flow }, events),
    ensures
        login_runs(flow, login_part(events)),
        match run_after(Run::LoggingIn { command, flow }, events) {
            Run::LoggingIn { command: same, flow: now } => {
                &&& same == command
                &&& now == login_after(flow, login_part(events))
                &&& !(now.stage is Ended)
                &&& deploy_part(events).len() == 0
            },
            Run::LoginFailed => {
                &&& login_after(flow, login_part(events)).stage is Ended
                &&& login_part(events).len() > 0
                &&& !(login_ending(flow, login_part(events)) is Done)
                &&& deploy_part(events).len() == 0
            },
            Run::Deploying { deployment } => is_deployment_of(
                deployment,
                command,
                flow,
                login_part(events),
                deploy_part(events),
            ),
        },
    decreases events.len(),
{
    let start = Run::LoggingIn { command, flow };
    if events.len() > 0 {
        let before = events.drop_last();
        law_a_run_is_a_login_and_then_a_deployment(command, flow, before);
        match events.last() {
            RunEvent::Login(event) => {
                assert(login_part(events).drop_last() == login_part(before));
            },
            RunEvent::Deploy(event) => {
                assert(deploy_part(events).drop_last() == deploy_part(before));
                let deployment = run_after(start, before)->Deploying_deployment;
                assert(deployment.after(event).login == deployment.login);
            },
        }
    }
}

/// After a login that failed a run waits for nothing: nothing is deployed.
pub proof fn law_nothing_follows_a_failed_login(event: RunEvent)
    ensures
        !Run::LoginFailed.awaits(event),
{
}

/// A login that is to be used is deployed with: the run goes on as the deployment of
/// its own command with exactly that login, and connects to its platform.
pub proof fn law_a_login_is_deployed_with(
    command: DeployCommand,
    flow: LoginFlow,
    event: LoginEvent,
    connection: LoginConnection,
)
    requires
        flow.awaits(event),
        flow.next(event).1 == (LoginAction::<Seq<char>>::Done { connection }),
    ensures
        ({
            let run = Run::LoggingIn { command, flow };
            let (after, action) = run.next(RunEvent::Login(event));
            &&& run.awaits(RunEvent::Login(event))
            &&& after matches Run::Deploying { deployment } && deployment.command == command
                && deployment.login == connection && deployment.stage is LoadingManifest
            &&& action matches RunAction::Deploy(DeployAction::LoadManifest { connection: to }) && {
                &&& to.url == connection.url@.0
                &&& to.danger_accept_invalid_certs == connection.danger_accept_invalid_certs
                &&& to.api_key == Some(connection.token@)
            }
        }),
{
}

/// As long as a login is neither used nor given up, the run does what its flow says.
/// One that is given up is told as the flow tells it, and that is the end.
pub proof fn law_a_run_follows_its_login(
    command: DeployCommand,
    flow: LoginFlow,
    event: LoginEvent,
)
    requires
        flow.awaits(event),
        !(flow.next(event).1 is Done),
    ensures
        ({
            let run = Run::LoggingIn { command, flow };
            let (after, action) = run.next(RunEvent::Login(event));
            &&& run.awaits(RunEvent::Login(event))
            &&& action == RunActionView::Login(flow.next(event).1)
            &&& flow.next(event).0 is Ended ==> after is LoginFailed
            &&& !(flow.next(event).0 is Ended) ==> (after matches Run::LoggingIn {
                command: same,
                flow: now,
            } && same == command && now.stage == flow.next(event).0 && now.deployment_env_id
                == flow.deployment_env_id && now.config_path == flow.config_path)
        }),
{
}

/// From then on the run does what its deployment says, and waits for what the
/// deployment waits for. During a login it waits for nothing of a deployment.
pub proof fn law_a_run_follows_its_deployment(
    command: DeployCommand,
    flow: LoginFlow,
    deployment: Deployment,
    event: DeployEvent,
)
    ensures
        ({
            let run = Run::Deploying { deployment };
            let (after, action) = run.next(RunEvent::Deploy(event));
            &&& run.awaits(RunEvent::Deploy(event)) <==> deployment.awaits(event)
            &&& action == RunActionView::Deploy(deployment.next(event).1)
            &&& after matches Run::Deploying { deployment: now } && now.command
                == deployment.command && now.login == deployment.login && now.stage
                == deployment.next(event).0
        }),
        !(Run::LoggingIn { command, flow }).awaits(RunEvent::Deploy(event)),
{
}

} // verus!

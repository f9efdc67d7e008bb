//! The way to a login that can be used: read the saved one, log in where there
//! is none or where it has expired, and see that the platform is healthy.
//!
//! The flow decides; its driver reads files, logs in and sends requests. Each
//! step takes what happened and gives what to do next.

use std::path::PathBuf;
use vstd::prelude::*;
use vstd::string::*;

use crate::error::{error_text, outcome, DeployError, Failure};
use crate::login::{
    check_healthz, config_file_path, config_segments, expiry_at, has_expired, health_verdict,
    is_error_status, ConfigPath, HealthReply, LoginConnection,
};
use crate::outside::joined_url;
use crate::web_url::{healthz_url, url_outcome};

verus! {

/// What a flow is waiting for. A renewal follows an expired login.
#[derive(Debug)]
pub enum LoginStage {
    /// The saved login.
    Reading,
    /// The end of a new login.
    LoggingIn { renewal: bool },
    /// The login that was just saved.
    Rereading { renewal: bool },
    /// The login that a saved text holds.
    Parsing { renewal: bool },
    /// Whether the login has expired.
    CheckingExpiry { connection: LoginConnection },
    /// Whether the platform is healthy.
    CheckingHealth { connection: LoginConnection },
    /// Nothing any more.
    Ended,
}

/// The way to a login of an environment.
#[derive(Debug)]
pub struct LoginFlow {
    /// The name of the environment, if it has one.
    pub deployment_env_id: Option<String>,
    /// The file in which the login is kept, as messages show it.
    pub config_path: String,
    pub stage: LoginStage,
}

/// What happened.
#[derive(Debug)]
pub enum LoginEvent {
    /// The saved login was read.
    Config { data: String },
    /// There is no saved login.
    ConfigMissing,
    /// The saved login could not be read, for this reason.
    ConfigUnreadable { cause: String },
    /// A new login was made and saved.
    LoggedIn,
    /// The saved text holds this login.
    Parsed { connection: LoginConnection },
    /// Whether the login has expired.
    Expiry { verdict: Result<bool, DeployError> },
    /// What the platform answered about its health.
    Health { reply: HealthReply },
    /// What was to be done failed.
    Failed,
}

/// What to do next.
#[derive(Debug)]
pub enum LoginAction<S = String> {
    /// Read the saved login.
    ReadConfig,
    /// Log in, and save the login.
    LogIn,
    /// Take the login out of a saved text.
    Parse { data: S },
    /// Find out whether the login has expired.
    CheckExpiry,
    /// Ask at a URL whether the platform is healthy; print the notice if that
    /// takes long.
    CheckHealth { notice: S, url: S },
    /// Use this login.
    Done { connection: LoginConnection },
    /// Tell the user two lines and end with exit code 1.
    Exit { first: S, second: S },
    /// End with an error.
    Fail(Failure<S>),
}

impl View for LoginAction {
    type V = LoginAction<Seq<char>>;

    open spec fn view(&self) -> LoginAction<Seq<char>> {
        match *self {
            LoginAction::ReadConfig => LoginAction::ReadConfig,
            LoginAction::LogIn => LoginAction::LogIn,
            LoginAction::Parse { data } => LoginAction::Parse { data: data@ },
            LoginAction::CheckExpiry => LoginAction::CheckExpiry,
            LoginAction::CheckHealth { notice, url } => LoginAction::CheckHealth {
                notice: notice@,
                url: url@,
            },
            LoginAction::Done { connection } => LoginAction::Done { connection },
            LoginAction::Exit { first, second } => LoginAction::Exit {
                first: first@,
                second: second@,
            },
            LoginAction::Fail(failure) => LoginAction::Fail(failure@),
        }
    }
}

/// The end of a flow whose environment has no saved login.
pub open spec fn no_instance(name: Seq<char>) -> LoginAction<Seq<char>> {
    LoginAction::Exit {
        first: "You have no instance saved as '"@ + name + "'"@,
        second: "Run `spin platform login --environment-name "@ + name + "` to log in"@,
    }
}

/// The end of a flow whose environment's login has expired.
pub open spec fn instance_expired(name: Seq<char>) -> LoginAction<Seq<char>> {
    LoginAction::Exit {
        first: "Your login to this environment has expired"@,
        second: "Run `spin platform login --environment-name "@ + name + "` to log in again"@,
    }
}

/// The end of a flow whose login has an expiration time that cannot be read.
pub open spec fn expiration_unreadable(error: DeployError<Seq<char>>) -> LoginAction<Seq<char>> {
    LoginAction::Exit {
        first: error_text(error) + "\n"@,
        second: "Run `spin platform login` to log in again"@,
    }
}

/// The question whether the platform of a login is healthy, if there is a URL
/// for it.
pub open spec fn health_question(connection: LoginConnection) -> (
    LoginStage,
    LoginAction<Seq<char>>,
) {
    match url_outcome(joined_url(connection.url@.0, "healthz"@)) {
        Ok(url) => (
            LoginStage::CheckingHealth { connection },
            LoginAction::CheckHealth {
                notice: "Checking status ("@ + connection.url@.0 + ")\n"@,
                url: url.0,
            },
        ),
        Err(error) => (LoginStage::Ended, LoginAction::Fail(Failure::Own(error))),
    }
}

impl LoginFlow {
    /// Whether a flow is waiting for what happened.
    pub open spec fn awaits(self, event: LoginEvent) -> bool {
        match self.stage {
            LoginStage::Reading => event is Config || event is ConfigMissing
                || event is ConfigUnreadable,
            LoginStage::LoggingIn { .. } => event is LoggedIn || event is Failed,
            LoginStage::Rereading { .. } => event is Config || event is Failed,
            LoginStage::Parsing { .. } => event is Parsed || event is Failed,
            LoginStage::CheckingExpiry { .. } => event is Expiry,
            LoginStage::CheckingHealth { .. } => event is Health,
            LoginStage::Ended => false,
        }
    }

    /// Where a flow stands after what happened, and what to do next. Of something
    /// that the flow is not waiting for, nothing is meant.
    pub open spec fn next(self, event: LoginEvent) -> (LoginStage, LoginAction<Seq<char>>) {
        let name = self.deployment_env_id;
        match (self.stage, event) {
            (LoginStage::Reading, LoginEvent::Config { data }) => (
                LoginStage::Parsing { renewal: false },
                LoginAction::Parse { data: data@ },
            ),
            (LoginStage::Reading, LoginEvent::ConfigMissing) => match name {
                Some(name) => (LoginStage::Ended, no_instance(name@)),
                None => (LoginStage::LoggingIn { renewal: false }, LoginAction::LogIn),
            },
            (LoginStage::Reading, LoginEvent::ConfigUnreadable { cause }) => (
                LoginStage::Ended,
                LoginAction::Fail(Failure::Own(DeployError::LoginUnreadable { cause: cause@ })),
            ),
            (LoginStage::LoggingIn { renewal }, LoginEvent::LoggedIn) => (
                LoginStage::Rereading { renewal },
                LoginAction::ReadConfig,
            ),
            (LoginStage::Rereading { renewal }, LoginEvent::Config { data }) => (
                LoginStage::Parsing { renewal },
                LoginAction::Parse { data: data@ },
            ),
            (LoginStage::Rereading { renewal: true }, LoginEvent::Failed) => (
                LoginStage::Ended,
                LoginAction::Fail(
                    Failure::Told { context: "Cannot find spin config at "@ + self.config_path@ },
                ),
            ),
            (LoginStage::Parsing { renewal: false }, LoginEvent::Parsed { connection }) => (
                LoginStage::CheckingExpiry { connection },
                LoginAction::CheckExpiry,
            ),
            (LoginStage::Parsing { renewal: true }, LoginEvent::Parsed { connection }) => {
                health_question(connection)
            },
            (LoginStage::CheckingExpiry { connection }, LoginEvent::Expiry { verdict }) => {
                match verdict {
                    Ok(true) => match name {
                        Some(name) => (LoginStage::Ended, instance_expired(name@)),
                        None => (LoginStage::LoggingIn { renewal: true }, LoginAction::LogIn),
                    },
                    Ok(false) => health_question(connection),
                    Err(error) => (LoginStage::Ended, expiration_unreadable(error@)),
                }
            },
            (LoginStage::CheckingHealth { connection }, LoginEvent::Health { reply }) => {
                match health_verdict(connection.url@.0, reply) {
                    Ok(()) => (LoginStage::Ended, LoginAction::Done { connection }),
                    Err(failure) => (LoginStage::Ended, LoginAction::Fail(failure)),
                }
            },
            _ => (LoginStage::Ended, LoginAction::Fail(Failure::Passed)),
        }
    }

    /// The flow after what happened.
    pub open spec fn after(self, event: LoginEvent) -> LoginFlow {
        LoginFlow { stage: self.next(event).0, ..self }
    }

    /// Whether the flow is waiting for what happened.
    pub fn is_waiting_for(&self, event: &LoginEvent) -> (waiting: bool)
        ensures
            waiting == self.awaits(*event),
    {
        match (&self.stage, event) {
            (LoginStage::Reading, LoginEvent::Config { .. }) => true,
            (LoginStage::Reading, LoginEvent::ConfigMissing) => true,
            (LoginStage::Reading, LoginEvent::ConfigUnreadable { .. }) => true,
            (LoginStage::LoggingIn { .. }, LoginEvent::LoggedIn) => true,
            (LoginStage::LoggingIn { .. }, LoginEvent::Failed) => true,
            (LoginStage::Rereading { .. }, LoginEvent::Config { .. }) => true,
            (LoginStage::Rereading { .. }, LoginEvent::Failed) => true,
            (LoginStage::Parsing { .. }, LoginEvent::Parsed { .. }) => true,
            (LoginStage::Parsing { .. }, LoginEvent::Failed) => true,
            (LoginStage::CheckingExpiry { .. }, LoginEvent::Expiry { .. }) => true,
            (LoginStage::CheckingHealth { .. }, LoginEvent::Health { .. }) => true,
            _ => false,
        }
    }

    /// The login whose expiry or whose platform's health the flow asks for.
    pub fn connection(&self) -> (connection: Option<&LoginConnection>)
        ensures
            connection == match self.stage {
                LoginStage::CheckingExpiry { connection } => Some(&connection),
                LoginStage::CheckingHealth { connection } => Some(&connection),
                _ => None,
            },
    {
        match &self.stage {
            LoginStage::CheckingExpiry { connection } => Some(connection),
            LoginStage::CheckingHealth { connection } => Some(connection),
            _ => None,
        }
    }

    /// The file in which the login to the flow's environment is kept: the one to
    /// read whenever the flow asks for the saved login. Whether the user has a
    /// configuration directory, and which, is up to the system.
    pub fn config_file(&self) -> (path: Result<ConfigPath<PathBuf>, DeployError>)
        ensures
            match path {
                Ok(path) => path.segments.deep_view() == config_segments(
                    self.deployment_env_id.deep_view(),
                ),
                Err(error) => error@ == DeployError::<Seq<char>>::NoConfigDir,
            },
    {
        match &self.deployment_env_id {
            Some(name) => config_file_path(Some(name.as_str())),
            None => config_file_path(None),
        }
    }

    /// Goes on after what happened: the flow from there on, and what to do next.
    pub fn step(self, event: LoginEvent) -> (result: (LoginFlow, LoginAction))
        requires
            self.awaits(event),
        ensures
            result.0 == self.after(event),
            result.1@ == self.next(event).1,
    {
        let LoginFlow { deployment_env_id, config_path, stage } = self;
        let (stage, action) = match (stage, event) {
            (LoginStage::Reading, LoginEvent::Config { data }) => (
                LoginStage::Parsing { renewal: false },
                LoginAction::Parse { data },
            ),
            (LoginStage::Reading, LoginEvent::ConfigMissing) => match &deployment_env_id {
                Some(name) => (LoginStage::Ended, exit_without_instance(name.as_str())),
                None => (LoginStage::LoggingIn { renewal: false }, LoginAction::LogIn),
            },
            (LoginStage::Reading, LoginEvent::ConfigUnreadable { cause }) => (
                LoginStage::Ended,
                LoginAction::Fail(Failure::Own(DeployError::LoginUnreadable { cause })),
            ),
            (LoginStage::LoggingIn { renewal }, LoginEvent::LoggedIn) => (
                LoginStage::Rereading { renewal },
                LoginAction::ReadConfig,
            ),
            (LoginStage::Rereading { renewal }, LoginEvent::Config { data }) => (
                LoginStage::Parsing { renewal },
                LoginAction::Parse { data },
            ),
            (LoginStage::Rereading { renewal: true }, LoginEvent::Failed) => (
                LoginStage::Ended,
                LoginAction::Fail(
                    Failure::Told {
                        context: "Cannot find spin config at ".to_owned().concat(
                            config_path.as_str(),
                        ),
                    },
                ),
            ),
            (LoginStage::Parsing { renewal: false }, LoginEvent::Parsed { connection }) => (
                LoginStage::CheckingExpiry { connection },
                LoginAction::CheckExpiry,
            ),
            (LoginStage::Parsing { renewal: true }, LoginEvent::Parsed { connection }) => {
                ask_for_health(connection)
            },
            (LoginStage::CheckingExpiry { connection }, LoginEvent::Expiry { verdict }) => {
                match verdict {
                    Ok(true) => match &deployment_env_id {
                        Some(name) => (LoginStage::Ended, exit_with_expired(name.as_str())),
                        None => (LoginStage::LoggingIn { renewal: true }, LoginAction::LogIn),
                    },
                    Ok(false) => ask_for_health(connection),
                    Err(error) => (
                        LoginStage::Ended,
                        LoginAction::Exit {
                            first: error.message().concat("\n"),
                            second: "Run `spin platform login` to log in again".to_owned(),
                        },
                    ),
                }
            },
            (LoginStage::CheckingHealth { connection }, LoginEvent::Health { reply }) => {
                match check_healthz(&connection.url, reply) {
                    Ok(()) => (LoginStage::Ended, LoginAction::Done { connection }),
                    Err(failure) => (LoginStage::Ended, LoginAction::Fail(failure)),
                }
            },
            _ => (LoginStage::Ended, LoginAction::Fail(Failure::Passed)),
        };
        (LoginFlow { deployment_env_id, config_path, stage }, action)
    }

    /// Finds out whether the login has expired by now, and goes on after that.
    /// Which time it is depends on the clock; a login without an expiration time
    /// is used at any time.
    pub fn check_expiry(self) -> (result: (LoginFlow, LoginAction))
        requires
            self.stage is CheckingExpiry,
        ensures
            exists|verdict: Result<bool, DeployError>, now: (i64, u32)|
                outcome(verdict) == #[trigger] expiry_at(
                    self.stage->CheckingExpiry_connection,
                    now,
                ) && result.0 == #[trigger] self.after(LoginEvent::Expiry { verdict })
                    && result.1@ == self.next(LoginEvent::Expiry { verdict }).1,
            self.stage->CheckingExpiry_connection.expiration is None ==> result.0 == self.after(
                LoginEvent::Expiry { verdict: Ok(false) },
            ) && result.1@ == self.next(LoginEvent::Expiry { verdict: Ok(false) }).1,
    {
        let verdict = match &self.stage {
            LoginStage::CheckingExpiry { connection } => has_expired(connection),
            _ => Ok(false),
        };
        self.step(LoginEvent::Expiry { verdict })
    }
}

/// Tells that an environment has no saved login.
fn exit_without_instance(name: &str) -> (action: LoginAction)
    ensures
        action@ == no_instance(name@),
{
    LoginAction::Exit {
        first: "You have no instance saved as '".to_owned().concat(name).concat("'"),
        second: "Run `spin platform login --environment-name ".to_owned().concat(name).concat(
            "` to log in",
        ),
    }
}

/// Tells that the login to an environment has expired.
fn exit_with_expired(name: &str) -> (action: LoginAction)
    ensures
        action@ == instance_expired(name@),
{
    LoginAction::Exit {
        first: "Your login to this environment has expired".to_owned(),
        second: "Run `spin platform login --environment-name ".to_owned().concat(name).concat(
            "` to log in again",
        ),
    }
}

/// Asks whether the platform of a login is healthy.
fn ask_for_health(connection: LoginConnection) -> (question: (LoginStage, LoginAction))
    ensures
        question.0 == health_question(connection).0,
        question.1@ == health_question(connection).1,
{
    match healthz_url(&connection.url) {
        Ok(url) => {
            let notice = "Checking status (".to_owned().concat(connection.url.as_str()).concat(
                ")\n",
            );
            let url = url.as_str().to_owned();
            (
                LoginStage::CheckingHealth { connection },
                LoginAction::CheckHealth { notice, url },
            )
        },
        Err(error) => (LoginStage::Ended, LoginAction::Fail(Failure::Own(error))),
    }
}

/// Begins the way to a login of an environment, whose login is kept in a file.
pub fn login_connection(deployment_env_id: Option<String>, config_path: String) -> (begun: (
    LoginFlow,
    LoginAction,
))
    ensures
        begun.0 == (LoginFlow { deployment_env_id, config_path, stage: LoginStage::Reading }),
        begun.1@ == LoginAction::<Seq<char>>::ReadConfig,
{
    (
        LoginFlow { deployment_env_id, config_path, stage: LoginStage::Reading },
        LoginAction::ReadConfig,
    )
}

/// Whether, from a start on, each thing that happened was awaited when it did.
pub open spec fn login_runs(start: LoginFlow, events: Seq<LoginEvent>) -> bool
    decreases events.len(),
{
    events.len() == 0 || (login_runs(start, events.drop_last()) && login_after(
        start,
        events.drop_last(),
    ).awaits(events.last()))
}

/// The flow after some things happened.
pub open spec fn login_after(start: LoginFlow, events: Seq<LoginEvent>) -> LoginFlow
    decreases events.len(),
{
    if events.len() == 0 {
        start
    } else {
        login_after(start, events.drop_last()).after(events.last())
    }
}

/// A flow keeps its environment and the path of its file, so that whatever it
/// reads it reads from there.
pub proof fn law_environment_and_file_are_kept(start: LoginFlow, events: Seq<LoginEvent>)
    ensures
        login_after(start, events).deployment_env_id == start.deployment_env_id,
        login_after(start, events).config_path == start.config_path,
    decreases events.len(),
{
    if events.len() > 0 {
        law_environment_and_file_are_kept(start, events.drop_last());
    }
}

/// How many more things can happen to a flow at most.
pub open spec fn steps_left(stage: LoginStage) -> nat {
    match stage {
        LoginStage::Reading => 9,
        LoginStage::LoggingIn { renewal: false } => 8,
        LoginStage::Rereading { renewal: false } => 7,
        LoginStage::Parsing { renewal: false } => 6,
        LoginStage::CheckingExpiry { .. } => 5,
        LoginStage::LoggingIn { renewal: true } => 4,
        LoginStage::Rereading { renewal: true } => 3,
        LoginStage::Parsing { renewal: true } => 2,
        LoginStage::CheckingHealth { .. } => 1,
        LoginStage::Ended => 0,
    }
}

/// A flow ends: whatever happens, it goes on for at most as many steps as its
/// stage leaves, which are nine from the start.
pub proof fn law_login_ends(start: LoginFlow, events: Seq<LoginEvent>)
    requires
        login_runs(start, events),
    ensures
        events.len() + steps_left(login_after(start, events).stage) <= steps_left(start.stage),
    decreases events.len(),
{
    if events.len() > 0 {
        law_login_ends(start, events.drop_last());
    }
}

/// The user is never made to log in to a named environment: the flow of one
/// never gets to a login, and never asks for one.
pub proof fn law_named_environments_do_not_log_in(
    start: LoginFlow,
    events: Seq<LoginEvent>,
    event: LoginEvent,
)
    requires
        start.deployment_env_id is Some,
        start.stage is Reading,
        login_runs(start, events),
        login_after(start, events).awaits(event),
    ensures
        !(login_after(start, events).next(event).1 is LogIn),
{
    lemma_named_flow(start, events);
    law_environment_and_file_are_kept(start, events);
}

proof fn lemma_named_flow(start: LoginFlow, events: Seq<LoginEvent>)
    requires
        start.deployment_env_id is Some,
        start.stage is Reading,
        login_runs(start, events),
    ensures
        !(login_after(start, events).stage is LoggingIn),
    decreases events.len(),
{
    if events.len() > 0 {
        lemma_named_flow(start, events.drop_last());
        law_environment_and_file_are_kept(start, events.drop_last());
    }
}

/// Whether a login was found to have expired.
pub open spec fn found_expired(events: Seq<LoginEvent>) -> bool {
    exists|j: int|
        0 <= j < events.len() && #[trigger] events[j] == (LoginEvent::Expiry { verdict: Ok(true) })
}

/// Whether a login was taken out of a saved text, and either found not to have
/// expired right then, or taken after an expired one had been found.
pub open spec fn found_current(events: Seq<LoginEvent>, connection: LoginConnection) -> bool {
    exists|i: int|
        0 <= i < events.len() && #[trigger] events[i] == (LoginEvent::Parsed { connection }) && (
        (i + 1 < events.len() && events[i + 1] == (LoginEvent::Expiry { verdict: Ok(false) }))
            || found_expired(events.take(i)))
}

/// What a flow's stage tells about what happened before.
spec fn stage_history(stage: LoginStage, events: Seq<LoginEvent>) -> bool {
    match stage {
        LoginStage::LoggingIn { renewal: true } => found_expired(events),
        LoginStage::Rereading { renewal: true } => found_expired(events),
        LoginStage::Parsing { renewal: true } => found_expired(events),
        LoginStage::CheckingExpiry { connection } => events.len() > 0 && events.last() == (
        LoginEvent::Parsed { connection }),
        LoginStage::CheckingHealth { connection } => found_current(events, connection),
        _ => true,
    }
}

proof fn lemma_stage_history(start: LoginFlow, events: Seq<LoginEvent>)
    requires
        start.stage is Reading,
        login_runs(start, events),
    ensures
        stage_history(login_after(start, events).stage, events),
    decreases events.len(),
{
    if events.len() > 0 {
        let before = events.drop_last();
        let event = events.last();
        let last = events.len() - 1;
        lemma_stage_history(start, before);
        let flow = login_after(start, before);
        if found_expired(before) {
            let j = choose|j: int|
                0 <= j < before.len() && #[trigger] before[j] == (LoginEvent::Expiry {
                    verdict: Ok(true),
                });
            assert(events[j] == before[j]);
        }
        match (flow.stage, event) {
            (LoginStage::CheckingExpiry { connection }, LoginEvent::Expiry { verdict }) => {
                if verdict == Ok::<bool, DeployError>(true) {
                    assert(events[last] == (LoginEvent::Expiry { verdict: Ok(true) }));
                }
                if verdict == Ok::<bool, DeployError>(false) {
                    assert(events[last - 1] == (LoginEvent::Parsed { connection }));
                    assert(events[last - 1 + 1] == (LoginEvent::Expiry { verdict: Ok(false) }));
                    assert(found_current(events, connection));
                }
            },
            (LoginStage::Parsing { renewal: true }, LoginEvent::Parsed { connection }) => {
                assert(events[last] == (LoginEvent::Parsed { connection }));
                assert(events.take(last) == before);
                assert(found_current(events, connection));
            },
            _ => {},
        }
    }
}

/// A login that a flow ends with was taken out of a saved text and was current:
/// it had just been found not to have expired, or it was made anew after one
/// that had. Its platform had just answered without an error.
pub proof fn law_used_logins_are_current(
    start: LoginFlow,
    events: Seq<LoginEvent>,
    event: LoginEvent,
    connection: LoginConnection,
)
    requires
        start.stage is Reading,
        login_runs(start, events),
        login_after(start, events).awaits(event),
        login_after(start, events).next(event).1 == (LoginAction::<Seq<char>>::Done {
            connection,
        }),
    ensures
        found_current(events, connection),
        event matches LoginEvent::Health { reply: HealthReply::Status(status) }
            && !is_error_status(status),
{
    lemma_stage_history(start, events);
}

/// A flow that has ended waits for nothing; one that has not waits for
/// something.
pub proof fn law_ended_flows_wait_for_nothing(flow: LoginFlow)
    ensures
        flow.stage is Ended <==> forall|event: LoginEvent| !flow.awaits(event),
{
    if !(flow.stage is Ended) {
        assert(flow.awaits(LoginEvent::ConfigMissing) || flow.awaits(LoginEvent::Failed)
            || flow.awaits(LoginEvent::Expiry { verdict: Ok(true) }) || flow.awaits(
            LoginEvent::Health { reply: HealthReply::Missing },
        ));
    }
}

} // verus!

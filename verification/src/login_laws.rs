//! What a login comes to, whatever its environment.

use vstd::prelude::*;

use crate::error::{error_text, DeployError, Failure};
use crate::login::{HealthReply, LoginConnection};
use crate::login_flow::{
    login_after, login_runs, LoginAction, LoginEvent, LoginFlow, LoginStage,
};
use crate::outside::joined_url;

verus! {

/// A login whose platform answers without an error status is used as it is, in a
/// named environment and in the unnamed one.
pub proof fn law_healthy_logins_are_used(
    flow: LoginFlow,
    connection: LoginConnection,
    status: u16,
)
    requires
        flow.stage == (LoginStage::CheckingHealth { connection }),
        status < 400 || status >= 600,
    ensures
        ({
            let event = LoginEvent::Health { reply: HealthReply::Status(status) };
            &&& flow.awaits(event)
            &&& flow.next(event).0 is Ended
            &&& flow.next(event).1 == (LoginAction::<Seq<char>>::Done { connection })
        }),
{
}

/// A login whose platform answers with an error status, or not at all, is not used:
/// the one is told with the platform's URL, the other as it was met.
pub proof fn law_unhealthy_logins_are_not_used(
    flow: LoginFlow,
    connection: LoginConnection,
    status: u16,
)
    requires
        flow.stage == (LoginStage::CheckingHealth { connection }),
        400 <= status < 600,
    ensures
        ({
            let answered = LoginEvent::Health { reply: HealthReply::Status(status) };
            let missing = LoginEvent::Health { reply: HealthReply::Missing };
            &&& flow.awaits(answered) && flow.awaits(missing)
            &&& flow.next(answered).0 is Ended && flow.next(missing).0 is Ended
            &&& flow.next(answered).1 == LoginAction::Fail(
                Failure::Told { context: "Server "@ + connection.url@.0 + " is unhealthy"@ },
            )
            &&& flow.next(missing).1 == LoginAction::<Seq<char>>::Fail(Failure::Passed)
        }),
{
}

/// What was read of a saved login is handed on to be parsed, unchanged, the first
/// time and after every new login.
pub proof fn law_saved_texts_are_parsed(flow: LoginFlow, data: String)
    requires
        flow.stage is Reading || flow.stage is Rereading,
    ensures
        ({
            let event = LoginEvent::Config { data };
            &&& flow.awaits(event)
            &&& flow.next(event).1 == (LoginAction::<Seq<char>>::Parse { data: data@ })
            &&& flow.next(event).0 == (LoginStage::Parsing {
                renewal: flow.stage == (LoginStage::Rereading { renewal: true }),
            })
        }),
{
}

/// Where there is no saved login, the user of the unnamed environment logs in, and
/// the user of a named one is told how to.
pub proof fn law_missing_logins(flow: LoginFlow)
    requires
        flow.stage is Reading,
    ensures
        flow.awaits(LoginEvent::ConfigMissing),
        flow.deployment_env_id is None ==> {
            &&& flow.next(LoginEvent::ConfigMissing).0 == (LoginStage::LoggingIn { renewal: false })
            &&& flow.next(LoginEvent::ConfigMissing).1 is LogIn
        },
        flow.deployment_env_id matches Some(name) ==> {
            &&& flow.next(LoginEvent::ConfigMissing).0 is Ended
            &&& flow.next(LoginEvent::ConfigMissing).1 == (LoginAction::Exit {
                first: "You have no instance saved as '"@ + name@ + "'"@,
                second: "Run `spin platform login --environment-name "@ + name@ + "` to log in"@,
            })
        },
{
}

/// A saved login that cannot be read ends the flow, for the reason that was met.
pub proof fn law_unreadable_logins(flow: LoginFlow, cause: String)
    requires
        flow.stage is Reading,
    ensures
        ({
            let event = LoginEvent::ConfigUnreadable { cause };
            &&& flow.awaits(event)
            &&& flow.next(event).0 is Ended
            &&& flow.next(event).1 == LoginAction::Fail(
                Failure::Own(DeployError::LoginUnreadable { cause: cause@ }),
            )
        }),
{
}

/// After a new login the saved one is read; that it renews an expired one is not
/// forgotten.
pub proof fn law_new_logins_are_read(flow: LoginFlow, renewal: bool)
    requires
        flow.stage == (LoginStage::LoggingIn { renewal }),
    ensures
        flow.awaits(LoginEvent::LoggedIn),
        flow.next(LoginEvent::LoggedIn).0 == (LoginStage::Rereading { renewal }),
        flow.next(LoginEvent::LoggedIn).1 is ReadConfig,
{
}

/// A new login, a text that holds no login, and a new login's text that cannot be
/// read: each ends the flow if it fails, with the error that was met. Where an
/// expired login was renewed, a text that cannot be read is told with its path.
pub proof fn law_failures_end_a_login(flow: LoginFlow)
    requires
        flow.stage is LoggingIn || flow.stage is Rereading || flow.stage is Parsing,
    ensures
        flow.awaits(LoginEvent::Failed),
        flow.next(LoginEvent::Failed).0 is Ended,
        flow.next(LoginEvent::Failed).1 == if flow.stage == (LoginStage::Rereading {
            renewal: true,
        }) {
            LoginAction::Fail(
                Failure::Told { context: "Cannot find spin config at "@ + flow.config_path@ },
            )
        } else {
            LoginAction::Fail(Failure::Passed)
        },
{
}

/// Whether a flow asks at a URL for the health of a login's platform.
pub open spec fn asks_for_health(
    stage: LoginStage,
    action: LoginAction<Seq<char>>,
    connection: LoginConnection,
    url: Seq<char>,
) -> bool {
    &&& stage == (LoginStage::CheckingHealth { connection })
    &&& action == (LoginAction::CheckHealth {
        notice: "Checking status ("@ + connection.url@.0 + ")\n"@,
        url,
    })
}

/// A parsed login is held against its expiration, unless it has just renewed an
/// expired one: then its platform is asked at once for its health.
pub proof fn law_parsed_logins(
    flow: LoginFlow,
    renewal: bool,
    connection: LoginConnection,
)
    requires
        flow.stage == (LoginStage::Parsing { renewal }),
    ensures
        ({
            let event = LoginEvent::Parsed { connection };
            let (stage, action) = flow.next(event);
            &&& flow.awaits(event)
            &&& !renewal ==> stage == (LoginStage::CheckingExpiry { connection })
                && action is CheckExpiry
            &&& renewal ==> (joined_url(connection.url@.0, "healthz"@) matches Ok(url)
                ==> asks_for_health(stage, action, connection, url.0))
        }),
{
}

/// The platform of a login that has not expired is asked for its health, in a named
/// environment and in the unnamed one.
pub proof fn law_current_logins(
    flow: LoginFlow,
    connection: LoginConnection,
    url: (Seq<char>, Seq<char>),
)
    requires
        flow.stage == (LoginStage::CheckingExpiry { connection }),
        joined_url(connection.url@.0, "healthz"@) == Ok::<(Seq<char>, Seq<char>), Seq<char>>(url),
    ensures
        ({
            let event = LoginEvent::Expiry { verdict: Ok(false) };
            let (stage, action) = flow.next(event);
            flow.awaits(event) && asks_for_health(stage, action, connection, url.0)
        }),
{
}

/// An expired login is renewed in the unnamed environment; in a named one the user
/// is told how to.
pub proof fn law_expired_logins(flow: LoginFlow, connection: LoginConnection)
    requires
        flow.stage == (LoginStage::CheckingExpiry { connection }),
    ensures
        ({
            let event = LoginEvent::Expiry { verdict: Ok(true) };
            let (stage, action) = flow.next(event);
            &&& flow.awaits(event)
            &&& flow.deployment_env_id is None ==> stage == (LoginStage::LoggingIn {
                renewal: true,
            }) && action is LogIn
            &&& flow.deployment_env_id matches Some(name) ==> stage is Ended && action == (
            LoginAction::Exit {
                first: "Your login to this environment has expired"@,
                second: "Run `spin platform login --environment-name "@ + name@
                    + "` to log in again"@,
            })
        }),
{
}

/// A login whose expiration cannot be read is not used, and the user is told why.
pub proof fn law_logins_of_unreadable_expiration(
    flow: LoginFlow,
    connection: LoginConnection,
    error: DeployError,
)
    requires
        flow.stage == (LoginStage::CheckingExpiry { connection }),
    ensures
        ({
            let event = LoginEvent::Expiry { verdict: Err(error) };
            &&& flow.awaits(event)
            &&& flow.next(event).0 is Ended
            &&& flow.next(event).1 == (LoginAction::Exit {
                first: error_text(error@) + "\n"@,
                second: "Run `spin platform login` to log in again"@,
            })
        }),
{
}

/// A login whose platform has no URL to ask for its health is not used, for that
/// cause, be it current or renewed.
pub proof fn law_logins_without_health_url(
    flow: LoginFlow,
    connection: LoginConnection,
    cause: Seq<char>,
)
    requires
        joined_url(connection.url@.0, "healthz"@) == Err::<(Seq<char>, Seq<char>), Seq<char>>(
            cause,
        ),
    ensures
        ({
            let end = LoginAction::Fail(Failure::Own(DeployError::InvalidUrl { cause }));
            let current = flow.next(LoginEvent::Expiry { verdict: Ok(false) });
            let renewed = flow.next(LoginEvent::Parsed { connection });
            &&& flow.stage == (LoginStage::CheckingExpiry { connection }) ==> current.0 is Ended
                && current.1 == end
            &&& flow.stage == (LoginStage::Parsing { renewal: true }) ==> renewed.0 is Ended
                && renewed.1 == end
        }),
{
}

/// Each stage waits for what it asked for, and for nothing else. Finding out the
/// expiry and the health cannot fail otherwise than by what is found; nor can the
/// first reading.
pub proof fn law_a_login_waits_for_what_it_asked_for(flow: LoginFlow, event: LoginEvent)
    ensures
        flow.awaits(event) <==> match event {
            LoginEvent::Config { .. } => flow.stage is Reading || flow.stage is Rereading,
            LoginEvent::ConfigMissing => flow.stage is Reading,
            LoginEvent::ConfigUnreadable { .. } => flow.stage is Reading,
            LoginEvent::LoggedIn => flow.stage is LoggingIn,
            LoginEvent::Parsed { .. } => flow.stage is Parsing,
            LoginEvent::Expiry { .. } => flow.stage is CheckingExpiry,
            LoginEvent::Health { .. } => flow.stage is CheckingHealth,
            LoginEvent::Failed => flow.stage is LoggingIn || flow.stage is Rereading
                || flow.stage is Parsing,
        },
{
}

/// From a saved login that has not expired, of a platform that is healthy, to its
/// use: four things happen, and the login that is used is the one that was saved.
/// So it is in every environment.
pub proof fn law_a_saved_login_is_used(
    start: LoginFlow,
    data: String,
    connection: LoginConnection,
    status: u16,
)
    requires
        start.stage is Reading,
        joined_url(connection.url@.0, "healthz"@) is Ok,
        status < 400 || status >= 600,
    ensures
        ({
            let events = seq![
                LoginEvent::Config { data },
                LoginEvent::Parsed { connection },
                LoginEvent::Expiry { verdict: Ok(false) },
            ];
            let last = LoginEvent::Health { reply: HealthReply::Status(status) };
            &&& login_runs(start, events.push(last))
            &&& login_after(start, events).next(last).1 == (LoginAction::<Seq<char>>::Done {
                connection,
            })
        }),
{
    let one = seq![LoginEvent::Config { data }];
    let two = one.push(LoginEvent::Parsed { connection });
    let three = two.push(LoginEvent::Expiry { verdict: Ok(false) });
    let last = LoginEvent::Health { reply: HealthReply::Status(status) };
    lemma_login_step(start, Seq::empty(), LoginEvent::Config { data });
    assert(Seq::<LoginEvent>::empty().push(LoginEvent::Config { data }) =~= one);
    lemma_login_step(start, one, LoginEvent::Parsed { connection });
    lemma_login_step(start, two, LoginEvent::Expiry { verdict: Ok(false) });
    lemma_login_step(start, three, last);
    assert(seq![
        LoginEvent::Config { data },
        LoginEvent::Parsed { connection },
        LoginEvent::Expiry { verdict: Ok(false) },
    ] =~= three);
}

proof fn lemma_login_step(start: LoginFlow, events: Seq<LoginEvent>, event: LoginEvent)
    requires
        login_runs(start, events),
        login_after(start, events).awaits(event),
    ensures
        login_runs(start, events.push(event)),
        login_after(start, events.push(event)) == login_after(start, events).after(event),
        login_after(start, events).after(event).stage == login_after(start, events).next(event).0,
{
    assert(events.push(event).drop_last() =~= events);
}

} // verus!

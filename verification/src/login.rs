//! The saved login to the platform: where it is kept, how long it holds, and
//! whether its platform is healthy.

use std::path::PathBuf;
use vstd::prelude::*;
use vstd::string::*;

use crate::error::{outcome, DeployError, Failure};
use crate::outside::{config_dir, parse_rfc3339, rfc3339_instant, utc_now};
use crate::web_url::Url;

verus! {

/// A login to the platform.
#[derive(Debug)]
pub struct LoginConnection {
    pub url: Url,
    pub danger_accept_invalid_certs: bool,
    pub token: String,
    pub bindle_url: Option<String>,
    pub bindle_username: Option<String>,
    pub bindle_password: Option<String>,
    pub expiration: Option<String>,
}

/// A file below the user's configuration directory: the names to be joined to
/// the directory, in that order.
#[derive(Debug)]
pub struct ConfigPath<D> {
    pub config_dir: D,
    pub segments: Vec<String>,
}

/// The names under which a login is kept: a file of the environment's name, or
/// of a fixed name for the unnamed environment, in the directory `fermyon`.
pub open spec fn config_segments(deployment_env_id: Option<Seq<char>>) -> Seq<Seq<char>> {
    let file_stem = match deployment_env_id {
        None => "config"@,
        Some(id) => id,
    };
    seq!["fermyon"@, file_stem + ".json"@]
}

/// The file in which the login to an environment is kept, below a configuration
/// directory.
pub fn config_file_path_in<D>(config_dir: Option<D>, deployment_env_id: Option<&str>) -> (path:
    Result<ConfigPath<D>, DeployError>)
    ensures
        match config_dir {
            Some(dir) => path matches Ok(path) && path.config_dir == dir
                && path.segments.deep_view() == config_segments(deployment_env_id.deep_view()),
            None => path matches Err(error) && error@ == DeployError::<Seq<char>>::NoConfigDir,
        },
{
    match config_dir {
        None => Err(DeployError::NoConfigDir),
        Some(config_dir) => {
            let file_stem = match deployment_env_id {
                None => "config",
                Some(id) => id,
            };
            let mut segments: Vec<String> = Vec::new();
            segments.push("fermyon".to_owned());
            segments.push(file_stem.to_owned().concat(".json"));
            assert(segments.deep_view() =~= config_segments(deployment_env_id.deep_view()));
            Ok(ConfigPath { config_dir, segments })
        },
    }
}

/// The file in which the login to an environment is kept. Whether the user has a
/// configuration directory, and which, is up to the system.
pub fn config_file_path(deployment_env_id: Option<&str>) -> (path: Result<
    ConfigPath<PathBuf>,
    DeployError,
>)
    ensures
        match path {
            Ok(path) => path.segments.deep_view() == config_segments(
                deployment_env_id.deep_view(),
            ),
            Err(error) => error@ == DeployError::<Seq<char>>::NoConfigDir,
        },
{
    config_file_path_in(config_dir(), deployment_env_id)
}

/// Whether a time comes after another. A time is a number of seconds and a
/// number of nanoseconds.
pub open spec fn is_after(time: (i64, u32), other: (i64, u32)) -> bool {
    time.0 > other.0 || (time.0 == other.0 && time.1 > other.1)
}

/// Whether an expiration time has passed, once it has been read as a time.
pub open spec fn expiry_read(
    expiration: Seq<char>,
    read: Result<(i64, u32), Seq<char>>,
    now: (i64, u32),
) -> Result<bool, DeployError<Seq<char>>> {
    match read {
        Ok(time) => Ok(is_after(now, time)),
        Err(cause) => Err(DeployError::InvalidExpiration { expiration, cause }),
    }
}

/// Whether a login has expired at a time. One without an expiration time never
/// does.
pub open spec fn expiry_at(login: LoginConnection, now: (i64, u32)) -> Result<
    bool,
    DeployError<Seq<char>>,
> {
    match login.expiration {
        Some(expiration) => expiry_read(expiration@, rfc3339_instant(expiration@), now),
        None => Ok(false),
    }
}

/// Whether an expiration time has passed, from what it was read as.
pub fn has_passed(expiration: &str, read: Result<(i64, u32), String>, now: (i64, u32)) -> (expired:
    Result<bool, DeployError>)
    ensures
        outcome(expired) == expiry_read(
            expiration@,
            match read {
                Ok(time) => Ok(time),
                Err(cause) => Err(cause@),
            },
            now,
        ),
{
    match read {
        Ok(time) => Ok(now.0 > time.0 || (now.0 == time.0 && now.1 > time.1)),
        Err(cause) => Err(
            DeployError::InvalidExpiration { expiration: expiration.to_owned(), cause },
        ),
    }
}

/// Whether a login has expired at a time.
pub fn has_expired_at(login_connection: &LoginConnection, now: (i64, u32)) -> (expired: Result<
    bool,
    DeployError,
>)
    ensures
        outcome(expired) == expiry_at(*login_connection, now),
{
    match &login_connection.expiration {
        Some(expiration) => has_passed(
            expiration.as_str(),
            parse_rfc3339(expiration.as_str()),
            now,
        ),
        None => Ok(false),
    }
}

/// Whether a login has expired by now.
pub fn has_expired(login_connection: &LoginConnection) -> (expired: Result<bool, DeployError>)
    ensures
        exists|now: (i64, u32)| outcome(expired) == #[trigger] expiry_at(*login_connection, now),
        login_connection.expiration is None ==> expired == Ok::<bool, DeployError>(false),
{
    has_expired_at(login_connection, utc_now())
}

/// The answer to the question whether the platform is healthy.
#[derive(Debug)]
pub enum HealthReply {
    /// There was none.
    Missing,
    /// An answer with this status.
    Status(u16),
}

/// Whether a status tells of an error, of the client or of the server.
pub open spec fn is_error_status(status: u16) -> bool {
    400 <= status < 600
}

/// Whether a platform can be used after this answer; if not, how the login ends.
pub open spec fn health_verdict(base_url: Seq<char>, reply: HealthReply) -> Result<
    (),
    Failure<Seq<char>>,
> {
    match reply {
        HealthReply::Missing => Err(Failure::Passed),
        HealthReply::Status(status) => if is_error_status(status) {
            Err(Failure::Told { context: "Server "@ + base_url + " is unhealthy"@ })
        } else {
            Ok(())
        },
    }
}

/// Whether a platform can be used after this answer.
pub fn check_healthz(base_url: &Url, reply: HealthReply) -> (verdict: Result<(), Failure>)
    ensures
        match verdict {
            Ok(()) => health_verdict(base_url@.0, reply) is Ok,
            Err(failure) => health_verdict(base_url@.0, reply) == Err::<(), Failure<Seq<char>>>(
                failure@,
            ),
        },
{
    match reply {
        HealthReply::Missing => Err(Failure::Passed),
        HealthReply::Status(status) => if 400 <= status && status < 600 {
            Err(
                Failure::Told {
                    context: "Server ".to_owned().concat(base_url.as_str()).concat(
                        " is unhealthy",
                    ),
                },
            )
        } else {
            Ok(())
        },
    }
}

/// The login to the unnamed environment is kept in `fermyon/config.json`, that to a
/// named one in the same directory under its name.
pub proof fn law_logins_are_kept_by_name(id: Seq<char>)
    ensures
        config_segments(None) == seq!["fermyon"@, "config.json"@],
        config_segments(Some(id)) == seq!["fermyon"@, id + ".json"@],
{
    reveal_strlit("config");
    reveal_strlit(".json");
    reveal_strlit("config.json");
    assert("config"@ + ".json"@ =~= "config.json"@);
}

/// A login without an expiration time has never expired.
pub proof fn law_logins_without_expiration_hold(login: LoginConnection, now: (i64, u32))
    requires
        login.expiration is None,
    ensures
        expiry_at(login, now) == Ok::<bool, DeployError<Seq<char>>>(false),
{
}

/// A login has expired exactly if the time is later than the expiration time, by
/// the seconds or, within a second, by the nanoseconds. At the expiration time
/// itself it has not.
pub proof fn law_logins_expire_at_their_time(
    login: LoginConnection,
    expiration: String,
    time: (i64, u32),
    now: (i64, u32),
)
    requires
        login.expiration == Some(expiration),
        rfc3339_instant(expiration@) == Ok::<(i64, u32), Seq<char>>(time),
    ensures
        now.0 < time.0 ==> expiry_at(login, now) == Ok::<bool, DeployError<Seq<char>>>(false),
        now.0 > time.0 ==> expiry_at(login, now) == Ok::<bool, DeployError<Seq<char>>>(true),
        now.0 == time.0 ==> expiry_at(login, now) == Ok::<bool, DeployError<Seq<char>>>(
            now.1 > time.1,
        ),
{
}

/// A login that has expired stays so.
pub proof fn law_expired_logins_stay_expired(
    login: LoginConnection,
    now: (i64, u32),
    later: (i64, u32),
)
    requires
        expiry_at(login, now) == Ok::<bool, DeployError<Seq<char>>>(true),
        later.0 > now.0 || (later.0 == now.0 && later.1 >= now.1),
    ensures
        expiry_at(login, later) == Ok::<bool, DeployError<Seq<char>>>(true),
{
}

/// An expiration time that cannot be read is an error at any time, which tells the
/// text and the cause.
pub proof fn law_unreadable_expirations_are_told(
    login: LoginConnection,
    expiration: String,
    cause: Seq<char>,
    now: (i64, u32),
)
    requires
        login.expiration == Some(expiration),
        rfc3339_instant(expiration@) == Err::<(i64, u32), Seq<char>>(cause),
    ensures
        expiry_at(login, now) == Err::<bool, DeployError<Seq<char>>>(
            DeployError::InvalidExpiration { expiration: expiration@, cause },
        ),
{
}

/// A platform can be used exactly if it answers with a status that is no error. A
/// missing answer ends the login with its own error, an error status with one that
/// tells of the platform.
pub proof fn law_healthy_platforms_are_used(base_url: Seq<char>, status: u16)
    ensures
        status < 400 || status >= 600 ==> health_verdict(base_url, HealthReply::Status(status))
            == Ok::<(), Failure<Seq<char>>>(()),
        400 <= status < 600 ==> health_verdict(base_url, HealthReply::Status(status)) == Err::<
            (),
            Failure<Seq<char>>,
        >(Failure::Told { context: "Server "@ + base_url + " is unhealthy"@ }),
        health_verdict(base_url, HealthReply::Missing) == Err::<(), Failure<Seq<char>>>(
            Failure::Passed,
        ),
{
}

} // verus!

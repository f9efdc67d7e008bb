//! What can go wrong in a deployment, and how it is told to the user.

use vstd::prelude::*;
use vstd::string::*;

use crate::outside::{debug_form, debug_text, hyphenated, uuid_text};

verus! {

/// An error of the deployment rules themselves. `S` is `String` in code and a
/// sequence of characters in contracts.
#[derive(Debug, PartialEq, Eq)]
pub enum DeployError<S = String> {
    /// The manifest has no components.
    NoComponents,
    /// A component asks for a key/value store other than the default one.
    InvalidStore { store: S, component: S },
    /// The application is triggered by Redis messages.
    RedisTrigger,
    /// The application has a trigger of another kind than HTTP and Redis.
    ExternalTrigger,
    /// A text that should be a URL is none.
    InvalidUrl { cause: S },
    /// The domain of the application gives no URL.
    InvalidBaseUrl { domain: S, cloud_url: S, cause: S },
    /// The platform has no application of that name.
    NoSuchApp { name: S },
    /// The application has no revision of that version.
    NoSuchRevision { version: S, app_id: u128 },
    /// The application has no channel of that name.
    NoSuchChannel { app_id: u128, name: S },
    /// The bindle is on the server already, and may not be deployed again.
    BindleExists { reason: S },
    /// The server refuses the application for its size.
    AppTooLarge { reason: S },
    /// The expiration time of the login is no RFC 3339 time.
    InvalidExpiration { expiration: S, cause: S },
    /// The user has no configuration directory.
    NoConfigDir,
    /// The saved login could not be read.
    LoginUnreadable { cause: S },
    /// A text that should be build metadata is none.
    InvalidBuildInfo,
}

impl View for DeployError {
    type V = DeployError<Seq<char>>;

    open spec fn view(&self) -> DeployError<Seq<char>> {
        match *self {
            DeployError::NoComponents => DeployError::NoComponents,
            DeployError::InvalidStore { store, component } => DeployError::InvalidStore {
                store: store@,
                component: component@,
            },
            DeployError::RedisTrigger => DeployError::RedisTrigger,
            DeployError::ExternalTrigger => DeployError::ExternalTrigger,
            DeployError::InvalidUrl { cause } => DeployError::InvalidUrl { cause: cause@ },
            DeployError::InvalidBaseUrl { domain, cloud_url, cause } => {
                DeployError::InvalidBaseUrl {
                    domain: domain@,
                    cloud_url: cloud_url@,
                    cause: cause@,
                }
            },
            DeployError::NoSuchApp { name } => DeployError::NoSuchApp { name: name@ },
            DeployError::NoSuchRevision { version, app_id } => DeployError::NoSuchRevision {
                version: version@,
                app_id,
            },
            DeployError::NoSuchChannel { app_id, name } => DeployError::NoSuchChannel {
                app_id,
                name: name@,
            },
            DeployError::BindleExists { reason } => DeployError::BindleExists { reason: reason@ },
            DeployError::AppTooLarge { reason } => DeployError::AppTooLarge { reason: reason@ },
            DeployError::InvalidExpiration { expiration, cause } => {
                DeployError::InvalidExpiration { expiration: expiration@, cause: cause@ }
            },
            DeployError::NoConfigDir => DeployError::NoConfigDir,
            DeployError::LoginUnreadable { cause } => DeployError::LoginUnreadable {
                cause: cause@,
            },
            DeployError::InvalidBuildInfo => DeployError::InvalidBuildInfo,
        }
    }
}

/// The text in which an error is told.
pub open spec fn error_text(error: DeployError<Seq<char>>) -> Seq<char> {
    match error {
        DeployError::NoComponents => "No components in spin.toml!"@,
        DeployError::InvalidStore { store, component } => "Invalid store "@ + debug_form(store)
            + " for component "@ + debug_form(component)
            + ". Cloud currently supports only the 'default' store."@,
        DeployError::RedisTrigger => "Redis triggers are not supported"@,
        DeployError::ExternalTrigger => "External triggers are not supported"@,
        DeployError::InvalidUrl { cause } => cause,
        DeployError::InvalidBaseUrl { domain, cloud_url, .. } => {
            "Could not construct app base URL for "@ + debug_form(domain) + " (Cloud URL: "@
                + cloud_url + ")"@
        },
        DeployError::NoSuchApp { name } => "No app with name: "@ + name,
        DeployError::NoSuchRevision { version, app_id } => "No revision with version "@ + version
            + " and app id "@ + hyphenated(app_id),
        DeployError::NoSuchChannel { app_id, name } => "No channel with app_id "@ + hyphenated(
            app_id,
        ) + " and name "@ + name,
        DeployError::BindleExists { reason } => "Failed to push bindle to server.\n"@ + reason
            + "\nTry using the --deploy-existing-bindle flag"@,
        DeployError::AppTooLarge { reason } => reason,
        DeployError::InvalidExpiration { expiration, cause } => {
            "Failed to parse token expiration time '"@ + expiration + "'. Error: "@ + cause
        },
        DeployError::NoConfigDir => "Cannot find configuration directory"@,
        DeployError::LoginUnreadable { cause } => "Could not log in: "@ + cause,
        DeployError::InvalidBuildInfo => "Could not compute build info"@,
    }
}

impl DeployError {
    /// The error as it is told to the user.
    pub fn message(&self) -> (text: String)
        ensures
            text@ == error_text(self@),
    {
        match self {
            DeployError::NoComponents => "No components in spin.toml!".to_owned(),
            DeployError::InvalidStore { store, component } => {
                "Invalid store ".to_owned().concat(debug_text(store.as_str()).as_str()).concat(
                    " for component ",
                ).concat(debug_text(component.as_str()).as_str()).concat(
                    ". Cloud currently supports only the 'default' store.",
                )
            },
            DeployError::RedisTrigger => "Redis triggers are not supported".to_owned(),
            DeployError::ExternalTrigger => "External triggers are not supported".to_owned(),
            DeployError::InvalidUrl { cause } => cause.clone(),
            DeployError::InvalidBaseUrl { domain, cloud_url, .. } => {
                "Could not construct app base URL for ".to_owned().concat(
                    debug_text(domain.as_str()).as_str(),
                ).concat(" (Cloud URL: ").concat(cloud_url.as_str()).concat(")")
            },
            DeployError::NoSuchApp { name } => "No app with name: ".to_owned().concat(
                name.as_str(),
            ),
            DeployError::NoSuchRevision { version, app_id } => {
                "No revision with version ".to_owned().concat(version.as_str()).concat(
                    " and app id ",
                ).concat(uuid_text(*app_id).as_str())
            },
            DeployError::NoSuchChannel { app_id, name } => {
                "No channel with app_id ".to_owned().concat(uuid_text(*app_id).as_str()).concat(
                    " and name ",
                ).concat(name.as_str())
            },
            DeployError::BindleExists { reason } => {
                "Failed to push bindle to server.\n".to_owned().concat(reason.as_str()).concat(
                    "\nTry using the --deploy-existing-bindle flag",
                )
            },
            DeployError::AppTooLarge { reason } => reason.clone(),
            DeployError::InvalidExpiration { expiration, cause } => {
                "Failed to parse token expiration time '".to_owned().concat(
                    expiration.as_str(),
                ).concat("'. Error: ").concat(cause.as_str())
            },
            DeployError::NoConfigDir => "Cannot find configuration directory".to_owned(),
            DeployError::LoginUnreadable { cause } => "Could not log in: ".to_owned().concat(
                cause.as_str(),
            ),
            DeployError::InvalidBuildInfo => "Could not compute build info".to_owned(),
        }
    }
}

/// A result of the rules, by the views of what it holds.
pub open spec fn outcome<T: View>(result: Result<T, DeployError>) -> Result<
    T::V,
    DeployError<Seq<char>>,
> {
    match result {
        Ok(value) => Ok(value@),
        Err(error) => Err(error@),
    }
}

/// How a deployment or a login ends when a step of it fails.
#[derive(Debug, PartialEq, Eq)]
pub enum Failure<S = String> {
    /// With an error of the rules.
    Own(DeployError<S>),
    /// With the error that the step met, unchanged.
    Passed,
    /// With the error that the step met, told under this text.
    Told { context: S },
    /// With the error that the upload met, told with where the bindle was taken
    /// from and where it was to go.
    Upload,
}

impl View for Failure {
    type V = Failure<Seq<char>>;

    open spec fn view(&self) -> Failure<Seq<char>> {
        match *self {
            Failure::Own(error) => Failure::Own(error@),
            Failure::Passed => Failure::Passed,
            Failure::Told { context } => Failure::Told { context: context@ },
            Failure::Upload => Failure::Upload,
        }
    }
}

/// The outcome of a result is its value or its error, and nothing else.
pub proof fn law_outcomes_are_faithful<T: View>(value: T, error: DeployError)
    ensures
        outcome(Ok::<T, DeployError>(value)) == Ok::<T::V, DeployError<Seq<char>>>(value@),
        outcome(Err::<T, DeployError>(error)) == Err::<T::V, DeployError<Seq<char>>>(error@),
{
}

/// The errors that tell of something name it in full, and in their own words.
pub proof fn law_errors_name_what_they_are_about(
    a: Seq<char>,
    b: Seq<char>,
    c: Seq<char>,
    app_id: u128,
)
    ensures
        error_text(DeployError::NoComponents) == "No components in spin.toml!"@,
        error_text(DeployError::RedisTrigger) == "Redis triggers are not supported"@,
        error_text(DeployError::ExternalTrigger) == "External triggers are not supported"@,
        error_text(DeployError::NoConfigDir) == "Cannot find configuration directory"@,
        error_text(DeployError::InvalidBuildInfo) == "Could not compute build info"@,
        error_text(DeployError::InvalidUrl { cause: a }) == a,
        error_text(DeployError::AppTooLarge { reason: a }) == a,
        error_text(DeployError::NoSuchApp { name: a }) == "No app with name: "@ + a,
        error_text(DeployError::LoginUnreadable { cause: a }) == "Could not log in: "@ + a,
        error_text(DeployError::BindleExists { reason: a }) == "Failed to push bindle to server.\n"@
            + a + "\nTry using the --deploy-existing-bindle flag"@,
        error_text(DeployError::InvalidStore { store: a, component: b }) == "Invalid store "@
            + debug_form(a) + " for component "@ + debug_form(b)
            + ". Cloud currently supports only the 'default' store."@,
        error_text(DeployError::InvalidBaseUrl { domain: a, cloud_url: b, cause: c })
            == "Could not construct app base URL for "@ + debug_form(a) + " (Cloud URL: "@ + b
            + ")"@,
        error_text(DeployError::InvalidExpiration { expiration: a, cause: b })
            == "Failed to parse token expiration time '"@ + a + "'. Error: "@ + b,
        error_text(DeployError::NoSuchRevision { version: a, app_id })
            == "No revision with version "@ + a + " and app id "@ + hyphenated(app_id),
        error_text(DeployError::NoSuchChannel { app_id, name: a }) == "No channel with app_id "@
            + hyphenated(app_id) + " and name "@ + a,
{
}

} // verus!

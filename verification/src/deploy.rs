//! A deployment: from an application's manifest to the application at work.
//!
//! The deployment decides; its driver reads files, uploads and sends requests.
//! Each step takes what happened and gives what to do next.

use std::path::PathBuf;
use vstd::prelude::*;
use vstd::string::*;

use crate::buildinfo::{choose_buildinfo, chosen_info, is_drawn, random_buildinfo, BuildInfo};
use crate::catalog::{
    app_outcome, channel_search, get_app_id_cloud, get_channel_id_cloud, get_revision_id_cloud,
    revision_search, AppItem, ChannelItem, Page, RevisionItem, Search,
};
use crate::error::{outcome, DeployError, Failure};
use crate::login::{config_file_path, config_segments, ConfigPath, LoginConnection};
use crate::manifest::{
    check_trigger, cloud_verdict, trigger_outcome, validate_cloud_app, AppManifest,
    ApplicationTrigger, SPIN_DEFAULT_KV_STORE,
};
use crate::outside::{before_colon, hyphenated, parsed_url, uuid_text};
use crate::readiness::{
    checked_wait_for_ready, is_checked_wait_for, Destination, ReadinessWait, WaitStep,
};
use crate::routes::{available_routes, route_lines};
use crate::upload::{
    judge_push, push_verdict, staging_dir, upload_notice, upload_notice_text, BindleId,
    PushOutcome,
};
use crate::web_url::{app_base_outcome, app_base_spelled, build_app_base_url, url_outcome, Url};

verus! {

/// The channel through which applications are deployed.
pub const SPIN_DEPLOY_CHANNEL_NAME: &'static str = "spin-deploy";

/// The bindle server of a login that names none.
pub const DEFAULT_BINDLE_URL: &'static str = "http://127.0.0.1:8080/v1";

/// The order to package an application and to upload it to the platform.
#[derive(Debug)]
pub struct DeployCommand {
    /// The application to deploy: a manifest file, or a directory that has one.
    pub app_source: PathBuf,
    /// Where to assemble the bindle, if not in a temporary directory.
    pub staging_dir: Option<PathBuf>,
    /// Whether to leave out build information.
    pub no_buildinfo: bool,
    /// The build information to append to the version.
    pub buildinfo: Option<BuildInfo>,
    /// Whether to deploy a bindle that the server has already.
    pub redeploy: bool,
    /// How many seconds to wait for the application to become ready.
    pub readiness_timeout_secs: u16,
    /// The name of the environment to deploy to, if not the unnamed one.
    pub deployment_env_id: Option<String>,
    /// The pairs to set in the application's default store.
    pub key_values: Vec<(String, String)>,
    /// The variables to set in the application.
    pub variables: Vec<(String, String)>,
}

/// How the platform finds the active revision of a channel.
#[derive(Debug, Clone, Copy, PartialEq, Eq, Structural)]
pub enum ChannelRevisionSelectionStrategy {
    UseRangeRule,
    UseSpecifiedRevision,
}

/// How to reach the platform.
#[derive(Debug, PartialEq, Eq)]
pub struct ConnectionInfo<S = String> {
    pub url: S,
    pub danger_accept_invalid_certs: bool,
    pub api_key: Option<S>,
}

impl View for ConnectionInfo {
    type V = ConnectionInfo<Seq<char>>;

    open spec fn view(&self) -> ConnectionInfo<Seq<char>> {
        ConnectionInfo {
            url: self.url@,
            danger_accept_invalid_certs: self.danger_accept_invalid_certs,
            api_key: self.api_key.deep_view(),
        }
    }
}

/// How to reach the bindle server.
#[derive(Debug, PartialEq, Eq)]
pub struct BindleConnectionInfo<S = String> {
    pub base_url: S,
    pub allow_insecure: bool,
    pub username: Option<S>,
    pub password: Option<S>,
}

impl View for BindleConnectionInfo {
    type V = BindleConnectionInfo<Seq<char>>;

    open spec fn view(&self) -> BindleConnectionInfo<Seq<char>> {
        BindleConnectionInfo {
            base_url: self.base_url@,
            allow_insecure: self.allow_insecure,
            username: self.username.deep_view(),
            password: self.password.deep_view(),
        }
    }
}

/// An application with the bindle that it is packaged in.
#[derive(Debug)]
pub struct Release {
    pub manifest: AppManifest,
    pub id: BindleId,
}

/// What a deployment is waiting for.
#[derive(Debug)]
#[allow(inconsistent_fields)]
pub enum DeployStage {
    /// The manifest.
    LoadingManifest,
    /// The packaged application.
    Preparing { manifest: AppManifest },
    /// The end of the upload.
    Pushing { release: Release },
    /// The applications of the platform.
    ListingApps { release: Release },
    /// The new revision of an application that the platform has.
    AddingRevision { release: Release, app_id: u128 },
    /// The channels of the platform.
    ListingChannels { release: Release, app_id: u128 },
    /// The new application.
    AddingApp { release: Release },
    /// The revisions of the platform. An application that the platform had has a
    /// channel already.
    ListingRevisions { release: Release, app_id: u128, channel_id: Option<u128> },
    /// The change of the channel.
    PatchingChannel { release: Release, app_id: u128, channel_id: u128 },
    /// The new channel.
    AddingChannel { release: Release, app_id: u128 },
    /// The key/value pair at that position of the command in the application's
    /// store.
    SettingKeyValue { release: Release, app_id: u128, channel_id: u128, index: usize },
    /// The variable at that position of the command in the application.
    SettingVariable { release: Release, app_id: u128, channel_id: u128, index: usize },
    /// The channel with its domain.
    GettingChannel { release: Release },
    /// Nothing any more.
    Ended,
}

/// A deployment under way.
#[derive(Debug)]
pub struct Deployment {
    pub command: DeployCommand,
    pub login: LoginConnection,
    pub stage: DeployStage,
}

/// The bindle of a deployment, once it has been packaged.
pub open spec fn bindle_of(stage: DeployStage) -> Option<BindleId> {
    match stage {
        DeployStage::Pushing { release } => Some(release.id),
        DeployStage::ListingApps { release } => Some(release.id),
        DeployStage::AddingRevision { release, .. } => Some(release.id),
        DeployStage::ListingChannels { release, .. } => Some(release.id),
        DeployStage::AddingApp { release } => Some(release.id),
        DeployStage::ListingRevisions { release, .. } => Some(release.id),
        DeployStage::PatchingChannel { release, .. } => Some(release.id),
        DeployStage::AddingChannel { release, .. } => Some(release.id),
        DeployStage::SettingKeyValue { release, .. } => Some(release.id),
        DeployStage::SettingVariable { release, .. } => Some(release.id),
        DeployStage::GettingChannel { release } => Some(release.id),
        _ => None,
    }
}

/// What happened.
#[derive(Debug)]
#[allow(inconsistent_fields)]
pub enum DeployEvent {
    /// The manifest was loaded. The fallback is the build information to use
    /// where none is given.
    Manifest { manifest: AppManifest, fallback: BuildInfo },
    /// The application was packaged.
    Prepared { id: BindleId },
    /// The upload ended.
    Push { outcome: PushOutcome },
    /// The platform listed its applications.
    Apps { items: Vec<AppItem> },
    /// The platform listed channels.
    Channels { page: Page<ChannelItem> },
    /// The platform listed revisions.
    Revisions { page: Page<RevisionItem> },
    /// The platform made an application.
    AppAdded { app_id: u128 },
    /// The platform made a channel.
    ChannelAdded { channel_id: u128 },
    /// The platform showed a channel.
    Channel { domain: String },
    /// What was to be done was done.
    Completed,
    /// What was to be done failed.
    Failed,
}

/// What to do next. `S`, `L` and `U` are a text, a list of texts and a URL; in
/// contracts each is a view.
#[derive(Debug)]
pub enum DeployAction<S = String, L = Vec<String>, U = Url> {
    /// Connect to the platform and load the manifest.
    LoadManifest { connection: ConnectionInfo<S> },
    /// Package the application with that build information, for that server.
    Prepare { buildinfo: Option<S>, server: BindleConnectionInfo<S> },
    /// Print a line and upload the bindle.
    Push { notice: S },
    /// Print a line and ask for the applications.
    ListApps { notice: S },
    /// Register a revision of the application that is stored under that id.
    AddRevision { storage_id: S, version: S },
    /// Ask for the channels.
    ListChannels,
    /// Make an application.
    AddApp { name: S, storage_id: S },
    /// Ask for the revisions.
    ListRevisions,
    /// Let a channel use a revision, and change nothing else of it.
    PatchChannel {
        channel_id: u128,
        strategy: ChannelRevisionSelectionStrategy,
        revision_id: u128,
    },
    /// Make a channel that uses a revision.
    AddChannel {
        app_id: u128,
        name: S,
        strategy: ChannelRevisionSelectionStrategy,
        revision_id: u128,
    },
    /// Set a key to a value in a store of an application, whatever its value was.
    SetKeyValue { app_id: u128, store: S, key: S, value: S },
    /// Set a variable of an application to a value, whatever its value was.
    SetVariable { app_id: u128, name: S, value: S },
    /// Ask for the channel of that id.
    GetChannel { id: S },
    /// Wait until the application at that URL is ready in that version, then print
    /// the routes. This is the end.
    AwaitReadiness {
        base_url: U,
        version: S,
        timeout_secs: u16,
        dashboard: S,
        routes: L,
    },
    /// Print a line. This is the end.
    Announce { line: S },
    /// End with an error.
    Fail(Failure<S>),
}

/// What to do next, as contracts state it.
pub type DeployActionView = DeployAction<Seq<char>, Seq<Seq<char>>, (Seq<char>, Seq<char>)>;

impl View for DeployAction {
    type V = DeployActionView;

    open spec fn view(&self) -> DeployActionView {
        match *self {
            DeployAction::LoadManifest { connection } => DeployAction::LoadManifest {
                connection: connection@,
            },
            DeployAction::Prepare { buildinfo, server } => DeployAction::Prepare {
                buildinfo: buildinfo.deep_view(),
                server: server@,
            },
            DeployAction::Push { notice } => DeployAction::Push { notice: notice@ },
            DeployAction::ListApps { notice } => DeployAction::ListApps { notice: notice@ },
            DeployAction::AddRevision { storage_id, version } => DeployAction::AddRevision {
                storage_id: storage_id@,
                version: version@,
            },
            DeployAction::ListChannels => DeployAction::ListChannels,
            DeployAction::AddApp { name, storage_id } => DeployAction::AddApp {
                name: name@,
                storage_id: storage_id@,
            },
            DeployAction::ListRevisions => DeployAction::ListRevisions,
            DeployAction::PatchChannel { channel_id, strategy, revision_id } => {
                DeployAction::PatchChannel { channel_id, strategy, revision_id }
            },
            DeployAction::AddChannel { app_id, name, strategy, revision_id } => {
                DeployAction::AddChannel { app_id, name: name@, strategy, revision_id }
            },
            DeployAction::SetKeyValue { app_id, store, key, value } => {
                DeployAction::SetKeyValue { app_id, store: store@, key: key@, value: value@ }
            },
            DeployAction::SetVariable { app_id, name, value } => DeployAction::SetVariable {
                app_id,
                name: name@,
                value: value@,
            },
            DeployAction::GetChannel { id } => DeployAction::GetChannel { id: id@ },
            DeployAction::AwaitReadiness { base_url, version, timeout_secs, dashboard, routes } => {
                DeployAction::AwaitReadiness {
                    base_url: base_url@,
                    version: version@,
                    timeout_secs,
                    dashboard: dashboard@,
                    routes: routes.deep_view(),
                }
            },
            DeployAction::Announce { line } => DeployAction::Announce { line: line@ },
            DeployAction::Fail(failure) => DeployAction::Fail(failure@),
        }
    }
}

impl DeployAction {
    /// The wait that is asked for. Nothing but `AwaitReadiness` asks for one.
    pub fn begin_wait(&self, well_known_prefix: &str) -> (wait: Result<
        Option<(ReadinessWait, WaitStep)>,
        DeployError,
    >)
        ensures
            match *self {
                DeployAction::AwaitReadiness {
                    base_url,
                    version,
                    timeout_secs,
                    dashboard,
                    ..
                } => is_checked_wait_for(
                    wait,
                    base_url@.0,
                    well_known_prefix@,
                    version@,
                    timeout_secs,
                    Destination::Cloud(dashboard),
                ),
                _ => wait == Ok::<Option<(ReadinessWait, WaitStep)>, DeployError>(None),
            },
    {
        match self {
            DeployAction::AwaitReadiness { base_url, version, timeout_secs, dashboard, .. } => {
                checked_wait_for_ready(
                    base_url,
                    well_known_prefix,
                    version.as_str(),
                    *timeout_secs,
                    Destination::Cloud(dashboard.clone()),
                )
            },
            _ => Ok(None),
        }
    }
}

/// The end of a deployment with an error of the rules.
pub open spec fn own_failure(error: DeployError<Seq<char>>) -> DeployActionView {
    DeployAction::Fail(Failure::Own(error))
}

/// The text of the bindle server's URL: that of the login, or else the default.
pub open spec fn bindle_url_text(login: LoginConnection) -> Seq<char> {
    match login.bindle_url {
        Some(url) => url@,
        None => DEFAULT_BINDLE_URL@,
    }
}

/// How to reach the bindle server of a login, given what its URL was read as.
pub open spec fn bindle_server_read(
    login: LoginConnection,
    bindle_url: Result<(Seq<char>, Seq<char>), DeployError<Seq<char>>>,
) -> Result<BindleConnectionInfo<Seq<char>>, DeployError<Seq<char>>> {
    match bindle_url {
        Err(error) => Err(error),
        Ok(url) => Ok(
            BindleConnectionInfo {
                base_url: url.0,
                allow_insecure: login.danger_accept_invalid_certs,
                username: login.bindle_username.deep_view(),
                password: login.bindle_password.deep_view(),
            },
        ),
    }
}

/// How to reach the bindle server of a login.
pub open spec fn bindle_server_outcome(login: LoginConnection) -> Result<
    BindleConnectionInfo<Seq<char>>,
    DeployError<Seq<char>>,
> {
    bindle_server_read(login, url_outcome(parsed_url(bindle_url_text(login))))
}

/// How to reach the bindle server of a login, from what its URL was read as.
pub fn read_bindle_server(login: &LoginConnection, bindle_url: Result<Url, DeployError>) -> (server:
    Result<BindleConnectionInfo, DeployError>)
    ensures
        outcome(server) == bindle_server_read(*login, outcome(bindle_url)),
{
    match bindle_url {
        Err(error) => Err(error),
        Ok(url) => Ok(
            BindleConnectionInfo {
                base_url: url.as_str().to_owned(),
                allow_insecure: login.danger_accept_invalid_certs,
                username: login.bindle_username.clone(),
                password: login.bindle_password.clone(),
            },
        ),
    }
}

/// The order to package an application, given how to reach the bindle server. The
/// application has to be one that the platform takes.
pub open spec fn prepare_outcome(
    command: DeployCommand,
    manifest: AppManifest,
    fallback: BuildInfo,
    server: Result<BindleConnectionInfo<Seq<char>>, DeployError<Seq<char>>>,
) -> Result<DeployActionView, DeployError<Seq<char>>> {
    match cloud_verdict(manifest.components@) {
        Err(error) => Err(error),
        Ok(()) => match trigger_outcome(manifest.trigger) {
            Err(error) => Err(error),
            Ok(()) => match server {
                Err(error) => Err(error),
                Ok(server) => Ok(
                    DeployAction::Prepare {
                        buildinfo: chosen_info(command.no_buildinfo, command.buildinfo, fallback),
                        server,
                    },
                ),
            },
        },
    }
}

/// The order to package an application, given how to reach the bindle server.
pub fn prepare(
    command: &DeployCommand,
    manifest: &AppManifest,
    fallback: BuildInfo,
    server: Result<BindleConnectionInfo, DeployError>,
) -> (order: Result<DeployAction, DeployError>)
    ensures
        outcome(order) == prepare_outcome(*command, *manifest, fallback, outcome(server)),
{
    if let Err(error) = validate_cloud_app(manifest) {
        return Err(error);
    }
    if let Err(error) = check_trigger(manifest.trigger) {
        return Err(error);
    }
    match server {
        Err(error) => Err(error),
        Ok(server) => Ok(
            DeployAction::Prepare {
                buildinfo: choose_buildinfo(command.no_buildinfo, &command.buildinfo, fallback),
                server,
            },
        ),
    }
}

/// The end of a deployment, given the base URL of the application, at the domain
/// of its channel.
pub open spec fn closing(
    command: DeployCommand,
    login: LoginConnection,
    release: Release,
    domain: Seq<char>,
    base_url: Result<(Seq<char>, Seq<char>), DeployError<Seq<char>>>,
) -> DeployActionView {
    match base_url {
        Err(error) => own_failure(error),
        Ok(url) => match release.manifest.trigger {
            ApplicationTrigger::Http => DeployAction::AwaitReadiness {
                base_url: url,
                version: release.id.version@,
                timeout_secs: command.readiness_timeout_secs,
                dashboard: login.url@.0,
                routes: route_lines(url.0, release.manifest.components@),
            },
            _ => DeployAction::Announce { line: "Application is running at "@ + domain },
        },
    }
}

/// The end of a deployment, given the base URL of the application.
pub fn close(
    command: &DeployCommand,
    login: &LoginConnection,
    release: &Release,
    domain: &str,
    base_url: Result<Url, DeployError>,
) -> (action: DeployAction)
    ensures
        action@ == closing(*command, *login, *release, domain@, outcome(base_url)),
{
    match base_url {
        Err(error) => DeployAction::Fail(Failure::Own(error)),
        Ok(url) => match release.manifest.trigger {
            ApplicationTrigger::Http => {
                let routes = available_routes(&url, &release.manifest.components);
                DeployAction::AwaitReadiness {
                    base_url: url,
                    version: release.id.version.clone(),
                    timeout_secs: command.readiness_timeout_secs,
                    dashboard: login.url.as_str().to_owned(),
                    routes,
                }
            },
            _ => DeployAction::Announce {
                line: "Application is running at ".to_owned().concat(domain),
            },
        },
    }
}

/// The variable at a position of a command is set, or, where there is none, the
/// channel is asked for.
pub open spec fn variable_step(
    command: DeployCommand,
    release: Release,
    app_id: u128,
    channel_id: u128,
    index: int,
) -> (DeployStage, DeployActionView) {
    let variables = command.variables@;
    if index < variables.len() {
        (
            DeployStage::SettingVariable { release, app_id, channel_id, index: index as usize },
            DeployAction::SetVariable {
                app_id,
                name: variables[index].0@,
                value: variables[index].1@,
            },
        )
    } else {
        (
            DeployStage::GettingChannel { release },
            DeployAction::GetChannel { id: hyphenated(channel_id) },
        )
    }
}

/// The key/value pair at a position of a command is set in the default store,
/// or, where there is none, the first variable is set.
pub open spec fn key_value_step(
    command: DeployCommand,
    release: Release,
    app_id: u128,
    channel_id: u128,
    index: int,
) -> (DeployStage, DeployActionView) {
    let key_values = command.key_values@;
    if index < key_values.len() {
        (
            DeployStage::SettingKeyValue { release, app_id, channel_id, index: index as usize },
            DeployAction::SetKeyValue {
                app_id,
                store: SPIN_DEFAULT_KV_STORE@,
                key: key_values[index].0@,
                value: key_values[index].1@,
            },
        )
    } else {
        variable_step(command, release, app_id, channel_id, 0)
    }
}

/// The end of a deployment with the error that it met, told under a text.
pub open spec fn told(context: Seq<char>) -> DeployActionView {
    DeployAction::Fail(Failure::Told { context })
}

impl Deployment {
    /// Whether a deployment is waiting for what happened.
    pub open spec fn awaits(self, event: DeployEvent) -> bool {
        match self.stage {
            DeployStage::LoadingManifest => event is Manifest || event is Failed,
            DeployStage::Preparing { .. } => event is Prepared || event is Failed,
            DeployStage::Pushing { .. } => event is Push,
            DeployStage::ListingApps { .. } => event is Apps || event is Failed,
            DeployStage::AddingRevision { .. } => event is Completed || event is Failed,
            DeployStage::ListingChannels { .. } => event is Channels || event is Failed,
            DeployStage::AddingApp { .. } => event is AppAdded || event is Failed,
            DeployStage::ListingRevisions { .. } => event is Revisions || event is Failed,
            DeployStage::PatchingChannel { .. } => event is Completed || event is Failed,
            DeployStage::AddingChannel { .. } => event is ChannelAdded || event is Failed,
            DeployStage::SettingKeyValue { .. } => event is Completed || event is Failed,
            DeployStage::SettingVariable { .. } => event is Completed || event is Failed,
            DeployStage::GettingChannel { .. } => event is Channel || event is Failed,
            DeployStage::Ended => false,
        }
    }

    /// What follows the list of applications: a new revision of the application of
    /// the bindle's name, or, where the platform has none of that name or could not
    /// tell, a new application.
    pub open spec fn after_apps(
        release: Release,
        app: Result<u128, DeployError<Seq<char>>>,
    ) -> (DeployStage, DeployActionView) {
        let name = release.id.name@;
        match app {
            Ok(app_id) => (
                DeployStage::AddingRevision { release, app_id },
                DeployAction::AddRevision { storage_id: name, version: release.id.version@ },
            ),
            Err(_) => (
                DeployStage::AddingApp { release },
                DeployAction::AddApp { name, storage_id: name },
            ),
        }
    }

    /// What follows a page of channels.
    pub open spec fn after_channels(
        release: Release,
        app_id: u128,
        search: Search<Seq<char>>,
    ) -> (DeployStage, DeployActionView) {
        match search {
            Search::Found(channel_id) => (
                DeployStage::ListingRevisions { release, app_id, channel_id: Some(channel_id) },
                DeployAction::ListRevisions,
            ),
            Search::Again => (
                DeployStage::ListingChannels { release, app_id },
                DeployAction::ListChannels,
            ),
            Search::Missing(error) => (DeployStage::Ended, own_failure(error)),
        }
    }

    /// What follows a page of revisions: the channel is made to use the revision
    /// that was found.
    pub open spec fn after_revisions(
        release: Release,
        app_id: u128,
        channel_id: Option<u128>,
        search: Search<Seq<char>>,
    ) -> (DeployStage, DeployActionView) {
        let strategy = ChannelRevisionSelectionStrategy::UseSpecifiedRevision;
        match search {
            Search::Found(revision_id) => match channel_id {
                Some(channel_id) => (
                    DeployStage::PatchingChannel { release, app_id, channel_id },
                    DeployAction::PatchChannel { channel_id, strategy, revision_id },
                ),
                None => (
                    DeployStage::AddingChannel { release, app_id },
                    DeployAction::AddChannel {
                        app_id,
                        name: SPIN_DEPLOY_CHANNEL_NAME@,
                        strategy,
                        revision_id,
                    },
                ),
            },
            Search::Again => (
                DeployStage::ListingRevisions { release, app_id, channel_id },
                DeployAction::ListRevisions,
            ),
            Search::Missing(error) => (DeployStage::Ended, own_failure(error)),
        }
    }

    /// Where a deployment stands after what happened, and what to do next. Of
    /// something that the deployment is not waiting for, nothing is meant.
    pub open spec fn next(self, event: DeployEvent) -> (DeployStage, DeployActionView) {
        match (self.stage, event) {
            (DeployStage::LoadingManifest, DeployEvent::Manifest { manifest, fallback }) => {
                match prepare_outcome(
                    self.command,
                    manifest,
                    fallback,
                    bindle_server_outcome(self.login),
                ) {
                    Ok(order) => (DeployStage::Preparing { manifest }, order),
                    Err(error) => (DeployStage::Ended, own_failure(error)),
                }
            },
            (DeployStage::Preparing { manifest }, DeployEvent::Prepared { id }) => (
                DeployStage::Pushing { release: Release { manifest, id } },
                DeployAction::Push { notice: upload_notice_text(id@) },
            ),
            (DeployStage::Pushing { release }, DeployEvent::Push { outcome }) => {
                match push_verdict(self.command.redeploy, outcome) {
                    Ok(()) => (
                        DeployStage::ListingApps { release },
                        DeployAction::ListApps { notice: "Deploying..."@ },
                    ),
                    Err(failure) => (DeployStage::Ended, DeployAction::Fail(failure)),
                }
            },
            (DeployStage::ListingApps { release }, DeployEvent::Apps { items }) => {
                Self::after_apps(release, app_outcome(items@, release.id.name@))
            },
            (DeployStage::ListingApps { release }, DeployEvent::Failed) => (
                DeployStage::AddingApp { release },
                DeployAction::AddApp { name: release.id.name@, storage_id: release.id.name@ },
            ),
            (DeployStage::AddingRevision { release, app_id }, DeployEvent::Completed) => (
                DeployStage::ListingChannels { release, app_id },
                DeployAction::ListChannels,
            ),
            (DeployStage::ListingChannels { release, app_id }, DeployEvent::Channels { page }) => {
                Self::after_channels(
                    release,
                    app_id,
                    channel_search(page, SPIN_DEPLOY_CHANNEL_NAME@, app_id),
                )
            },
            (DeployStage::AddingApp { release }, DeployEvent::AppAdded { app_id }) => (
                DeployStage::ListingRevisions { release, app_id, channel_id: None },
                DeployAction::ListRevisions,
            ),
            (DeployStage::AddingApp { .. }, DeployEvent::Failed) => (
                DeployStage::Ended,
                told("Unable to create app"@),
            ),
            (
                DeployStage::ListingRevisions { release, app_id, channel_id },
                DeployEvent::Revisions { page },
            ) => Self::after_revisions(
                release,
                app_id,
                channel_id,
                revision_search(page, release.id.version@, app_id),
            ),
            (
                DeployStage::PatchingChannel { release, app_id, channel_id },
                DeployEvent::Completed,
            ) => key_value_step(self.command, release, app_id, channel_id, 0),
            (DeployStage::PatchingChannel { .. }, DeployEvent::Failed) => (
                DeployStage::Ended,
                told("Problem patching a channel"@),
            ),
            (
                DeployStage::AddingChannel { release, app_id },
                DeployEvent::ChannelAdded { channel_id },
            ) => key_value_step(self.command, release, app_id, channel_id, 0),
            (DeployStage::AddingChannel { .. }, DeployEvent::Failed) => (
                DeployStage::Ended,
                told("Problem creating a channel"@),
            ),
            (
                DeployStage::SettingKeyValue { release, app_id, channel_id, index },
                DeployEvent::Completed,
            ) => key_value_step(self.command, release, app_id, channel_id, index + 1),
            (
                DeployStage::SettingVariable { release, app_id, channel_id, index },
                DeployEvent::Completed,
            ) => variable_step(self.command, release, app_id, channel_id, index + 1),
            (DeployStage::GettingChannel { release }, DeployEvent::Channel { domain }) => (
                DeployStage::Ended,
                closing(
                    self.command,
                    self.login,
                    release,
                    domain@,
                    app_base_outcome(
                        domain@,
                        self.login.url@,
                        url_outcome(
                            parsed_url(
                                app_base_spelled(before_colon(self.login.url@.0), domain@),
                            ),
                        ),
                    ),
                ),
            ),
            (DeployStage::GettingChannel { .. }, DeployEvent::Failed) => (
                DeployStage::Ended,
                told("Problem getting channel by id"@),
            ),
            _ => (DeployStage::Ended, DeployAction::Fail(Failure::Passed)),
        }
    }

    /// The deployment after what happened.
    pub open spec fn after(self, event: DeployEvent) -> Deployment {
        Deployment { stage: self.next(event).0, ..self }
    }

    /// Whether the deployment is waiting for what happened.
    pub fn is_waiting_for(&self, event: &DeployEvent) -> (waiting: bool)
        ensures
            waiting == self.awaits(*event),
    {
        match (&self.stage, event) {
            (DeployStage::Pushing { .. }, DeployEvent::Failed) => false,
            (DeployStage::Ended, DeployEvent::Failed) => false,
            (_, DeployEvent::Failed) => true,
            (DeployStage::LoadingManifest, DeployEvent::Manifest { .. }) => true,
            (DeployStage::Preparing { .. }, DeployEvent::Prepared { .. }) => true,
            (DeployStage::Pushing { .. }, DeployEvent::Push { .. }) => true,
            (DeployStage::ListingApps { .. }, DeployEvent::Apps { .. }) => true,
            (DeployStage::AddingRevision { .. }, DeployEvent::Completed) => true,
            (DeployStage::ListingChannels { .. }, DeployEvent::Channels { .. }) => true,
            (DeployStage::AddingApp { .. }, DeployEvent::AppAdded { .. }) => true,
            (DeployStage::ListingRevisions { .. }, DeployEvent::Revisions { .. }) => true,
            (DeployStage::PatchingChannel { .. }, DeployEvent::Completed) => true,
            (DeployStage::AddingChannel { .. }, DeployEvent::ChannelAdded { .. }) => true,
            (DeployStage::SettingKeyValue { .. }, DeployEvent::Completed) => true,
            (DeployStage::SettingVariable { .. }, DeployEvent::Completed) => true,
            (DeployStage::GettingChannel { .. }, DeployEvent::Channel { .. }) => true,
            _ => false,
        }
    }

    /// The bindle of the deployment, once it has been packaged: the one to upload
    /// when the deployment asks for that.
    pub fn bindle(&self) -> (id: Option<&BindleId>)
        ensures
            id == match bindle_of(self.stage) {
                Some(id) => Some(&id),
                None => None,
            },
    {
        match &self.stage {
            DeployStage::Pushing { release } => Some(&release.id),
            DeployStage::ListingApps { release } => Some(&release.id),
            DeployStage::AddingRevision { release, .. } => Some(&release.id),
            DeployStage::ListingChannels { release, .. } => Some(&release.id),
            DeployStage::AddingApp { release } => Some(&release.id),
            DeployStage::ListingRevisions { release, .. } => Some(&release.id),
            DeployStage::PatchingChannel { release, .. } => Some(&release.id),
            DeployStage::AddingChannel { release, .. } => Some(&release.id),
            DeployStage::SettingKeyValue { release, .. } => Some(&release.id),
            DeployStage::SettingVariable { release, .. } => Some(&release.id),
            DeployStage::GettingChannel { release } => Some(&release.id),
            _ => None,
        }
    }

    /// How to reach the server that the deployment uploads its bindle to.
    pub fn bindle_server(&self) -> (server: Result<BindleConnectionInfo, DeployError>)
        ensures
            outcome(server) == bindle_server_outcome(self.login),
    {
        bindle_server(&self.login)
    }

    /// Goes on after what happened: the deployment from there on, and what to do
    /// next.
    pub fn step(self, event: DeployEvent) -> (result: (Deployment, DeployAction))
        requires
            self.awaits(event),
        ensures
            result.0 == self.after(event),
            result.1@ == self.next(event).1,
    {
        let Deployment { command, login, stage } = self;
        let (stage, action) = match (stage, event) {
            (DeployStage::LoadingManifest, DeployEvent::Manifest { manifest, fallback }) => {
                match prepare(&command, &manifest, fallback, bindle_server(&login)) {
                    Ok(order) => (DeployStage::Preparing { manifest }, order),
                    Err(error) => (DeployStage::Ended, DeployAction::Fail(Failure::Own(error))),
                }
            },
            (DeployStage::Preparing { manifest }, DeployEvent::Prepared { id }) => {
                let notice = upload_notice(&id);
                (
                    DeployStage::Pushing { release: Release { manifest, id } },
                    DeployAction::Push { notice },
                )
            },
            (DeployStage::Pushing { release }, DeployEvent::Push { outcome }) => {
                match judge_push(command.redeploy, outcome) {
                    Ok(()) => (
                        DeployStage::ListingApps { release },
                        DeployAction::ListApps { notice: "Deploying...".to_owned() },
                    ),
                    Err(failure) => (DeployStage::Ended, DeployAction::Fail(failure)),
                }
            },
            (DeployStage::ListingApps { release }, DeployEvent::Apps { items }) => {
                match get_app_id_cloud(&items, release.id.name.as_str()) {
                    Ok(app_id) => {
                        let storage_id = release.id.name.clone();
                        let version = release.id.version.clone();
                        (
                            DeployStage::AddingRevision { release, app_id },
                            DeployAction::AddRevision { storage_id, version },
                        )
                    },
                    Err(_) => add_app(release),
                }
            },
            (DeployStage::ListingApps { release }, DeployEvent::Failed) => add_app(release),
            (DeployStage::AddingRevision { release, app_id }, DeployEvent::Completed) => (
                DeployStage::ListingChannels { release, app_id },
                DeployAction::ListChannels,
            ),
            (DeployStage::ListingChannels { release, app_id }, DeployEvent::Channels { page }) => {
                match get_channel_id_cloud(&page, SPIN_DEPLOY_CHANNEL_NAME, app_id) {
                    Search::Found(channel_id) => (
                        DeployStage::ListingRevisions {
                            release,
                            app_id,
                            channel_id: Some(channel_id),
                        },
                        DeployAction::ListRevisions,
                    ),
                    Search::Again => (
                        DeployStage::ListingChannels { release, app_id },
                        DeployAction::ListChannels,
                    ),
                    Search::Missing(error) => (
                        DeployStage::Ended,
                        DeployAction::Fail(Failure::Own(error)),
                    ),
                }
            },
            (DeployStage::AddingApp { release }, DeployEvent::AppAdded { app_id }) => (
                DeployStage::ListingRevisions { release, app_id, channel_id: None },
                DeployAction::ListRevisions,
            ),
            (DeployStage::AddingApp { .. }, DeployEvent::Failed) => fail_under(
                "Unable to create app",
            ),
            (
                DeployStage::ListingRevisions { release, app_id, channel_id },
                DeployEvent::Revisions { page },
            ) => {
                let search = get_revision_id_cloud(&page, release.id.version.as_str(), app_id);
                let strategy = ChannelRevisionSelectionStrategy::UseSpecifiedRevision;
                match search {
                    Search::Found(revision_id) => match channel_id {
                        Some(channel_id) => (
                            DeployStage::PatchingChannel { release, app_id, channel_id },
                            DeployAction::PatchChannel { channel_id, strategy, revision_id },
                        ),
                        None => (
                            DeployStage::AddingChannel { release, app_id },
                            DeployAction::AddChannel {
                                app_id,
                                name: SPIN_DEPLOY_CHANNEL_NAME.to_owned(),
                                strategy,
                                revision_id,
                            },
                        ),
                    },
                    Search::Again => (
                        DeployStage::ListingRevisions { release, app_id, channel_id },
                        DeployAction::ListRevisions,
                    ),
                    Search::Missing(error) => (
                        DeployStage::Ended,
                        DeployAction::Fail(Failure::Own(error)),
                    ),
                }
            },
            (
                DeployStage::PatchingChannel { release, app_id, channel_id },
                DeployEvent::Completed,
            ) => set_first_key_value(&command, release, app_id, channel_id),
            (DeployStage::PatchingChannel { .. }, DeployEvent::Failed) => fail_under(
                "Problem patching a channel",
            ),
            (
                DeployStage::AddingChannel { release, app_id },
                DeployEvent::ChannelAdded { channel_id },
            ) => set_first_key_value(&command, release, app_id, channel_id),
            (DeployStage::AddingChannel { .. }, DeployEvent::Failed) => fail_under(
                "Problem creating a channel",
            ),
            (
                DeployStage::SettingKeyValue { release, app_id, channel_id, index },
                DeployEvent::Completed,
            ) => {
                if command.key_values.len() > 0 && index < command.key_values.len() - 1 {
                    set_key_value(&command, release, app_id, channel_id, index + 1)
                } else {
                    set_first_variable(&command, release, app_id, channel_id)
                }
            },
            (
                DeployStage::SettingVariable { release, app_id, channel_id, index },
                DeployEvent::Completed,
            ) => {
                if command.variables.len() > 0 && index < command.variables.len() - 1 {
                    set_variable(&command, release, app_id, channel_id, index + 1)
                } else {
                    get_channel(release, channel_id)
                }
            },
            (DeployStage::GettingChannel { release }, DeployEvent::Channel { domain }) => {
                let base_url = build_app_base_url(domain.as_str(), &login.url);
                let action = close(&command, &login, &release, domain.as_str(), base_url);
                (DeployStage::Ended, action)
            },
            (DeployStage::GettingChannel { .. }, DeployEvent::Failed) => fail_under(
                "Problem getting channel by id",
            ),
            _ => (DeployStage::Ended, DeployAction::Fail(Failure::Passed)),
        };
        (Deployment { command, login, stage }, action)
    }

    /// Goes on with the manifest of the application. Build information that is
    /// neither given nor left out is drawn at random.
    pub fn load(self, manifest: AppManifest) -> (result: (Deployment, DeployAction))
        requires
            self.stage is LoadingManifest,
        ensures
            exists|fallback: BuildInfo|
                is_drawn(#[trigger] fallback@) && result.0 == self.after(
                    DeployEvent::Manifest { manifest, fallback },
                ) && result.1@ == self.next(DeployEvent::Manifest { manifest, fallback }).1,
            self.command.no_buildinfo || self.command.buildinfo is Some ==> forall|
                fallback: BuildInfo,
            |
                result.0 == #[trigger] self.after(DeployEvent::Manifest { manifest, fallback })
                    && result.1@ == self.next(DeployEvent::Manifest { manifest, fallback }).1,
    {
        let fallback = random_buildinfo();
        assert(is_drawn(fallback@));
        self.step(DeployEvent::Manifest { manifest, fallback })
    }
}

/// How to reach the bindle server of a login.
fn bindle_server(login: &LoginConnection) -> (server: Result<BindleConnectionInfo, DeployError>)
    ensures
        outcome(server) == bindle_server_outcome(*login),
{
    let bindle_url = match &login.bindle_url {
        Some(url) => Url::parse(url.as_str()),
        None => Url::parse(DEFAULT_BINDLE_URL),
    };
    read_bindle_server(login, bindle_url)
}

/// Has the platform make an application of the bindle's name.
fn add_app(release: Release) -> (next: (DeployStage, DeployAction))
    ensures
        next.0 == (DeployStage::AddingApp { release }),
        next.1@ == (DeployActionView::AddApp {
            name: release.id.name@,
            storage_id: release.id.name@,
        }),
{
    let name = release.id.name.clone();
    let storage_id = release.id.name.clone();
    (DeployStage::AddingApp { release }, DeployAction::AddApp { name, storage_id })
}

/// Sets a key/value pair of a command in the application's default store.
fn set_key_value(
    command: &DeployCommand,
    release: Release,
    app_id: u128,
    channel_id: u128,
    index: usize,
) -> (next: (DeployStage, DeployAction))
    requires
        index < command.key_values@.len(),
    ensures
        next.0 == (DeployStage::SettingKeyValue { release, app_id, channel_id, index }),
        next.1@ == (DeployActionView::SetKeyValue {
            app_id,
            store: SPIN_DEFAULT_KV_STORE@,
            key: command.key_values@[index as int].0@,
            value: command.key_values@[index as int].1@,
        }),
{
    let pair = &command.key_values[index];
    (
        DeployStage::SettingKeyValue { release, app_id, channel_id, index },
        DeployAction::SetKeyValue {
            app_id,
            store: SPIN_DEFAULT_KV_STORE.to_owned(),
            key: pair.0.clone(),
            value: pair.1.clone(),
        },
    )
}

/// Sets a variable of a command in the application.
fn set_variable(
    command: &DeployCommand,
    release: Release,
    app_id: u128,
    channel_id: u128,
    index: usize,
) -> (next: (DeployStage, DeployAction))
    requires
        index < command.variables@.len(),
    ensures
        next.0 == (DeployStage::SettingVariable { release, app_id, channel_id, index }),
        next.1@ == (DeployActionView::SetVariable {
            app_id,
            name: command.variables@[index as int].0@,
            value: command.variables@[index as int].1@,
        }),
{
    let pair = &command.variables[index];
    (
        DeployStage::SettingVariable { release, app_id, channel_id, index },
        DeployAction::SetVariable { app_id, name: pair.0.clone(), value: pair.1.clone() },
    )
}

/// Asks for a channel.
fn get_channel(release: Release, channel_id: u128) -> (next: (DeployStage, DeployAction))
    ensures
        next.0 == (DeployStage::GettingChannel { release }),
        next.1@ == (DeployActionView::GetChannel { id: hyphenated(channel_id) }),
{
    (
        DeployStage::GettingChannel { release },
        DeployAction::GetChannel { id: uuid_text(channel_id) },
    )
}

/// Sets the first variable of a command, or asks for the channel if there is
/// none.
fn set_first_variable(
    command: &DeployCommand,
    release: Release,
    app_id: u128,
    channel_id: u128,
) -> (next: (DeployStage, DeployAction))
    ensures
        next.0 == variable_step(*command, release, app_id, channel_id, 0).0,
        next.1@ == variable_step(*command, release, app_id, channel_id, 0).1,
{
    if command.variables.len() > 0 {
        set_variable(command, release, app_id, channel_id, 0)
    } else {
        get_channel(release, channel_id)
    }
}

/// Sets the first key/value pair of a command, or the first variable if there
/// is none.
fn set_first_key_value(
    command: &DeployCommand,
    release: Release,
    app_id: u128,
    channel_id: u128,
) -> (next: (DeployStage, DeployAction))
    ensures
        next.0 == key_value_step(*command, release, app_id, channel_id, 0).0,
        next.1@ == key_value_step(*command, release, app_id, channel_id, 0).1,
{
    if command.key_values.len() > 0 {
        set_key_value(command, release, app_id, channel_id, 0)
    } else {
        set_first_variable(command, release, app_id, channel_id)
    }
}

/// Ends a deployment with the error that it met, told under a text.
fn fail_under(context: &str) -> (next: (DeployStage, DeployAction))
    ensures
        next.0 is Ended,
        next.1@ == told(context@),
{
    (
        DeployStage::Ended,
        DeployAction::Fail(Failure::Told { context: context.to_owned() }),
    )
}

/// The first thing to do in a deployment: connect to the platform of the login,
/// with its token, and load the manifest.
pub open spec fn first_order(login: LoginConnection) -> DeployActionView {
    DeployAction::LoadManifest {
        connection: ConnectionInfo {
            url: login.url@.0,
            danger_accept_invalid_certs: login.danger_accept_invalid_certs,
            api_key: Some(login.token@),
        },
    }
}

impl DeployCommand {
    /// The file in which the login to the command's environment is kept. Whether
    /// the user has a configuration directory, and which, is up to the system.
    pub fn config_file(&self) -> (path: Result<ConfigPath<PathBuf>, DeployError>)
        ensures
            match path {
                Ok(path) => path.segments.deep_view() == config_segments(
                    self.deployment_env_id.deep_view(),
                ),
                Err(error) => error@ == DeployError::<Seq<char>>::NoConfigDir,
            },
    {
        match &self.deployment_env_id {
            Some(name) => config_file_path(Some(name.as_str())),
            None => config_file_path(None),
        }
    }

    /// The directory that the bindle is assembled in and uploaded from: the
    /// command's own, or else a temporary one.
    pub fn bindle_dir<'a>(&'a self, temporary: &'a PathBuf) -> (dir: &'a PathBuf)
        ensures
            *dir == match self.staging_dir {
                Some(given) => given,
                None => *temporary,
            },
    {
        match &self.staging_dir {
            Some(given) => staging_dir(Some(given), temporary),
            None => staging_dir(None, temporary),
        }
    }

    /// The deployment of a command that has just begun, with a login.
    pub open spec fn begun_with(self, login: LoginConnection) -> Deployment {
        Deployment { command: self, login, stage: DeployStage::LoadingManifest }
    }

    /// Begins the deployment, once there is a login.
    pub fn deploy(self, login_connection: LoginConnection) -> (begun: (Deployment, DeployAction))
        ensures
            begun.0 == self.begun_with(login_connection),
            begun.1@ == first_order(login_connection),
    {
        let connection = ConnectionInfo {
            url: login_connection.url.as_str().to_owned(),
            danger_accept_invalid_certs: login_connection.danger_accept_invalid_certs,
            api_key: Some(login_connection.token.clone()),
        };
        (
            Deployment {
                command: self,
                login: login_connection,
                stage: DeployStage::LoadingManifest,
            },
            DeployAction::LoadManifest { connection },
        )
    }
}

} // verus!

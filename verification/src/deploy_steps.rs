//! What each step of a deployment comes to.

use vstd::prelude::*;

use crate::buildinfo::BuildInfo;
use crate::catalog::{
    law_an_unlisted_app_is_missing, law_an_unlisted_channel_is_missing,
    law_an_unlisted_revision_is_missing, law_the_app_of_the_name_is_found,
    law_the_channel_of_the_name_is_found, law_the_revision_of_the_version_is_found, AppItem,
    ChannelItem, Page, RevisionItem,
};
use crate::deploy::{
    bindle_server_outcome, bindle_server_read, first_order, BindleConnectionInfo,
    ChannelRevisionSelectionStrategy, DeployAction, DeployActionView,
    DeployCommand, DeployEvent, DeployStage, Deployment, Release,
};
use crate::deploy_laws::{deploy_after, deploy_runs, is_start};
use crate::error::{DeployError, Failure};
use crate::login::LoginConnection;
use crate::manifest::{
    asks_for_another, cloud_verdict, law_only_http_is_run, law_what_is_taken, AppManifest,
};
use crate::outside::{hyphenated, parsed_url};
use crate::routes::route_lines;
use crate::upload::{push_verdict, BindleId, PushOutcome};
use crate::web_url::law_the_scheme_leads;

verus! {

/// Whether a text of a login is there exactly if another is, and is the same.
pub open spec fn same_secret(held: Option<String>, used: Option<Seq<char>>) -> bool {
    &&& held is Some <==> used is Some
    &&& held matches Some(text) ==> used matches Some(other) && text@ == other
}

/// The server that an application is packaged for and uploaded to has the URL that
/// was read, accepts invalid certificates exactly if the login does, and has the
/// username and the password of the login, each exactly if the login has it.
pub proof fn law_the_server_has_the_secrets_of_the_login(
    login: LoginConnection,
    url: (Seq<char>, Seq<char>),
)
    ensures
        bindle_server_read(login, Ok(url)) matches Ok(server) && {
            &&& server.base_url == url.0
            &&& server.allow_insecure == login.danger_accept_invalid_certs
            &&& same_secret(login.bindle_username, server.username)
            &&& same_secret(login.bindle_password, server.password)
        },
{
}

/// The URL of the server is the one that the login names, or, if it names none,
/// that of a server on this machine. One that cannot be read is an error with its
/// cause.
pub proof fn law_the_server_is_where_the_login_says(login: LoginConnection)
    ensures
        ({
            let read = parsed_url(
                match login.bindle_url {
                    Some(text) => text@,
                    None => "http://127.0.0.1:8080/v1"@,
                },
            );
            &&& read matches Ok(url) ==> bindle_server_outcome(login) matches Ok(server) && {
                &&& server.base_url == url.0
                &&& server.allow_insecure == login.danger_accept_invalid_certs
                &&& same_secret(login.bindle_username, server.username)
                &&& same_secret(login.bindle_password, server.password)
            }
            &&& read matches Err(cause) ==> bindle_server_outcome(login) == Err::<
                BindleConnectionInfo<Seq<char>>,
                DeployError<Seq<char>>,
            >(DeployError::InvalidUrl { cause })
        }),
{
}

/// A deployment begins with its command and its login, and first connects to the
/// login's platform, with its token and its leave to accept invalid certificates.
pub proof fn law_the_platform_is_that_of_the_login(command: DeployCommand, login: LoginConnection)
    ensures
        command.begun_with(login).command == command,
        command.begun_with(login).login == login,
        command.begun_with(login).stage is LoadingManifest,
        first_order(login) matches DeployAction::LoadManifest { connection } && {
            &&& connection.url == login.url@.0
            &&& connection.danger_accept_invalid_certs == login.danger_accept_invalid_certs
            &&& connection.api_key == Some(login.token@)
        },
{
}

/// An application that answers HTTP requests, has a component and asks for no store
/// but `default` is packaged, with the build information of the command, for the
/// server of the login.
pub proof fn law_taken_apps_are_packaged(
    deployment: Deployment,
    manifest: AppManifest,
    fallback: BuildInfo,
)
    requires
        deployment.stage is LoadingManifest,
        manifest.trigger is Http,
        manifest.components@.len() > 0,
        forall|i: int, j: int|
            0 <= i < manifest.components@.len() ==> !#[trigger] asks_for_another(
                manifest.components@,
                i,
                j,
            ),
        bindle_server_outcome(deployment.login) is Ok,
    ensures
        ({
            let command = deployment.command;
            let event = DeployEvent::Manifest { manifest, fallback };
            let (stage, action) = deployment.next(event);
            &&& deployment.awaits(event)
            &&& stage == (DeployStage::Preparing { manifest })
            &&& action matches DeployAction::Prepare { buildinfo, server } && {
                &&& bindle_server_outcome(deployment.login) == Ok::<
                    BindleConnectionInfo<Seq<char>>,
                    DeployError<Seq<char>>,
                >(server)
                &&& command.no_buildinfo ==> buildinfo is None
                &&& !command.no_buildinfo ==> buildinfo == Some(
                    match command.buildinfo {
                        Some(given) => given@,
                        None => fallback@,
                    },
                )
            }
        }),
{
    law_what_is_taken(manifest.components@);
    law_only_http_is_run(manifest.trigger);
}

/// An application without components, one that asks for another store, one with
/// another trigger, and any whose bindle server has no URL: none is packaged, and
/// the deployment ends with the error of that, the first of these that holds.
pub proof fn law_other_apps_are_not_packaged(
    deployment: Deployment,
    manifest: AppManifest,
    fallback: BuildInfo,
    i: int,
    j: int,
)
    requires
        deployment.stage is LoadingManifest,
        !(manifest.trigger is Http) || manifest.components@.len() == 0 || (0 <= i
            < manifest.components@.len() && asks_for_another(manifest.components@, i, j))
            || bindle_server_outcome(deployment.login) is Err,
    ensures
        ({
            let event = DeployEvent::Manifest { manifest, fallback };
            &&& deployment.awaits(event)
            &&& deployment.next(event).0 is Ended
            &&& deployment.next(event).1 == DeployActionView::Fail(
                Failure::Own(
                    match cloud_verdict(manifest.components@) {
                        Err(error) => error,
                        Ok(()) => if manifest.trigger is Redis {
                            DeployError::RedisTrigger
                        } else if manifest.trigger is External {
                            DeployError::ExternalTrigger
                        } else {
                            bindle_server_outcome(deployment.login)->Err_0
                        },
                    },
                ),
            )
        }),
{
    law_what_is_taken(manifest.components@);
    law_only_http_is_run(manifest.trigger);
}

/// A packaged application is uploaded, as the bindle that it was packaged as.
pub proof fn law_packaged_apps_are_uploaded(
    deployment: Deployment,
    manifest: AppManifest,
    id: BindleId,
)
    requires
        deployment.stage == (DeployStage::Preparing { manifest }),
    ensures
        ({
            let event = DeployEvent::Prepared { id };
            let (stage, action) = deployment.next(event);
            &&& deployment.awaits(event)
            &&& stage == (DeployStage::Pushing { release: Release { manifest, id } })
            &&& action == (DeployActionView::Push {
                notice: "Uploading "@ + id.name@ + " version "@ + id.version@ + "..."@,
            })
        }),
{
}

/// A deployment goes on after its upload exactly if the bindle was pushed, or is on
/// the server already and the command allows that.
pub proof fn law_a_deployment_goes_on_after_its_upload(
    deployment: Deployment,
    release: Release,
    outcome: PushOutcome,
)
    requires
        deployment.stage == (DeployStage::Pushing { release }),
    ensures
        ({
            let event = DeployEvent::Push { outcome };
            let (stage, action) = deployment.next(event);
            let will_do = outcome is Pushed || (outcome is AlreadyExists
                && deployment.command.redeploy);
            &&& deployment.awaits(event)
            &&& will_do ==> stage == (DeployStage::ListingApps { release }) && action == (
            DeployActionView::ListApps { notice: "Deploying..."@ })
            &&& !will_do ==> stage is Ended && action is Fail
            &&& !will_do ==> push_verdict(deployment.command.redeploy, outcome) == Err::<
                (),
                Failure<Seq<char>>,
            >(action->Fail_0)
        }),
{
}

/// An application that the platform lists under the bindle's name gets the bindle's
/// version as a revision.
pub proof fn law_listed_apps_get_a_revision(
    deployment: Deployment,
    release: Release,
    items: Vec<AppItem>,
    i: int,
)
    requires
        deployment.stage == (DeployStage::ListingApps { release }),
        0 <= i < items@.len(),
        items@[i].name@ == release.id.name@,
        forall|k: int| 0 <= k < i ==> (#[trigger] items@[k]).name@ != release.id.name@,
    ensures
        ({
            let event = DeployEvent::Apps { items };
            let (stage, action) = deployment.next(event);
            &&& deployment.awaits(event)
            &&& stage == (DeployStage::AddingRevision { release, app_id: items@[i].id })
            &&& action == (DeployActionView::AddRevision {
                storage_id: release.id.name@,
                version: release.id.version@,
            })
        }),
{
    law_the_app_of_the_name_is_found(items@, release.id.name@, i);
}

/// Where the platform lists no application of the bindle's name, or cannot list
/// them, one of that name is made.
pub proof fn law_unlisted_apps_are_made(
    deployment: Deployment,
    release: Release,
    items: Vec<AppItem>,
)
    requires
        deployment.stage == (DeployStage::ListingApps { release }),
        forall|k: int|
            0 <= k < items@.len() ==> (#[trigger] items@[k]).name@ != release.id.name@,
    ensures
        ({
            let order = DeployActionView::AddApp {
                name: release.id.name@,
                storage_id: release.id.name@,
            };
            let listed = DeployEvent::Apps { items };
            let failed = DeployEvent::Failed;
            &&& deployment.awaits(listed) && deployment.awaits(failed)
            &&& deployment.next(listed).0 == (DeployStage::AddingApp { release })
            &&& deployment.next(failed).0 == (DeployStage::AddingApp { release })
            &&& deployment.next(listed).1 == order
            &&& deployment.next(failed).1 == order
        }),
{
    law_an_unlisted_app_is_missing(items@, release.id.name@);
}

/// After the revision of a listed application its channels are searched; after a
/// new application the revisions are, since it has no channel yet.
pub proof fn law_what_is_searched_next(deployment: Deployment, release: Release, app_id: u128)
    ensures
        deployment.stage == (DeployStage::AddingRevision { release, app_id }) ==> {
            let (stage, action) = deployment.next(DeployEvent::Completed);
            &&& deployment.awaits(DeployEvent::Completed)
            &&& stage == (DeployStage::ListingChannels { release, app_id })
            &&& action is ListChannels
        },
        deployment.stage == (DeployStage::AddingApp { release }) ==> {
            let (stage, action) = deployment.next(DeployEvent::AppAdded { app_id });
            &&& deployment.awaits(DeployEvent::AppAdded { app_id })
            &&& stage == (DeployStage::ListingRevisions { release, app_id, channel_id: None })
            &&& action is ListRevisions
        },
{
}

/// The channel `spin-deploy` of the application is the one that is to use the
/// revision.
pub proof fn law_the_deploy_channel_is_found(
    deployment: Deployment,
    release: Release,
    app_id: u128,
    page: Page<ChannelItem>,
    i: int,
)
    requires
        deployment.stage == (DeployStage::ListingChannels { release, app_id }),
        0 <= i < page.items@.len(),
        page.items@[i].name@ == "spin-deploy"@ && page.items@[i].app_id == app_id,
        forall|k: int|
            0 <= k < i ==> (#[trigger] page.items@[k]).name@ != "spin-deploy"@
                || page.items@[k].app_id != app_id,
    ensures
        ({
            let event = DeployEvent::Channels { page };
            let (stage, action) = deployment.next(event);
            &&& deployment.awaits(event)
            &&& stage == (DeployStage::ListingRevisions {
                release,
                app_id,
                channel_id: Some(page.items@[i].id),
            })
            &&& action is ListRevisions
        }),
{
    law_the_channel_of_the_name_is_found(page, "spin-deploy"@, app_id, i);
}

/// A page without that channel is asked for again, or, if it is the last one, ends
/// the deployment.
pub proof fn law_the_deploy_channel_is_missing(
    deployment: Deployment,
    release: Release,
    app_id: u128,
    page: Page<ChannelItem>,
)
    requires
        deployment.stage == (DeployStage::ListingChannels { release, app_id }),
        forall|k: int|
            0 <= k < page.items@.len() ==> (#[trigger] page.items@[k]).name@ != "spin-deploy"@
                || page.items@[k].app_id != app_id,
    ensures
        ({
            let event = DeployEvent::Channels { page };
            let (stage, action) = deployment.next(event);
            &&& deployment.awaits(event)
            &&& !page.is_last_page ==> stage == deployment.stage && action is ListChannels
            &&& page.is_last_page ==> stage is Ended && action == DeployActionView::Fail(
                Failure::Own(DeployError::NoSuchChannel { app_id, name: "spin-deploy"@ }),
            )
        }),
{
    law_an_unlisted_channel_is_missing(page, "spin-deploy"@, app_id);
}

/// The channel of the application, or a new channel `spin-deploy` for one that has
/// none, is made to use the revision of the bindle's version.
pub proof fn law_the_revision_is_used(
    deployment: Deployment,
    release: Release,
    app_id: u128,
    channel_id: Option<u128>,
    page: Page<RevisionItem>,
    i: int,
)
    requires
        deployment.stage == (DeployStage::ListingRevisions { release, app_id, channel_id }),
        0 <= i < page.items@.len(),
        page.items@[i].revision_number@ == release.id.version@ && page.items@[i].app_id == app_id,
        forall|k: int|
            0 <= k < i ==> (#[trigger] page.items@[k]).revision_number@ != release.id.version@
                || page.items@[k].app_id != app_id,
    ensures
        ({
            let event = DeployEvent::Revisions { page };
            let (stage, action) = deployment.next(event);
            let revision_id = page.items@[i].id;
            &&& deployment.awaits(event)
            &&& channel_id matches Some(channel_id) ==> {
                &&& stage == (DeployStage::PatchingChannel { release, app_id, channel_id })
                &&& action == (DeployActionView::PatchChannel {
                    channel_id,
                    strategy: ChannelRevisionSelectionStrategy::UseSpecifiedRevision,
                    revision_id,
                })
            }
            &&& channel_id is None ==> {
                &&& stage == (DeployStage::AddingChannel { release, app_id })
                &&& action == (DeployActionView::AddChannel {
                    app_id,
                    name: "spin-deploy"@,
                    strategy: ChannelRevisionSelectionStrategy::UseSpecifiedRevision,
                    revision_id,
                })
            }
        }),
{
    law_the_revision_of_the_version_is_found(page, release.id.version@, app_id, i);
}

/// A page without that revision is asked for again, or, if it is the last one, ends
/// the deployment.
pub proof fn law_the_revision_is_missing(
    deployment: Deployment,
    release: Release,
    app_id: u128,
    channel_id: Option<u128>,
    page: Page<RevisionItem>,
)
    requires
        deployment.stage == (DeployStage::ListingRevisions { release, app_id, channel_id }),
        forall|k: int|
            0 <= k < page.items@.len() ==> (#[trigger] page.items@[k]).revision_number@
                != release.id.version@ || page.items@[k].app_id != app_id,
    ensures
        ({
            let event = DeployEvent::Revisions { page };
            let (stage, action) = deployment.next(event);
            &&& deployment.awaits(event)
            &&& !page.is_last_page ==> stage == deployment.stage && action is ListRevisions
            &&& page.is_last_page ==> stage is Ended && action == DeployActionView::Fail(
                Failure::Own(
                    DeployError::NoSuchRevision { version: release.id.version@, app_id },
                ),
            )
        }),
{
    law_an_unlisted_revision_is_missing(page, release.id.version@, app_id);
}

/// What happens once a channel uses the revision: whether the deployment was waiting
/// for the change of that channel, or for it to be made.
pub open spec fn channel_is_set(
    deployment: Deployment,
    event: DeployEvent,
    release: Release,
    app_id: u128,
    channel_id: u128,
) -> bool {
    ||| deployment.stage == (DeployStage::PatchingChannel { release, app_id, channel_id })
        && event is Completed
    ||| deployment.stage == (DeployStage::AddingChannel { release, app_id }) && event == (
    DeployEvent::ChannelAdded { channel_id })
}

/// Once the channel uses the revision, the first key/value pair of the command is
/// set, or, if there is none, its first variable, or, if there is none either, that
/// very channel is asked for.
pub proof fn law_after_the_channel_come_the_settings(
    deployment: Deployment,
    event: DeployEvent,
    release: Release,
    app_id: u128,
    channel_id: u128,
)
    requires
        channel_is_set(deployment, event, release, app_id, channel_id),
    ensures
        ({
            let pairs = deployment.command.key_values@;
            let variables = deployment.command.variables@;
            let (stage, action) = deployment.next(event);
            &&& deployment.awaits(event)
            &&& pairs.len() > 0 ==> {
                &&& stage == (DeployStage::SettingKeyValue {
                    release,
                    app_id,
                    channel_id,
                    index: 0,
                })
                &&& action == (DeployActionView::SetKeyValue {
                    app_id,
                    store: "default"@,
                    key: pairs[0].0@,
                    value: pairs[0].1@,
                })
            }
            &&& pairs.len() == 0 && variables.len() > 0 ==> {
                &&& stage == (DeployStage::SettingVariable {
                    release,
                    app_id,
                    channel_id,
                    index: 0,
                })
                &&& action == (DeployActionView::SetVariable {
                    app_id,
                    name: variables[0].0@,
                    value: variables[0].1@,
                })
            }
            &&& pairs.len() == 0 && variables.len() == 0 ==> {
                &&& stage == (DeployStage::GettingChannel { release })
                &&& action == (DeployActionView::GetChannel { id: hyphenated(channel_id) })
            }
        }),
{
}

/// After a key/value pair comes the next one, in the same application and in the
/// store `default`; after the last one the variables, and then the channel.
pub proof fn law_after_a_key_value_pair(
    deployment: Deployment,
    release: Release,
    app_id: u128,
    channel_id: u128,
    index: usize,
)
    requires
        deployment.stage == (DeployStage::SettingKeyValue { release, app_id, channel_id, index }),
    ensures
        ({
            let pairs = deployment.command.key_values@;
            let variables = deployment.command.variables@;
            let (stage, action) = deployment.next(DeployEvent::Completed);
            &&& deployment.awaits(DeployEvent::Completed)
            &&& index + 1 < pairs.len() ==> {
                &&& stage == (DeployStage::SettingKeyValue {
                    release,
                    app_id,
                    channel_id,
                    index: (index + 1) as usize,
                })
                &&& action == (DeployActionView::SetKeyValue {
                    app_id,
                    store: "default"@,
                    key: pairs[index + 1].0@,
                    value: pairs[index + 1].1@,
                })
            }
            &&& index + 1 >= pairs.len() && variables.len() > 0 ==> {
                &&& stage == (DeployStage::SettingVariable {
                    release,
                    app_id,
                    channel_id,
                    index: 0,
                })
                &&& action == (DeployActionView::SetVariable {
                    app_id,
                    name: variables[0].0@,
                    value: variables[0].1@,
                })
            }
            &&& index + 1 >= pairs.len() && variables.len() == 0 ==> {
                &&& stage == (DeployStage::GettingChannel { release })
                &&& action == (DeployActionView::GetChannel { id: hyphenated(channel_id) })
            }
        }),
{
}

/// After a variable comes the next one, in the same application; after the last one
/// the channel is asked for.
pub proof fn law_after_a_variable(
    deployment: Deployment,
    release: Release,
    app_id: u128,
    channel_id: u128,
    index: usize,
)
    requires
        deployment.stage == (DeployStage::SettingVariable { release, app_id, channel_id, index }),
    ensures
        ({
            let variables = deployment.command.variables@;
            let (stage, action) = deployment.next(DeployEvent::Completed);
            &&& deployment.awaits(DeployEvent::Completed)
            &&& index + 1 < variables.len() ==> {
                &&& stage == (DeployStage::SettingVariable {
                    release,
                    app_id,
                    channel_id,
                    index: (index + 1) as usize,
                })
                &&& action == (DeployActionView::SetVariable {
                    app_id,
                    name: variables[index + 1].0@,
                    value: variables[index + 1].1@,
                })
            }
            &&& index + 1 >= variables.len() ==> {
                &&& stage == (DeployStage::GettingChannel { release })
                &&& action == (DeployActionView::GetChannel { id: hyphenated(channel_id) })
            }
        }),
{
}

/// The application is awaited at its domain, under the scheme of the login's
/// platform, in the bindle's version, for the seconds of the command, and its routes
/// there are listed; the dashboard is that of the login's platform.
pub proof fn law_the_app_is_awaited_at_its_domain(
    deployment: Deployment,
    release: Release,
    domain: String,
    scheme: Seq<char>,
    rest: Seq<char>,
    url: (Seq<char>, Seq<char>),
)
    requires
        deployment.stage == (DeployStage::GettingChannel { release }),
        release.manifest.trigger is Http,
        deployment.login.url@.0 == scheme + seq![':'] + rest,
        !scheme.contains(':'),
        parsed_url(scheme + "://"@ + domain@ + "/"@) == Ok::<(Seq<char>, Seq<char>), Seq<char>>(
            url,
        ),
    ensures
        ({
            let event = DeployEvent::Channel { domain };
            let (stage, action) = deployment.next(event);
            &&& deployment.awaits(event)
            &&& stage is Ended
            &&& action == (DeployActionView::AwaitReadiness {
                base_url: url,
                version: release.id.version@,
                timeout_secs: deployment.command.readiness_timeout_secs,
                dashboard: deployment.login.url@.0,
                routes: route_lines(url.0, release.manifest.components@),
            })
        }),
{
    law_the_scheme_leads(scheme, rest);
}

/// A domain that gives no URL ends the deployment, and is told with the platform's
/// URL above the cause.
pub proof fn law_a_bad_domain_is_told(
    deployment: Deployment,
    release: Release,
    domain: String,
    scheme: Seq<char>,
    rest: Seq<char>,
    cause: Seq<char>,
)
    requires
        deployment.stage == (DeployStage::GettingChannel { release }),
        deployment.login.url@.0 == scheme + seq![':'] + rest,
        !scheme.contains(':'),
        parsed_url(scheme + "://"@ + domain@ + "/"@) == Err::<(Seq<char>, Seq<char>), Seq<char>>(
            cause,
        ),
    ensures
        ({
            let event = DeployEvent::Channel { domain };
            let (stage, action) = deployment.next(event);
            &&& deployment.awaits(event)
            &&& stage is Ended
            &&& action == DeployActionView::Fail(
                Failure::Own(
                    DeployError::InvalidBaseUrl {
                        domain: domain@,
                        cloud_url: deployment.login.url@.1,
                        cause,
                    },
                ),
            )
        }),
{
    law_the_scheme_leads(scheme, rest);
}

/// An application of another trigger than HTTP would only be announced.
pub proof fn law_other_triggers_are_announced(
    deployment: Deployment,
    release: Release,
    domain: String,
    scheme: Seq<char>,
    rest: Seq<char>,
)
    requires
        deployment.stage == (DeployStage::GettingChannel { release }),
        !(release.manifest.trigger is Http),
        deployment.login.url@.0 == scheme + seq![':'] + rest,
        !scheme.contains(':'),
        parsed_url(scheme + "://"@ + domain@ + "/"@) is Ok,
    ensures
        deployment.next(DeployEvent::Channel { domain }).1 == (DeployActionView::Announce {
            line: "Application is running at "@ + domain@,
        }),
{
    law_the_scheme_leads(scheme, rest);
}

/// What fails ends the deployment, with the error that was met: told under what was
/// tried where an application is made, a channel changed, made or asked for, and
/// unchanged everywhere else. Only the list of applications may fail without that.
pub proof fn law_failures_end_a_deployment(deployment: Deployment)
    requires
        deployment.awaits(DeployEvent::Failed),
        !(deployment.stage is ListingApps),
    ensures
        deployment.next(DeployEvent::Failed).0 is Ended,
        deployment.next(DeployEvent::Failed).1 == DeployActionView::Fail(
            if deployment.stage is AddingApp {
                Failure::Told { context: "Unable to create app"@ }
            } else if deployment.stage is PatchingChannel {
                Failure::Told { context: "Problem patching a channel"@ }
            } else if deployment.stage is AddingChannel {
                Failure::Told { context: "Problem creating a channel"@ }
            } else if deployment.stage is GettingChannel {
                Failure::Told { context: "Problem getting channel by id"@ }
            } else {
                Failure::Passed
            },
        ),
{
}

/// Everything that a deployment asks for may fail, but for the upload, whose outcome
/// tells of that.
pub proof fn law_anything_may_fail(deployment: Deployment)
    ensures
        deployment.awaits(DeployEvent::Failed) <==> !(deployment.stage is Pushing
            || deployment.stage is Ended),
{
}

/// Each stage waits for what it asked for, and for nothing else but its failure.
pub proof fn law_a_deployment_waits_for_what_it_asked_for(
    deployment: Deployment,
    event: DeployEvent,
)
    requires
        !(event is Failed),
    ensures
        deployment.awaits(event) <==> match event {
            DeployEvent::Manifest { .. } => deployment.stage is LoadingManifest,
            DeployEvent::Prepared { .. } => deployment.stage is Preparing,
            DeployEvent::Push { .. } => deployment.stage is Pushing,
            DeployEvent::Apps { .. } => deployment.stage is ListingApps,
            DeployEvent::Channels { .. } => deployment.stage is ListingChannels,
            DeployEvent::Revisions { .. } => deployment.stage is ListingRevisions,
            DeployEvent::AppAdded { .. } => deployment.stage is AddingApp,
            DeployEvent::ChannelAdded { .. } => deployment.stage is AddingChannel,
            DeployEvent::Channel { .. } => deployment.stage is GettingChannel,
            DeployEvent::Completed => deployment.stage is AddingRevision
                || deployment.stage is PatchingChannel || deployment.stage is SettingKeyValue
                || deployment.stage is SettingVariable,
            DeployEvent::Failed => false,
        },
{
}

/// Whether a channel of that id was made while a deployment went on.
pub open spec fn was_channel_made(events: Seq<DeployEvent>, channel_id: u128) -> bool {
    exists|i: int|
        0 <= i < events.len() && #[trigger] events[i] == (DeployEvent::ChannelAdded { channel_id })
}

/// Whether a deployment asked for the change of a channel of that id, and was told
/// right after that it was made.
pub open spec fn was_channel_changed(
    start: Deployment,
    events: Seq<DeployEvent>,
    channel_id: u128,
) -> bool {
    exists|i: int|
        0 <= i < events.len() - 1 && asked_for_change(start, events, i, channel_id)
            && #[trigger] events[i + 1] is Completed
}

/// Whether what happened at a position made a deployment ask for the change of a
/// channel.
pub open spec fn asked_for_change(
    start: Deployment,
    events: Seq<DeployEvent>,
    i: int,
    channel_id: u128,
) -> bool {
    deploy_after(start, events.take(i)).next(events[i]).1 matches DeployAction::PatchChannel {
        channel_id: id,
        ..
    } && id == channel_id
}

/// Whether a channel uses the revision.
pub open spec fn is_channel_set(
    start: Deployment,
    events: Seq<DeployEvent>,
    channel_id: u128,
) -> bool {
    was_channel_made(events, channel_id) || was_channel_changed(start, events, channel_id)
}

/// What a deployment's stage tells about its channel.
spec fn channel_history(start: Deployment, stage: DeployStage, events: Seq<DeployEvent>) -> bool {
    match stage {
        DeployStage::PatchingChannel { channel_id, .. } => events.len() > 0 && asked_for_change(
            start,
            events,
            events.len() - 1,
            channel_id,
        ),
        DeployStage::SettingKeyValue { channel_id, .. } => is_channel_set(
            start,
            events,
            channel_id,
        ),
        DeployStage::SettingVariable { channel_id, .. } => is_channel_set(
            start,
            events,
            channel_id,
        ),
        _ => true,
    }
}

proof fn lemma_channel_kept(
    start: Deployment,
    before: Seq<DeployEvent>,
    event: DeployEvent,
    channel_id: u128,
)
    ensures
        is_channel_set(start, before, channel_id) ==> is_channel_set(
            start,
            before.push(event),
            channel_id,
        ),
{
    let events = before.push(event);
    if was_channel_made(before, channel_id) {
        let i = choose|i: int|
            0 <= i < before.len() && #[trigger] before[i] == (DeployEvent::ChannelAdded {
                channel_id,
            });
        assert(events[i] == before[i]);
    }
    if was_channel_changed(start, before, channel_id) {
        let i = choose|i: int|
            0 <= i < before.len() - 1 && asked_for_change(start, before, i, channel_id)
                && #[trigger] before[i + 1] is Completed;
        assert(events.take(i) =~= before.take(i));
        assert(events[i + 1] == before[i + 1]);
        assert(asked_for_change(start, events, i, channel_id));
    }
}

/// The channel that is set with what happens, if one is.
proof fn lemma_channel_step(
    start: Deployment,
    deployment: Deployment,
    before: Seq<DeployEvent>,
    event: DeployEvent,
)
    requires
        deployment == deploy_after(start, before),
        deployment.awaits(event),
        channel_history(start, deployment.stage, before),
    ensures
        channel_history(start, deployment.after(event).stage, before.push(event)),
        deployment.next(event).1 matches DeployAction::GetChannel { id } ==> exists|
            channel_id: u128,
        | #[trigger]
            is_channel_set(start, before.push(event), channel_id) && id == hyphenated(channel_id),
{
    let events = before.push(event);
    assert(events.take(before.len() as int) =~= before);
    assert(events[before.len() as int] == event);
    match (deployment.stage, event) {
        (DeployStage::PatchingChannel { release, app_id, channel_id }, DeployEvent::Completed) => {
            let i = before.len() - 1;
            assert(events.take(i) =~= before.take(i));
            assert(events[i] == before[i]);
            assert(asked_for_change(start, events, i, channel_id));
            assert(events[i + 1] is Completed);
            assert(is_channel_set(start, events, channel_id));
            law_after_the_channel_come_the_settings(deployment, event, release, app_id, channel_id);
        },
        (
            DeployStage::AddingChannel { release, app_id },
            DeployEvent::ChannelAdded { channel_id },
        ) => {
            assert(was_channel_made(events, channel_id));
            assert(is_channel_set(start, events, channel_id));
            law_after_the_channel_come_the_settings(deployment, event, release, app_id, channel_id);
        },
        (
            DeployStage::SettingKeyValue { release, app_id, channel_id, index },
            DeployEvent::Completed,
        ) => {
            lemma_channel_kept(start, before, event, channel_id);
            law_after_a_key_value_pair(deployment, release, app_id, channel_id, index);
        },
        (
            DeployStage::SettingVariable { release, app_id, channel_id, index },
            DeployEvent::Completed,
        ) => {
            lemma_channel_kept(start, before, event, channel_id);
            law_after_a_variable(deployment, release, app_id, channel_id, index);
        },
        _ => {},
    }
}

proof fn lemma_channel_history(start: Deployment, events: Seq<DeployEvent>)
    requires
        is_start(start),
        deploy_runs(start, events),
    ensures
        channel_history(start, deploy_after(start, events).stage, events),
    decreases events.len(),
{
    if events.len() > 0 {
        let before = events.drop_last();
        lemma_channel_history(start, before);
        lemma_channel_step(start, deploy_after(start, before), before, events.last());
        assert(before.push(events.last()) =~= events);
    }
}

/// The channel that a deployment asks for is one that was made in it, or whose
/// change it asked for and was told of.
pub proof fn law_the_channel_that_was_set_is_asked_for(
    start: Deployment,
    events: Seq<DeployEvent>,
    event: DeployEvent,
    id: Seq<char>,
)
    requires
        is_start(start),
        deploy_runs(start, events),
        deploy_after(start, events).awaits(event),
        deploy_after(start, events).next(event).1 == (DeployActionView::GetChannel { id }),
    ensures
        exists|channel_id: u128|
            id == hyphenated(channel_id) && (#[trigger] was_channel_made(
                events.push(event),
                channel_id,
            ) || was_channel_changed(start, events.push(event), channel_id)),
{
    lemma_channel_history(start, events);
    lemma_channel_step(start, deploy_after(start, events), events, event);
    let channel_id = choose|channel_id: u128| #[trigger]
        is_channel_set(start, events.push(event), channel_id) && id == hyphenated(channel_id);
    assert(was_channel_made(events.push(event), channel_id) || was_channel_changed(
        start,
        events.push(event),
        channel_id,
    ));
}

} // verus!

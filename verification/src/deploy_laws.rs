//! What holds of every deployment, whatever happens in it.

use vstd::prelude::*;

use crate::catalog::{app_outcome, channel_search, first_revision, revision_search, Search};
use crate::deploy::{
    bindle_of, bindle_server_outcome, key_value_step, variable_step, BindleConnectionInfo,
    ChannelRevisionSelectionStrategy, DeployAction, DeployActionView, DeployCommand, DeployEvent,
    DeployStage, Deployment, Release, SPIN_DEPLOY_CHANNEL_NAME,
};
use crate::error::DeployError;
use crate::manifest::{cloud_verdict, AppManifest, SPIN_DEFAULT_KV_STORE};
use crate::upload::{push_verdict, BindleId};

verus! {

/// Whether, from a start on, each thing that happened was awaited when it did.
pub open spec fn deploy_runs(start: Deployment, events: Seq<DeployEvent>) -> bool
    decreases events.len(),
{
    events.len() == 0 || (deploy_runs(start, events.drop_last()) && deploy_after(
        start,
        events.drop_last(),
    ).awaits(events.last()))
}

/// The deployment after some things happened.
pub open spec fn deploy_after(start: Deployment, events: Seq<DeployEvent>) -> Deployment
    decreases events.len(),
{
    if events.len() == 0 {
        start
    } else {
        deploy_after(start, events.drop_last()).after(events.last())
    }
}

/// Whether a deployment has just begun.
pub open spec fn is_start(deployment: Deployment) -> bool {
    deployment.stage is LoadingManifest
}

/// A deployment keeps its command and its login.
pub proof fn law_command_and_login_are_kept(start: Deployment, events: Seq<DeployEvent>)
    ensures
        deploy_after(start, events).command == start.command,
        deploy_after(start, events).login == start.login,
    decreases events.len(),
{
    if events.len() > 0 {
        law_command_and_login_are_kept(start, events.drop_last());
    }
}

/// How many of `len` things are left to do at a position, that one included.
spec fn left(index: usize, len: nat) -> nat {
    if index < len {
        (len - index) as nat
    } else {
        1
    }
}

/// How many more things that bring a deployment on can happen to it at most.
pub closed spec fn steps_left(deployment: Deployment) -> nat {
    let key_values = deployment.command.key_values@.len();
    let variables = deployment.command.variables@.len();
    let settings = key_values + variables;
    match deployment.stage {
        DeployStage::LoadingManifest => settings + 9,
        DeployStage::Preparing { .. } => settings + 8,
        DeployStage::Pushing { .. } => settings + 7,
        DeployStage::ListingApps { .. } => settings + 6,
        DeployStage::AddingRevision { .. } => settings + 5,
        DeployStage::ListingChannels { .. } => settings + 4,
        DeployStage::AddingApp { .. } => settings + 4,
        DeployStage::ListingRevisions { .. } => settings + 3,
        DeployStage::PatchingChannel { .. } => settings + 2,
        DeployStage::AddingChannel { .. } => settings + 2,
        DeployStage::SettingKeyValue { index, .. } => 1 + variables + left(index, key_values),
        DeployStage::SettingVariable { index, .. } => 1 + left(index, variables),
        DeployStage::GettingChannel { .. } => 1,
        DeployStage::Ended => 0,
    }
}

/// Whether what happened only makes a deployment ask for a list again.
pub open spec fn asks_again(deployment: Deployment, event: DeployEvent) -> bool {
    match (deployment.stage, event) {
        (DeployStage::ListingChannels { app_id, .. }, DeployEvent::Channels { page }) => {
            channel_search(page, SPIN_DEPLOY_CHANNEL_NAME@, app_id) is Again
        },
        (DeployStage::ListingRevisions { release, app_id, .. }, DeployEvent::Revisions { page }) =>
            revision_search(page, release.id.version@, app_id) is Again,
        _ => false,
    }
}

/// How many of the things that happened brought a deployment on.
pub open spec fn advances(start: Deployment, events: Seq<DeployEvent>) -> nat
    decreases events.len(),
{
    if events.len() == 0 {
        0
    } else {
        advances(start, events.drop_last()) + if asks_again(
            deploy_after(start, events.drop_last()),
            events.last(),
        ) {
            0nat
        } else {
            1nat
        }
    }
}

proof fn lemma_advance(deployment: Deployment, event: DeployEvent)
    requires
        deployment.awaits(event),
    ensures
        steps_left(deployment.after(event)) + (if asks_again(deployment, event) {
            0nat
        } else {
            1nat
        }) <= steps_left(deployment),
{
    assert(deployment.command.key_values.len() == deployment.command.key_values@.len());
    assert(deployment.command.variables.len() == deployment.command.variables@.len());
    match (deployment.stage, event) {
        (DeployStage::ListingChannels { release, app_id }, DeployEvent::Channels { page }) => {
            let search = channel_search(page, SPIN_DEPLOY_CHANNEL_NAME@, app_id);
            assert(deployment.next(event) == Deployment::after_channels(release, app_id, search));
        },
        (
            DeployStage::ListingRevisions { release, app_id, channel_id },
            DeployEvent::Revisions { page },
        ) => {
            let search = revision_search(page, release.id.version@, app_id);
            assert(deployment.next(event) == Deployment::after_revisions(
                release,
                app_id,
                channel_id,
                search,
            ));
        },
        _ => {},
    }
}

proof fn lemma_advances(start: Deployment, events: Seq<DeployEvent>)
    requires
        deploy_runs(start, events),
    ensures
        advances(start, events) + steps_left(deploy_after(start, events)) <= steps_left(start),
    decreases events.len(),
{
    if events.len() > 0 {
        lemma_advances(start, events.drop_last());
        lemma_advance(deploy_after(start, events.drop_last()), events.last());
    }
}

/// A deployment comes to an end: apart from asking for a list again, at most
/// nine things happen in it, and one more for each key/value pair and each
/// variable.
pub proof fn law_deployments_end(start: Deployment, events: Seq<DeployEvent>)
    requires
        is_start(start),
        deploy_runs(start, events),
    ensures
        advances(start, events) <= 9 + start.command.key_values@.len()
            + start.command.variables@.len(),
{
    lemma_advances(start, events);
}

/// A deployment that asks for a list again is where it was.
pub proof fn law_asking_again_changes_nothing(deployment: Deployment, event: DeployEvent)
    requires
        deployment.awaits(event),
        asks_again(deployment, event),
    ensures
        deployment.after(event) == deployment,
{
}

/// A deployment that has ended waits for nothing; one that has not waits for
/// something.
pub proof fn law_ended_deployments_wait_for_nothing(deployment: Deployment)
    ensures
        deployment.stage is Ended <==> forall|event: DeployEvent| !deployment.awaits(event),
{
    if !(deployment.stage is Ended) {
        assert(deployment.awaits(DeployEvent::Failed) || deployment.awaits(
            DeployEvent::Push { outcome: crate::upload::PushOutcome::Failed },
        ));
    }
}

/// Whether the platform takes an application and runs it.
pub open spec fn is_taken(manifest: AppManifest) -> bool {
    cloud_verdict(manifest.components@) is Ok && manifest.trigger is Http
}

/// The manifest of a deployment, once it has one.
pub open spec fn manifest_of(stage: DeployStage) -> Option<AppManifest> {
    match stage {
        DeployStage::LoadingManifest => None,
        DeployStage::Preparing { manifest } => Some(manifest),
        DeployStage::Pushing { release } => Some(release.manifest),
        DeployStage::ListingApps { release } => Some(release.manifest),
        DeployStage::AddingRevision { release, .. } => Some(release.manifest),
        DeployStage::ListingChannels { release, .. } => Some(release.manifest),
        DeployStage::AddingApp { release } => Some(release.manifest),
        DeployStage::ListingRevisions { release, .. } => Some(release.manifest),
        DeployStage::PatchingChannel { release, .. } => Some(release.manifest),
        DeployStage::AddingChannel { release, .. } => Some(release.manifest),
        DeployStage::SettingKeyValue { release, .. } => Some(release.manifest),
        DeployStage::SettingVariable { release, .. } => Some(release.manifest),
        DeployStage::GettingChannel { release } => Some(release.manifest),
        DeployStage::Ended => None,
    }
}

proof fn lemma_taken(deployment: Deployment, event: DeployEvent)
    requires
        deployment.awaits(event),
        manifest_of(deployment.stage) matches Some(manifest) ==> is_taken(manifest),
    ensures
        manifest_of(deployment.after(event).stage) matches Some(manifest) ==> is_taken(manifest),
{
}

/// Only an application that the platform takes, and that answers HTTP requests,
/// is packaged, and so with everything after that.
pub proof fn law_only_taken_apps_are_deployed(start: Deployment, events: Seq<DeployEvent>)
    requires
        is_start(start),
        deploy_runs(start, events),
    ensures
        manifest_of(deploy_after(start, events).stage) matches Some(manifest) ==> is_taken(
            manifest,
        ),
    decreases events.len(),
{
    if events.len() > 0 {
        law_only_taken_apps_are_deployed(start, events.drop_last());
        lemma_taken(deploy_after(start, events.drop_last()), events.last());
    }
}

/// Every deployment that does not fail ends with the wait for the application:
/// none ends with the mere announcement of its domain.
pub proof fn law_deployments_end_in_a_wait(
    start: Deployment,
    events: Seq<DeployEvent>,
    event: DeployEvent,
)
    requires
        is_start(start),
        deploy_runs(start, events),
        deploy_after(start, events).awaits(event),
    ensures
        !(deploy_after(start, events).next(event).1 is Announce),
        deploy_after(start, events).after(event).stage is Ended ==> {
            ||| deploy_after(start, events).next(event).1 is AwaitReadiness
            ||| deploy_after(start, events).next(event).1 is Fail
        },
{
    law_only_taken_apps_are_deployed(start, events);
}

/// The bindle goes to one server: the one that the application is packaged for
/// is that of the login, and stays it to the end.
pub proof fn law_the_server_is_that_of_the_login(
    start: Deployment,
    events: Seq<DeployEvent>,
    event: DeployEvent,
)
    requires
        is_start(start),
        deploy_runs(start, events),
        deploy_after(start, events).awaits(event),
    ensures
        bindle_server_outcome(deploy_after(start, events).login) == bindle_server_outcome(
            start.login,
        ),
        deploy_after(start, events).next(event).1 matches DeployAction::Prepare { server, .. }
            ==> bindle_server_outcome(start.login) == Ok::<
            BindleConnectionInfo<Seq<char>>,
            DeployError<Seq<char>>,
        >(server),
{
    law_command_and_login_are_kept(start, events);
}

/// Whether the application was packaged as that bindle.
pub open spec fn was_packaged(events: Seq<DeployEvent>, id: BindleId) -> bool {
    exists|i: int| 0 <= i < events.len() && #[trigger] events[i] == (DeployEvent::Prepared { id })
}

/// Whether an upload ended in a way that will do.
pub open spec fn was_uploaded(redeploy: bool, events: Seq<DeployEvent>) -> bool {
    exists|i: int|
        0 <= i < events.len() && ((#[trigger] events[i]) matches DeployEvent::Push { outcome }
            && push_verdict(redeploy, outcome) is Ok)
}

/// Whether the platform listed an application of a name under an id, as the
/// first of that name.
pub open spec fn was_listed(events: Seq<DeployEvent>, name: Seq<char>, app_id: u128) -> bool {
    exists|i: int|
        0 <= i < events.len() && ((#[trigger] events[i]) matches DeployEvent::Apps { items }
            && app_outcome(items@, name) == Ok::<u128, DeployError<Seq<char>>>(
            app_id,
        ))
}

/// Whether the platform made an application of an id.
pub open spec fn was_made(events: Seq<DeployEvent>, app_id: u128) -> bool {
    exists|i: int|
        0 <= i < events.len() && #[trigger] events[i] == (DeployEvent::AppAdded { app_id })
}

/// Whether the platform listed a channel as the one through which an
/// application is deployed.
pub open spec fn had_channel(events: Seq<DeployEvent>, app_id: u128, channel_id: u128) -> bool {
    exists|i: int|
        0 <= i < events.len() && ((#[trigger] events[i]) matches DeployEvent::Channels { page }
            && channel_search(page, SPIN_DEPLOY_CHANNEL_NAME@, app_id) == Search::<
            Seq<char>,
        >::Found(channel_id))
}

/// Whether a bindle was registered as a revision of an application: something
/// was done while the deployment waited for that.
pub open spec fn was_registered(
    start: Deployment,
    events: Seq<DeployEvent>,
    id: BindleId,
    app_id: u128,
) -> bool {
    exists|i: int|
        0 <= i < events.len() && (#[trigger] events[i]) is Completed && (deploy_after(
            start,
            events.take(i),
        ).stage matches DeployStage::AddingRevision { release, app_id: app } && release.id == id
            && app == app_id)
}

/// Whether the platform listed no applications, or none of a name.
pub open spec fn was_not_listed(events: Seq<DeployEvent>, name: Seq<char>) -> bool {
    forall|i: int|
        0 <= i < events.len() ==> ((#[trigger] events[i]) matches DeployEvent::Apps { items }
            ==> app_outcome(items@, name) is Err)
}

/// Whether the platform listed no applications.
pub open spec fn nothing_listed(events: Seq<DeployEvent>) -> bool {
    forall|i: int| 0 <= i < events.len() ==> !((#[trigger] events[i]) is Apps)
}

/// Whether an application is the one that a bindle is deployed as: listed by the
/// platform under the bindle's name, or made for want of one.
pub open spec fn is_deployed_app(events: Seq<DeployEvent>, name: Seq<char>, app_id: u128) -> bool {
    was_listed(events, name, app_id) || (was_made(events, app_id) && was_not_listed(events, name))
}

/// What a deployment's stage tells about the bindle.
spec fn bindle_history(start: Deployment, stage: DeployStage, events: Seq<DeployEvent>) -> bool {
    bindle_of(stage) matches Some(id) ==> was_packaged(events, id) && (stage is Pushing
        || was_uploaded(start.command.redeploy, events))
}

/// What a deployment's stage tells about the application on the platform.
spec fn app_history(start: Deployment, stage: DeployStage, events: Seq<DeployEvent>) -> bool {
    match stage {
        DeployStage::LoadingManifest => nothing_listed(events),
        DeployStage::Preparing { .. } => nothing_listed(events),
        DeployStage::Pushing { .. } => nothing_listed(events),
        DeployStage::ListingApps { .. } => nothing_listed(events),
        DeployStage::AddingRevision { release, app_id } => was_listed(
            events,
            release.id.name@,
            app_id,
        ),
        DeployStage::ListingChannels { release, app_id } => was_listed(
            events,
            release.id.name@,
            app_id,
        ) && was_registered(start, events, release.id, app_id),
        DeployStage::AddingApp { release } => was_not_listed(events, release.id.name@),
        DeployStage::ListingRevisions { release, app_id, channel_id } => match channel_id {
            Some(channel_id) => was_listed(events, release.id.name@, app_id) && was_registered(
                start,
                events,
                release.id,
                app_id,
            ) && had_channel(events, app_id, channel_id),
            None => was_made(events, app_id) && was_not_listed(events, release.id.name@),
        },
        DeployStage::PatchingChannel { release, app_id, .. } => is_deployed_app(
            events,
            release.id.name@,
            app_id,
        ),
        DeployStage::AddingChannel { release, app_id } => is_deployed_app(
            events,
            release.id.name@,
            app_id,
        ),
        DeployStage::SettingKeyValue { release, app_id, .. } => is_deployed_app(
            events,
            release.id.name@,
            app_id,
        ),
        DeployStage::SettingVariable { release, app_id, .. } => is_deployed_app(
            events,
            release.id.name@,
            app_id,
        ),
        _ => true,
    }
}

/// What happened stays so.
proof fn lemma_kept(start: Deployment, before: Seq<DeployEvent>, event: DeployEvent)
    ensures
        forall|id: BindleId| was_packaged(before, id) ==> was_packaged(before.push(event), id),
        was_uploaded(start.command.redeploy, before) ==> was_uploaded(
            start.command.redeploy,
            before.push(event),
        ),
        forall|name: Seq<char>, app_id: u128|
            was_listed(before, name, app_id) ==> was_listed(before.push(event), name, app_id),
        forall|app_id: u128| was_made(before, app_id) ==> was_made(before.push(event), app_id),
        forall|app_id: u128, channel_id: u128|
            had_channel(before, app_id, channel_id) ==> had_channel(
                before.push(event),
                app_id,
                channel_id,
            ),
        forall|id: BindleId, app_id: u128|
            was_registered(start, before, id, app_id) ==> was_registered(
                start,
                before.push(event),
                id,
                app_id,
            ),
        !(event is Apps) && nothing_listed(before) ==> nothing_listed(before.push(event)),
        forall|name: Seq<char>|
            !(event is Apps) && was_not_listed(before, name) ==> was_not_listed(
                before.push(event),
                name,
            ),
{
    let events = before.push(event);
    assert forall|i: int| 0 <= i < before.len() implies #[trigger] before[i] == events[i]
        && before.take(i) == events.take(i) by {
        assert(before.take(i) =~= events.take(i));
    }
    assert forall|id: BindleId| was_packaged(before, id) implies was_packaged(events, id) by {
        let i = choose|i: int|
            0 <= i < before.len() && #[trigger] before[i] == (DeployEvent::Prepared { id });
        assert(events[i] == before[i]);
    }
    if was_uploaded(start.command.redeploy, before) {
        let i = choose|i: int|
            0 <= i < before.len() && ((#[trigger] before[i]) matches DeployEvent::Push { outcome }
                && push_verdict(start.command.redeploy, outcome) is Ok);
        assert(events[i] == before[i]);
    }
    assert forall|name: Seq<char>, app_id: u128| was_listed(before, name, app_id) implies was_listed(
        events,
        name,
        app_id,
    ) by {
        let i = choose|i: int|
            0 <= i < before.len() && ((#[trigger] before[i]) matches DeployEvent::Apps { items }
                && app_outcome(items@, name) == Ok::<u128, DeployError<Seq<char>>>(
                app_id,
            ));
        assert(events[i] == before[i]);
    }
    assert forall|app_id: u128| was_made(before, app_id) implies was_made(events, app_id) by {
        let i = choose|i: int|
            0 <= i < before.len() && #[trigger] before[i] == (DeployEvent::AppAdded { app_id });
        assert(events[i] == before[i]);
    }
    assert forall|app_id: u128, channel_id: u128|
        had_channel(before, app_id, channel_id) implies had_channel(events, app_id, channel_id) by {
        let i = choose|i: int|
            0 <= i < before.len() && ((#[trigger] before[i]) matches DeployEvent::Channels { page }
                && channel_search(page, SPIN_DEPLOY_CHANNEL_NAME@, app_id) == Search::<
                Seq<char>,
            >::Found(channel_id));
        assert(events[i] == before[i]);
    }
    assert forall|id: BindleId, app_id: u128|
        was_registered(start, before, id, app_id) implies was_registered(
        start,
        events,
        id,
        app_id,
    ) by {
        let i = choose|i: int|
            0 <= i < before.len() && (#[trigger] before[i]) is Completed && (deploy_after(
                start,
                before.take(i),
            ).stage matches DeployStage::AddingRevision { release, app_id: app } && release.id
                == id && app == app_id);
        assert(events[i] == before[i]);
    }
}

proof fn lemma_bindle_step(
    start: Deployment,
    deployment: Deployment,
    before: Seq<DeployEvent>,
    event: DeployEvent,
)
    requires
        deployment.command == start.command,
        deployment.awaits(event),
        bindle_history(start, deployment.stage, before),
    ensures
        bindle_history(start, deployment.after(event).stage, before.push(event)),
{
    let events = before.push(event);
    lemma_kept(start, before, event);
    assert(events[before.len() as int] == event);
    match (deployment.stage, event) {
        (DeployStage::Preparing { manifest }, DeployEvent::Prepared { id }) => {
            assert(was_packaged(events, id));
        },
        (DeployStage::Pushing { release }, DeployEvent::Push { outcome }) => {
            if push_verdict(start.command.redeploy, outcome) is Ok {
                assert(was_uploaded(start.command.redeploy, events));
            }
        },
        (DeployStage::ListingChannels { release, app_id }, DeployEvent::Channels { page }) => {
            let search = channel_search(page, SPIN_DEPLOY_CHANNEL_NAME@, app_id);
            assert(deployment.next(event) == Deployment::after_channels(release, app_id, search));
        },
        (
            DeployStage::ListingRevisions { release, app_id, channel_id },
            DeployEvent::Revisions { page },
        ) => {
            let search = revision_search(page, release.id.version@, app_id);
            assert(deployment.next(event) == Deployment::after_revisions(
                release,
                app_id,
                channel_id,
                search,
            ));
        },
        _ => {},
    }
}

proof fn lemma_app_step(
    start: Deployment,
    deployment: Deployment,
    before: Seq<DeployEvent>,
    event: DeployEvent,
)
    requires
        deployment == deploy_after(start, before),
        deployment.awaits(event),
        app_history(start, deployment.stage, before),
    ensures
        app_history(start, deployment.after(event).stage, before.push(event)),
{
    let events = before.push(event);
    lemma_kept(start, before, event);
    assert(events.take(before.len() as int) == before);
    assert(events[before.len() as int] == event);
    match (deployment.stage, event) {
        (DeployStage::ListingApps { release }, DeployEvent::Apps { items }) => {
            let app = app_outcome(items@, release.id.name@);
            assert(deployment.next(event) == Deployment::after_apps(release, app));
            if app is Ok {
                assert(was_listed(events, release.id.name@, app->Ok_0));
            } else {
                assert(was_not_listed(events, release.id.name@));
            }
        },
        (DeployStage::ListingApps { release }, DeployEvent::Failed) => {
            assert(was_not_listed(events, release.id.name@));
        },
        (DeployStage::AddingRevision { release, app_id }, DeployEvent::Completed) => {
            assert(was_registered(start, events, release.id, app_id));
        },
        (DeployStage::ListingChannels { release, app_id }, DeployEvent::Channels { page }) => {
            let search = channel_search(page, SPIN_DEPLOY_CHANNEL_NAME@, app_id);
            assert(deployment.next(event) == Deployment::after_channels(release, app_id, search));
            if let Search::Found(channel_id) = search {
                assert(had_channel(events, app_id, channel_id));
            }
        },
        (DeployStage::AddingApp { release }, DeployEvent::AppAdded { app_id }) => {
            assert(was_made(events, app_id));
        },
        (
            DeployStage::ListingRevisions { release, app_id, channel_id },
            DeployEvent::Revisions { page },
        ) => {
            let search = revision_search(page, release.id.version@, app_id);
            assert(deployment.next(event) == Deployment::after_revisions(
                release,
                app_id,
                channel_id,
                search,
            ));
            assert(is_deployed_app(events, release.id.name@, app_id));
        },
        (DeployStage::PatchingChannel { release, app_id, .. }, DeployEvent::Completed) => {
            assert(is_deployed_app(events, release.id.name@, app_id));
        },
        (DeployStage::AddingChannel { release, app_id }, DeployEvent::ChannelAdded { .. }) => {
            assert(is_deployed_app(events, release.id.name@, app_id));
        },
        (DeployStage::SettingKeyValue { release, app_id, .. }, DeployEvent::Completed) => {
            assert(is_deployed_app(events, release.id.name@, app_id));
        },
        (DeployStage::SettingVariable { release, app_id, .. }, DeployEvent::Completed) => {
            assert(is_deployed_app(events, release.id.name@, app_id));
        },
        _ => {},
    }
}

proof fn lemma_history(start: Deployment, events: Seq<DeployEvent>)
    requires
        is_start(start),
        deploy_runs(start, events),
    ensures
        bindle_history(start, deploy_after(start, events).stage, events),
        app_history(start, deploy_after(start, events).stage, events),
    decreases events.len(),
{
    if events.len() > 0 {
        let before = events.drop_last();
        lemma_history(start, before);
        law_command_and_login_are_kept(start, before);
        lemma_bindle_step(start, deploy_after(start, before), before, events.last());
        lemma_app_step(start, deploy_after(start, before), before, events.last());
        assert(before.push(events.last()) == events);
    }
}

/// Whether an action changes what the platform holds.
pub open spec fn changes_platform(action: DeployActionView) -> bool {
    ||| action is AddRevision
    ||| action is AddApp
    ||| action is PatchChannel
    ||| action is AddChannel
    ||| action is SetKeyValue
    ||| action is SetVariable
}

/// Nothing on the platform is changed before the bindle has been packaged and
/// its upload has ended in a way that will do.
pub proof fn law_upload_comes_first(
    start: Deployment,
    events: Seq<DeployEvent>,
    event: DeployEvent,
)
    requires
        is_start(start),
        deploy_runs(start, events),
        deploy_after(start, events).awaits(event),
        changes_platform(deploy_after(start, events).next(event).1),
    ensures
        was_uploaded(start.command.redeploy, events.push(event)),
        bindle_of(deploy_after(start, events).stage) matches Some(id) && was_packaged(events, id),
{
    lemma_history(start, events);
    law_command_and_login_are_kept(start, events);
    lemma_kept(start, events, event);
}

/// A channel that is changed is that of the application that the platform
/// listed under the bindle's name, and is made to use the revision of the
/// bindle's version of that application, which had been registered.
pub proof fn law_patched_channels(
    start: Deployment,
    events: Seq<DeployEvent>,
    event: DeployEvent,
    channel_id: u128,
    strategy: ChannelRevisionSelectionStrategy,
    revision_id: u128,
)
    requires
        is_start(start),
        deploy_runs(start, events),
        deploy_after(start, events).awaits(event),
        deploy_after(start, events).next(event).1 == (DeployActionView::PatchChannel {
            channel_id,
            strategy,
            revision_id,
        }),
    ensures
        strategy is UseSpecifiedRevision,
        bindle_of(deploy_after(start, events).stage) matches Some(id) && exists|app_id: u128| #[trigger]
            was_listed(events, id.name@, app_id) && was_registered(start, events, id, app_id)
                && had_channel(events, app_id, channel_id) && (event matches DeployEvent::Revisions {
                page,
            } && (first_revision(page.items@, id.version@, app_id) matches Some(revision)
                && revision.id == revision_id)),
{
    lemma_history(start, events);
}

/// A channel that is made is one of the application that the platform made, for
/// want of one of the bindle's name, and uses the revision of the bindle's
/// version of that application.
pub proof fn law_added_channels(
    start: Deployment,
    events: Seq<DeployEvent>,
    event: DeployEvent,
    app_id: u128,
    name: Seq<char>,
    strategy: ChannelRevisionSelectionStrategy,
    revision_id: u128,
)
    requires
        is_start(start),
        deploy_runs(start, events),
        deploy_after(start, events).awaits(event),
        deploy_after(start, events).next(event).1 == (DeployActionView::AddChannel {
            app_id,
            name,
            strategy,
            revision_id,
        }),
    ensures
        name == SPIN_DEPLOY_CHANNEL_NAME@,
        strategy is UseSpecifiedRevision,
        was_made(events, app_id),
        bindle_of(deploy_after(start, events).stage) matches Some(id) && was_not_listed(
            events,
            id.name@,
        ) && (event matches DeployEvent::Revisions { page } && (first_revision(
            page.items@,
            id.version@,
            app_id,
        ) matches Some(revision) && revision.id == revision_id)),
{
    lemma_history(start, events);
}

/// Whether an action makes a setting of an application.
pub open spec fn sets_in(action: DeployActionView, app_id: u128) -> bool {
    match action {
        DeployAction::SetKeyValue { app_id: app, .. } => app == app_id,
        DeployAction::SetVariable { app_id: app, .. } => app == app_id,
        _ => false,
    }
}

/// Key/value pairs and variables are set in the application that is deployed:
/// the one that the platform listed under the bindle's name, or made for want of
/// one.
pub proof fn law_settings_go_to_the_deployed_application(
    start: Deployment,
    events: Seq<DeployEvent>,
    event: DeployEvent,
    app_id: u128,
)
    requires
        is_start(start),
        deploy_runs(start, events),
        deploy_after(start, events).awaits(event),
        sets_in(deploy_after(start, events).next(event).1, app_id),
    ensures
        bindle_of(deploy_after(start, events).stage) matches Some(id) && is_deployed_app(
            events,
            id.name@,
            app_id,
        ),
{
    lemma_history(start, events);
}

/// The texts of some pairs.
pub open spec fn spelled(pairs: Seq<(String, String)>) -> Seq<(Seq<char>, Seq<char>)> {
    Seq::new(pairs.len(), |i: int| (pairs[i].0@, pairs[i].1@))
}

/// The key/value pair that an action sets, if it sets one.
pub open spec fn key_value_set(action: DeployActionView) -> Seq<(Seq<char>, Seq<char>)> {
    match action {
        DeployAction::SetKeyValue { key, value, .. } => seq![(key, value)],
        _ => Seq::empty(),
    }
}

/// The variable that an action sets, if it sets one, with its value.
pub open spec fn variable_set(action: DeployActionView) -> Seq<(Seq<char>, Seq<char>)> {
    match action {
        DeployAction::SetVariable { name, value, .. } => seq![(name, value)],
        _ => Seq::empty(),
    }
}

/// The key/value pairs that a deployment asked to be set, in that order.
pub open spec fn key_values_set(start: Deployment, events: Seq<DeployEvent>) -> Seq<
    (Seq<char>, Seq<char>),
>
    decreases events.len(),
{
    if events.len() == 0 {
        Seq::empty()
    } else {
        key_values_set(start, events.drop_last()) + key_value_set(
            deploy_after(start, events.drop_last()).next(events.last()).1,
        )
    }
}

/// The variables that a deployment asked to be set, in that order.
pub open spec fn variables_set(start: Deployment, events: Seq<DeployEvent>) -> Seq<
    (Seq<char>, Seq<char>),
>
    decreases events.len(),
{
    if events.len() == 0 {
        Seq::empty()
    } else {
        variables_set(start, events.drop_last()) + variable_set(
            deploy_after(start, events.drop_last()).next(events.last()).1,
        )
    }
}

/// What a deployment has asked to be set when it is at a stage.
spec fn set_so_far(
    command: DeployCommand,
    stage: DeployStage,
    key_values: Seq<(Seq<char>, Seq<char>)>,
    variables: Seq<(Seq<char>, Seq<char>)>,
) -> bool {
    match stage {
        DeployStage::SettingKeyValue { index, .. } => {
            &&& index < command.key_values@.len()
            &&& key_values == spelled(command.key_values@).take(index + 1)
            &&& variables.len() == 0
        },
        DeployStage::SettingVariable { index, .. } => {
            &&& index < command.variables@.len()
            &&& key_values == spelled(command.key_values@)
            &&& variables == spelled(command.variables@).take(index + 1)
        },
        DeployStage::GettingChannel { .. } => {
            &&& key_values == spelled(command.key_values@)
            &&& variables == spelled(command.variables@)
        },
        DeployStage::Ended => true,
        _ => key_values.len() == 0 && variables.len() == 0,
    }
}

proof fn lemma_variable_step(
    command: DeployCommand,
    release: Release,
    app_id: u128,
    channel_id: u128,
    index: int,
    variables: Seq<(Seq<char>, Seq<char>)>,
)
    requires
        0 <= index <= command.variables@.len(),
        variables == spelled(command.variables@).take(index),
    ensures
        ({
            let (stage, action) = variable_step(command, release, app_id, channel_id, index);
            &&& set_so_far(
                command,
                stage,
                spelled(command.key_values@),
                variables + variable_set(action),
            )
            &&& key_value_set(action).len() == 0
        }),
{
    assert(command.variables.len() == command.variables@.len());
    let all = spelled(command.variables@);
    if index < all.len() {
        assert(all.take(index) + seq![all[index]] =~= all.take(index + 1));
    } else {
        assert(all.take(index) =~= all);
        assert(variables + Seq::<(Seq<char>, Seq<char>)>::empty() =~= variables);
    }
}

proof fn lemma_key_value_step(
    command: DeployCommand,
    release: Release,
    app_id: u128,
    channel_id: u128,
    index: int,
    key_values: Seq<(Seq<char>, Seq<char>)>,
)
    requires
        0 <= index <= command.key_values@.len(),
        key_values == spelled(command.key_values@).take(index),
    ensures
        ({
            let (stage, action) = key_value_step(command, release, app_id, channel_id, index);
            set_so_far(
                command,
                stage,
                key_values + key_value_set(action),
                Seq::<(Seq<char>, Seq<char>)>::empty() + variable_set(action),
            )
        }),
{
    assert(command.key_values.len() == command.key_values@.len());
    let all = spelled(command.key_values@);
    let none = Seq::<(Seq<char>, Seq<char>)>::empty();
    if index < all.len() {
        assert(all.take(index) + seq![all[index]] =~= all.take(index + 1));
        assert((none + none).len() == 0);
    } else {
        assert(all.take(index) =~= all);
        assert(spelled(command.variables@).take(0) =~= none);
        lemma_variable_step(command, release, app_id, channel_id, 0, none);
        let action = key_value_step(command, release, app_id, channel_id, index).1;
        assert(key_values + key_value_set(action) =~= all);
    }
}

proof fn lemma_set_step(
    deployment: Deployment,
    event: DeployEvent,
    key_values: Seq<(Seq<char>, Seq<char>)>,
    variables: Seq<(Seq<char>, Seq<char>)>,
)
    requires
        deployment.awaits(event),
        set_so_far(deployment.command, deployment.stage, key_values, variables),
    ensures
        set_so_far(
            deployment.command,
            deployment.after(event).stage,
            key_values + key_value_set(deployment.next(event).1),
            variables + variable_set(deployment.next(event).1),
        ),
{
    let command = deployment.command;
    let none = Seq::<(Seq<char>, Seq<char>)>::empty();
    match (deployment.stage, event) {
        (DeployStage::PatchingChannel { release, app_id, channel_id }, DeployEvent::Completed) => {
            assert(spelled(command.key_values@).take(0) =~= none);
            assert(key_values =~= none && variables =~= none);
            lemma_key_value_step(command, release, app_id, channel_id, 0, none);
        },
        (
            DeployStage::AddingChannel { release, app_id },
            DeployEvent::ChannelAdded { channel_id },
        ) => {
            assert(spelled(command.key_values@).take(0) =~= none);
            assert(key_values =~= none && variables =~= none);
            lemma_key_value_step(command, release, app_id, channel_id, 0, none);
        },
        (
            DeployStage::SettingKeyValue { release, app_id, channel_id, index },
            DeployEvent::Completed,
        ) => {
            assert(variables =~= none);
            lemma_key_value_step(command, release, app_id, channel_id, index + 1, key_values);
        },
        (
            DeployStage::SettingVariable { release, app_id, channel_id, index },
            DeployEvent::Completed,
        ) => {
            lemma_variable_step(command, release, app_id, channel_id, index + 1, variables);
            assert(key_values + none =~= key_values);
            assert(key_value_set(deployment.next(event).1) =~= none);
        },
        (DeployStage::ListingChannels { release, app_id }, DeployEvent::Channels { page }) => {
            let search = channel_search(page, SPIN_DEPLOY_CHANNEL_NAME@, app_id);
            assert(deployment.next(event) == Deployment::after_channels(release, app_id, search));
            assert((none + none).len() == 0);
        },
        (
            DeployStage::ListingRevisions { release, app_id, channel_id },
            DeployEvent::Revisions { page },
        ) => {
            let search = revision_search(page, release.id.version@, app_id);
            assert(deployment.next(event) == Deployment::after_revisions(
                release,
                app_id,
                channel_id,
                search,
            ));
            assert((none + none).len() == 0);
        },
        _ => {
            assert((none + none).len() == 0);
        },
    }
}

proof fn lemma_set_so_far(start: Deployment, events: Seq<DeployEvent>)
    requires
        is_start(start),
        deploy_runs(start, events),
    ensures
        set_so_far(
            start.command,
            deploy_after(start, events).stage,
            key_values_set(start, events),
            variables_set(start, events),
        ),
    decreases events.len(),
{
    if events.len() > 0 {
        let before = events.drop_last();
        lemma_set_so_far(start, before);
        law_command_and_login_are_kept(start, before);
        lemma_set_step(
            deploy_after(start, before),
            events.last(),
            key_values_set(start, before),
            variables_set(start, before),
        );
    }
}

/// A deployment that gets as far as asking for its channel has had every
/// key/value pair and every variable of its command set, in their order, and
/// nothing else.
pub proof fn law_every_setting_is_made(start: Deployment, events: Seq<DeployEvent>)
    requires
        is_start(start),
        deploy_runs(start, events),
        deploy_after(start, events).stage is GettingChannel,
    ensures
        key_values_set(start, events) == spelled(start.command.key_values@),
        variables_set(start, events) == spelled(start.command.variables@),
{
    lemma_set_so_far(start, events);
}

/// Every key/value pair is set in the default store.
pub proof fn law_settings_go_to_the_default_store(deployment: Deployment, event: DeployEvent)
    requires
        deployment.awaits(event),
    ensures
        deployment.next(event).1 matches DeployAction::SetKeyValue { store, .. } ==> store
            == SPIN_DEFAULT_KV_STORE@,
{
}

/// What a store holds after some pairs were set in it, one after the other.
pub open spec fn store_after(
    store: Map<Seq<char>, Seq<char>>,
    pairs: Seq<(Seq<char>, Seq<char>)>,
) -> Map<Seq<char>, Seq<char>>
    decreases pairs.len(),
{
    if pairs.len() == 0 {
        store
    } else {
        store_after(store, pairs.drop_last()).insert(pairs.last().0, pairs.last().1)
    }
}

/// Of the pairs that were set, the last one of a key counts, whatever value the
/// key had before; a key of no pair keeps its value.
pub proof fn law_the_last_setting_counts(
    store: Map<Seq<char>, Seq<char>>,
    pairs: Seq<(Seq<char>, Seq<char>)>,
    key: Seq<char>,
)
    ensures
        forall|i: int|
            0 <= i < pairs.len() && #[trigger] pairs[i].0 == key && (forall|k: int|
                i < k < pairs.len() ==> #[trigger] pairs[k].0 != key) ==> store_after(
                store,
                pairs,
            ).contains_pair(key, pairs[i].1),
        (forall|k: int| 0 <= k < pairs.len() ==> #[trigger] pairs[k].0 != key) ==> {
            &&& store_after(store, pairs).contains_key(key) <==> store.contains_key(key)
            &&& store_after(store, pairs)[key] == store[key]
        },
    decreases pairs.len(),
{
    if pairs.len() > 0 {
        let front = pairs.drop_last();
        law_the_last_setting_counts(store, front, key);
        assert forall|i: int|
            0 <= i < pairs.len() && #[trigger] pairs[i].0 == key && (forall|k: int|
                i < k < pairs.len() ==> #[trigger] pairs[k].0 != key) implies store_after(
            store,
            pairs,
        ).contains_pair(key, pairs[i].1) by {
            if i < front.len() {
                assert(front[i].0 == key);
                assert(pairs[pairs.len() - 1].0 != key);
                assert forall|k: int| i < k < front.len() implies #[trigger] front[k].0 != key by {
                    assert(pairs[k].0 != key);
                }
                assert(store_after(store, front).contains_pair(key, front[i].1));
            }
        }
        if forall|k: int| 0 <= k < pairs.len() ==> #[trigger] pairs[k].0 != key {
            assert forall|k: int| 0 <= k < front.len() implies #[trigger] front[k].0 != key by {
                assert(pairs[k].0 != key);
            }
            assert(pairs[pairs.len() - 1].0 != key);
        }
    }
}

} // verus!

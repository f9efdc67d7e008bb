use platform_deploy::buildinfo::BuildInfo;
use platform_deploy::catalog::{AppItem, ChannelItem, Page, RevisionItem};
use platform_deploy::deploy::{
    ChannelRevisionSelectionStrategy, DeployAction, DeployCommand, DeployEvent, DeployStage,
    Deployment,
};
use platform_deploy::error::{DeployError, Failure};
use platform_deploy::login::{HealthReply, LoginConnection};
use platform_deploy::login_flow::{
    login_connection, LoginAction, LoginEvent, LoginFlow, LoginStage,
};
use platform_deploy::manifest::{AppManifest, ApplicationTrigger, Component};
use platform_deploy::readiness::WaitStep;
use platform_deploy::run::{Run, RunAction, RunEvent};
use platform_deploy::upload::{BindleId, PushOutcome};
use platform_deploy::web_url::Url;

fn login() -> LoginConnection {
    LoginConnection {
        url: Url::parse("https://platform.example.com/").unwrap(),
        danger_accept_invalid_certs: true,
        token: "secret".to_string(),
        bindle_url: None,
        bindle_username: Some("user".to_string()),
        bindle_password: None,
        expiration: None,
    }
}

fn command() -> DeployCommand {
    DeployCommand {
        app_source: "spin.toml".into(),
        staging_dir: None,
        no_buildinfo: false,
        buildinfo: None,
        redeploy: false,
        readiness_timeout_secs: 60,
        deployment_env_id: Some("prod".to_string()),
        key_values: vec![],
        variables: vec![],
    }
}

fn shop() -> AppManifest {
    AppManifest {
        trigger: ApplicationTrigger::Http,
        components: vec![Component {
            id: "home".to_string(),
            description: None,
            key_value_stores: Some(vec!["default".to_string()]),
            route: Some("/".to_string()),
        }],
    }
}

fn manifest_event(manifest: AppManifest) -> DeployEvent {
    DeployEvent::Manifest { manifest, fallback: BuildInfo::new("rfall").unwrap() }
}

fn go(deployment: Deployment, event: DeployEvent) -> (Deployment, DeployAction) {
    assert!(deployment.is_waiting_for(&event));
    deployment.step(event)
}

/// A deployment whose upload has ended.
fn uploaded(command: DeployCommand) -> Deployment {
    let (deployment, _) = command.deploy(login());
    let (deployment, _) = go(deployment, manifest_event(shop()));
    let id = BindleId { name: "shop".to_string(), version: "1.0.0+r1".to_string() };
    let (deployment, action) = go(deployment, DeployEvent::Prepared { id });
    match action {
        DeployAction::Push { notice } => assert_eq!(notice, "Uploading shop version 1.0.0+r1..."),
        other => panic!("{:?}", other),
    }
    let (deployment, action) = go(deployment, DeployEvent::Push { outcome: PushOutcome::Pushed });
    match action {
        DeployAction::ListApps { notice } => assert_eq!(notice, "Deploying..."),
        other => panic!("{:?}", other),
    }
    deployment
}

fn revisions(app_id: u128) -> DeployEvent {
    let number = "1.0.0+r1".to_string();
    DeployEvent::Revisions {
        page: Page { items: vec![RevisionItem { id: 30, app_id, revision_number: number }], is_last_page: true },
    }
}

fn apps(items: Vec<AppItem>) -> DeployEvent {
    DeployEvent::Apps { items }
}

#[test]
fn a_deployment_begins_with_the_connection() {
    let (deployment, action) = command().deploy(login());
    assert!(matches!(deployment.stage, DeployStage::LoadingManifest));
    match action {
        DeployAction::LoadManifest { connection } => {
            assert_eq!(connection.url, "https://platform.example.com/");
            assert!(connection.danger_accept_invalid_certs);
            assert_eq!(connection.api_key, Some("secret".to_string()));
        }
        other => panic!("{:?}", other),
    }
}

#[test]
fn a_taken_app_is_packaged_for_the_default_server() {
    let (deployment, _) = command().deploy(login());
    let (_, action) = go(deployment, manifest_event(shop()));
    match action {
        DeployAction::Prepare { buildinfo, server } => {
            assert_eq!(buildinfo, Some("rfall".to_string()));
            assert_eq!(server.base_url, "http://127.0.0.1:8080/v1");
            assert!(server.allow_insecure);
            assert_eq!(server.username, Some("user".to_string()));
            assert_eq!(server.password, None);
        }
        other => panic!("{:?}", other),
    }
}

#[test]
fn given_build_info_and_server_are_used() {
    let mut ordered = command();
    ordered.buildinfo = Some(BuildInfo::new("mine").unwrap());
    let mut connection = login();
    connection.bindle_url = Some("HTTP://Bindle.example.com/v1".to_string());
    let (deployment, _) = ordered.deploy(connection);
    let (_, action) = go(deployment, manifest_event(shop()));
    match action {
        DeployAction::Prepare { buildinfo, server } => {
            assert_eq!(buildinfo, Some("mine".to_string()));
            assert_eq!(server.base_url, "http://bindle.example.com/v1");
        }
        other => panic!("{:?}", other),
    }
    let mut plain = command();
    plain.no_buildinfo = true;
    let (deployment, _) = plain.deploy(login());
    let (_, action) = go(deployment, manifest_event(shop()));
    assert!(matches!(action, DeployAction::Prepare { buildinfo: None, .. }));
}

#[test]
fn refused_apps_are_not_packaged() {
    let refuse = |manifest: AppManifest, connection: LoginConnection| {
        let (deployment, _) = command().deploy(connection);
        let (deployment, action) = go(deployment, manifest_event(manifest));
        assert!(matches!(deployment.stage, DeployStage::Ended));
        match action {
            DeployAction::Fail(Failure::Own(error)) => error,
            other => panic!("{:?}", other),
        }
    };
    let mut empty = shop();
    empty.components = vec![];
    empty.trigger = ApplicationTrigger::Redis;
    assert_eq!(refuse(empty, login()), DeployError::NoComponents);
    let mut redis = shop();
    redis.trigger = ApplicationTrigger::Redis;
    assert_eq!(refuse(redis, login()), DeployError::RedisTrigger);
    let mut external = shop();
    external.trigger = ApplicationTrigger::External;
    assert_eq!(refuse(external, login()), DeployError::ExternalTrigger);
    let mut nowhere = login();
    nowhere.bindle_url = Some("nowhere".to_string());
    assert_eq!(
        refuse(shop(), nowhere),
        DeployError::InvalidUrl { cause: "relative URL without a base".to_string() }
    );
}

#[test]
fn a_known_app_gets_a_revision_on_its_channel() {
    let deployment = uploaded(command());
    let listed = vec![
        AppItem { id: 9, name: "other".to_string() },
        AppItem { id: 7, name: "shop".to_string() },
    ];
    let (deployment, action) = go(deployment, apps(listed));
    match action {
        DeployAction::AddRevision { storage_id, version } => {
            assert_eq!(storage_id, "shop");
            assert_eq!(version, "1.0.0+r1");
        }
        other => panic!("{:?}", other),
    }
    let (deployment, action) = go(deployment, DeployEvent::Completed);
    assert!(matches!(action, DeployAction::ListChannels));
    let channel = |app_id, name: &str| ChannelItem { id: 20, app_id, name: name.to_string() };
    let foreign = Page { items: vec![channel(9, "spin-deploy")], is_last_page: false };
    let (deployment, action) = go(deployment, DeployEvent::Channels { page: foreign });
    assert!(matches!(action, DeployAction::ListChannels));
    assert!(matches!(deployment.stage, DeployStage::ListingChannels { app_id: 7, .. }));
    let own = Page { items: vec![channel(7, "spin-deploy")], is_last_page: false };
    let (deployment, action) = go(deployment, DeployEvent::Channels { page: own });
    assert!(matches!(action, DeployAction::ListRevisions));
    let (deployment, action) = go(deployment, revisions(7));
    match action {
        DeployAction::PatchChannel { channel_id, strategy, revision_id } => {
            assert_eq!(channel_id, 20);
            assert_eq!(strategy, ChannelRevisionSelectionStrategy::UseSpecifiedRevision);
            assert_eq!(revision_id, 30);
        }
        other => panic!("{:?}", other),
    }
    let (deployment, action) = go(deployment, DeployEvent::Completed);
    match action {
        DeployAction::GetChannel { id } => assert_eq!(id, "00000000-0000-0000-0000-000000000014"),
        other => panic!("{:?}", other),
    }
    let (deployment, action) = go(deployment, DeployEvent::Channel { domain: "shop.example.com".to_string() });
    assert!(matches!(deployment.stage, DeployStage::Ended));
    let (wait, step) = action.begin_wait("/.well-known/spin/").unwrap().unwrap();
    assert_eq!(wait.expected_version, "1.0.0+r1");
    assert_eq!(wait.timeout_secs, 60);
    match step {
        WaitStep::Look { url, .. } => {
            assert_eq!(url, "https://shop.example.com/.well-known/spin/info");
        }
        other => panic!("{:?}", other),
    }
    match action {
        DeployAction::AwaitReadiness { base_url, version, timeout_secs, dashboard, routes } => {
            assert_eq!(base_url.as_str(), "https://shop.example.com/");
            assert_eq!(version, "1.0.0+r1");
            assert_eq!(timeout_secs, 60);
            assert_eq!(dashboard, "https://platform.example.com/");
            assert_eq!(routes, vec!["Available Routes:", "  home: https://shop.example.com/"]);
        }
        other => panic!("{:?}", other),
    }
    assert!(!deployment.is_waiting_for(&DeployEvent::Failed));
    assert_eq!(deployment.command.readiness_timeout_secs, 60);
    assert_eq!(deployment.login.token, "secret");
}

#[test]
fn the_login_of_a_command_is_kept_under_its_environment() {
    let named = command();
    let mut unnamed = command();
    unnamed.deployment_env_id = None;
    for (ordered, file) in [(named, "prod.json"), (unnamed, "config.json")] {
        match ordered.config_file() {
            Ok(path) => {
                assert_eq!(Some(path.config_dir), dirs::config_dir());
                assert_eq!(path.segments, vec!["fermyon", file]);
            }
            Err(error) => {
                assert_eq!(error, DeployError::NoConfigDir);
                assert!(dirs::config_dir().is_none());
            }
        }
    }
}

#[test]
fn a_bindle_is_assembled_in_the_directory_of_the_command() {
    let temporary = std::path::PathBuf::from("/tmp/t");
    let mut ordered = command();
    assert_eq!(ordered.bindle_dir(&temporary), &temporary);
    ordered.staging_dir = Some("staging".into());
    assert_eq!(ordered.bindle_dir(&temporary), &std::path::PathBuf::from("staging"));
}

#[test]
fn missing_build_info_is_drawn() {
    let (deployment, _) = command().deploy(login());
    let (deployment, action) = deployment.load(shop());
    assert!(matches!(deployment.stage, DeployStage::Preparing { .. }));
    match action {
        DeployAction::Prepare { buildinfo: Some(info), .. } => {
            assert!(info.starts_with('r'));
            assert!(5 <= info.len() && info.len() <= 9);
        }
        other => panic!("{:?}", other),
    }
    let mut plain = command();
    plain.no_buildinfo = true;
    let (deployment, _) = plain.deploy(login());
    let (_, action) = deployment.load(shop());
    assert!(matches!(action, DeployAction::Prepare { buildinfo: None, .. }));
}

#[test]
fn an_unknown_app_is_made() {
    for event in [apps(vec![]), DeployEvent::Failed] {
        let (deployment, action) = go(uploaded(command()), event);
        match action {
            DeployAction::AddApp { name, storage_id } => {
                assert_eq!(name, "shop");
                assert_eq!(storage_id, "shop");
            }
            other => panic!("{:?}", other),
        }
        let (deployment, action) = go(deployment, DeployEvent::AppAdded { app_id: 5 });
        assert!(matches!(action, DeployAction::ListRevisions));
        let (deployment, action) = go(deployment, revisions(5));
        match action {
            DeployAction::AddChannel { app_id, name, strategy, revision_id } => {
                assert_eq!(app_id, 5);
                assert_eq!(name, "spin-deploy");
                assert_eq!(strategy, ChannelRevisionSelectionStrategy::UseSpecifiedRevision);
                assert_eq!(revision_id, 30);
            }
            other => panic!("{:?}", other),
        }
        let (_, action) = go(deployment, DeployEvent::ChannelAdded { channel_id: 1 });
        assert!(matches!(action, DeployAction::GetChannel { .. }));
    }
}

#[test]
fn a_missing_revision_ends_a_deployment() {
    let (deployment, _) = go(uploaded(command()), DeployEvent::Failed);
    let (deployment, _) = go(deployment, DeployEvent::AppAdded { app_id: 5 });
    let (deployment, action) = go(deployment, revisions(6));
    assert!(matches!(deployment.stage, DeployStage::Ended));
    assert!(matches!(action, DeployAction::Fail(Failure::Own(DeployError::NoSuchRevision { .. }))));
}

#[test]
fn failures_are_told_under_their_texts() {
    let told = |action: DeployAction| match action {
        DeployAction::Fail(Failure::Told { context }) => context,
        other => panic!("{:?}", other),
    };
    let (deployment, _) = go(uploaded(command()), DeployEvent::Failed);
    let (_, action) = go(deployment, DeployEvent::Failed);
    assert_eq!(told(action), "Unable to create app");
    let (deployment, _) = go(uploaded(command()), DeployEvent::Failed);
    let (deployment, _) = go(deployment, DeployEvent::AppAdded { app_id: 5 });
    let (deployment, _) = go(deployment, revisions(5));
    let (_, action) = go(deployment, DeployEvent::Failed);
    assert_eq!(told(action), "Problem creating a channel");
    let (deployment, _) = go(uploaded(command()), apps(vec![AppItem { id: 7, name: "shop".to_string() }]));
    let (deployment, _) = go(deployment, DeployEvent::Completed);
    let channel = ChannelItem { id: 20, app_id: 7, name: "spin-deploy".to_string() };
    let page = Page { items: vec![channel], is_last_page: true };
    let (deployment, _) = go(deployment, DeployEvent::Channels { page });
    let (deployment, _) = go(deployment, revisions(7));
    let (_, action) = go(deployment, DeployEvent::Failed);
    assert_eq!(told(action), "Problem patching a channel");
    let (deployment, _) = go(uploaded(command()), DeployEvent::Failed);
    let (deployment, _) = go(deployment, DeployEvent::AppAdded { app_id: 5 });
    let (deployment, _) = go(deployment, revisions(5));
    let (deployment, _) = go(deployment, DeployEvent::ChannelAdded { channel_id: 1 });
    let (_, action) = go(deployment, DeployEvent::Failed);
    assert_eq!(told(action), "Problem getting channel by id");
}

#[test]
fn other_failures_are_passed_on() {
    let (deployment, _) = command().deploy(login());
    let (_, action) = go(deployment, DeployEvent::Failed);
    assert!(matches!(action, DeployAction::Fail(Failure::Passed)));
    let (deployment, _) = go(uploaded(command()), apps(vec![AppItem { id: 7, name: "shop".to_string() }]));
    let (_, action) = go(deployment, DeployEvent::Failed);
    assert!(matches!(action, DeployAction::Fail(Failure::Passed)));
}

#[test]
fn a_domain_that_gives_no_url_ends_a_deployment() {
    let (deployment, _) = go(uploaded(command()), DeployEvent::Failed);
    let (deployment, _) = go(deployment, DeployEvent::AppAdded { app_id: 5 });
    let (deployment, _) = go(deployment, revisions(5));
    let (deployment, _) = go(deployment, DeployEvent::ChannelAdded { channel_id: 1 });
    let (_, action) = go(deployment, DeployEvent::Channel { domain: "a b".to_string() });
    assert!(matches!(action, DeployAction::Fail(Failure::Own(DeployError::InvalidBaseUrl { .. }))));
}

#[test]
fn settings_are_made_in_their_order() {
    let pair = |key: &str, value: &str| (key.to_string(), value.to_string());
    let mut ordered = command();
    ordered.key_values = vec![pair("k", "1"), pair("k", "2")];
    ordered.variables = vec![pair("v", "3")];
    let (deployment, _) = go(uploaded(ordered), DeployEvent::Failed);
    let (deployment, _) = go(deployment, DeployEvent::AppAdded { app_id: 5 });
    let (deployment, _) = go(deployment, revisions(5));
    let (mut deployment, mut action) = go(deployment, DeployEvent::ChannelAdded { channel_id: 1 });
    let mut made = Vec::new();
    loop {
        match action {
            DeployAction::SetKeyValue { app_id, store, key, value } => {
                made.push(format!("{} {} {}={}", app_id, store, key, value));
            }
            DeployAction::SetVariable { app_id, name, value } => {
                made.push(format!("{} {}={}", app_id, name, value));
            }
            _ => break,
        }
        let next = go(deployment, DeployEvent::Completed);
        deployment = next.0;
        action = next.1;
    }
    assert_eq!(made, vec!["5 default k=1", "5 default k=2", "5 v=3"]);
    assert!(matches!(action, DeployAction::GetChannel { .. }));
    assert!(matches!(deployment.stage, DeployStage::GettingChannel { .. }));
}

#[test]
fn an_upload_that_fails_ends_a_deployment() {
    let (deployment, _) = command().deploy(login());
    let (deployment, _) = go(deployment, manifest_event(shop()));
    let id = BindleId { name: "shop".to_string(), version: "1.0.0".to_string() };
    let (deployment, _) = go(deployment, DeployEvent::Prepared { id });
    assert!(!deployment.is_waiting_for(&DeployEvent::Failed));
    let (deployment, action) = go(deployment, DeployEvent::Push { outcome: PushOutcome::Failed });
    assert!(matches!(deployment.stage, DeployStage::Ended));
    assert!(matches!(action, DeployAction::Fail(Failure::Upload)));
}

fn flow(env: Option<&str>) -> LoginFlow {
    let (flow, action) = login_connection(env.map(|e| e.to_string()), "/c/config.json".to_string());
    assert!(matches!(action, LoginAction::ReadConfig));
    flow
}

fn take(flow: LoginFlow, event: LoginEvent) -> (LoginFlow, LoginAction) {
    assert!(flow.is_waiting_for(&event));
    flow.step(event)
}

fn data() -> LoginEvent {
    LoginEvent::Config { data: "{}".to_string() }
}

fn parsed() -> LoginEvent {
    LoginEvent::Parsed { connection: login() }
}

#[test]
fn a_command_begins_with_the_login_of_its_environment() {
    let (run, action) = command().run("/c/prod.json".to_string());
    match run {
        Run::LoggingIn { command, flow } => {
            assert_eq!(command.readiness_timeout_secs, 60);
            assert_eq!(flow.deployment_env_id, Some("prod".to_string()));
            assert_eq!(flow.config_path, "/c/prod.json");
            assert!(matches!(flow.stage, LoginStage::Reading));
        }
        other => panic!("{:?}", other),
    }
    assert!(matches!(action, RunAction::Login(LoginAction::ReadConfig)));
}

fn on(run: Run, event: RunEvent) -> (Run, RunAction) {
    assert!(run.is_waiting_for(&event));
    run.step(event)
}

/// A run that finds out next whether its login has expired.
fn at_expiry(token: &str) -> Run {
    let mut connection = login();
    connection.token = token.to_string();
    let (run, _) = command().run("/c/prod.json".to_string());
    let (run, _) = on(run, RunEvent::Login(data()));
    let (run, action) = on(run, RunEvent::Login(LoginEvent::Parsed { connection }));
    assert!(matches!(action, RunAction::Login(LoginAction::CheckExpiry)));
    run
}

#[test]
fn a_run_deploys_with_the_login_that_it_ended_with() {
    let (run, action) = at_expiry("mine").check_expiry();
    assert!(matches!(action, RunAction::Login(LoginAction::CheckHealth { .. })));
    assert!(!run.is_waiting_for(&RunEvent::Deploy(DeployEvent::Failed)));
    let reply = HealthReply::Status(200);
    let (run, action) = on(run, RunEvent::Login(LoginEvent::Health { reply }));
    match action {
        RunAction::Deploy(DeployAction::LoadManifest { connection }) => {
            assert_eq!(connection.api_key, Some("mine".to_string()));
        }
        other => panic!("{:?}", other),
    }
    match &run {
        Run::Deploying { deployment } => {
            assert_eq!(deployment.login.token, "mine");
            assert_eq!(deployment.command.deployment_env_id, Some("prod".to_string()));
            assert!(matches!(deployment.stage, DeployStage::LoadingManifest));
        }
        other => panic!("{:?}", other),
    }
    let (run, action) = run.load(shop());
    assert!(matches!(action, RunAction::Deploy(DeployAction::Prepare { .. })));
    let (run, action) = on(run, RunEvent::Deploy(DeployEvent::Failed));
    assert!(matches!(action, RunAction::Deploy(DeployAction::Fail(Failure::Passed))));
    assert!(!run.is_waiting_for(&RunEvent::Deploy(DeployEvent::Failed)));
}

#[test]
fn a_failed_login_deploys_nothing() {
    let (run, _) = at_expiry("mine").check_expiry();
    let reply = HealthReply::Status(500);
    let (run, action) = on(run, RunEvent::Login(LoginEvent::Health { reply }));
    assert!(matches!(run, Run::LoginFailed));
    match action {
        RunAction::Login(LoginAction::Fail(Failure::Told { context })) => {
            assert_eq!(context, "Server https://platform.example.com/ is unhealthy");
        }
        other => panic!("{:?}", other),
    }
    assert!(!run.is_waiting_for(&RunEvent::Deploy(manifest_event(shop()))));
    let ended = LoginAction::Fail(Failure::Passed);
    assert!(matches!(command().go_on(ended), Err(LoginAction::Fail(Failure::Passed))));
    let done = command().go_on(LoginAction::Done { connection: login() });
    assert_eq!(done.unwrap().0.login.token, "secret");
}

#[test]
fn a_flow_reads_the_file_of_its_environment() {
    for (name, file) in [(Some("prod"), "prod.json"), (None, "config.json")] {
        match flow(name).config_file() {
            Ok(path) => assert_eq!(path.segments, vec!["fermyon", file]),
            Err(error) => assert_eq!(error, DeployError::NoConfigDir),
        }
    }
}

#[test]
fn a_deployment_knows_its_bindle_and_its_server() {
    let (deployment, _) = command().deploy(login());
    assert!(deployment.bindle().is_none());
    assert_eq!(deployment.bindle_server().unwrap().base_url, "http://127.0.0.1:8080/v1");
    let deployment = uploaded(command());
    let id = deployment.bindle().unwrap();
    assert_eq!((id.name.as_str(), id.version.as_str()), ("shop", "1.0.0+r1"));
    let mut connection = login();
    connection.bindle_url = Some("nowhere".to_string());
    let (deployment, _) = command().deploy(connection);
    assert!(matches!(deployment.bindle_server(), Err(DeployError::InvalidUrl { .. })));
}

#[test]
fn a_current_login_of_a_healthy_platform_is_used() {
    let (flow, action) = take(flow(Some("prod")), data());
    match action {
        LoginAction::Parse { data } => assert_eq!(data, "{}"),
        other => panic!("{:?}", other),
    }
    let (flow, action) = take(flow, parsed());
    assert!(matches!(action, LoginAction::CheckExpiry));
    assert_eq!(flow.connection().unwrap().token, "secret");
    let (flow, action) = take(flow, LoginEvent::Expiry { verdict: Ok(false) });
    match action {
        LoginAction::CheckHealth { notice, url } => {
            assert_eq!(notice, "Checking status (https://platform.example.com/)\n");
            assert_eq!(url, "https://platform.example.com/healthz");
        }
        other => panic!("{:?}", other),
    }
    let (flow, action) = take(flow, LoginEvent::Health { reply: HealthReply::Status(200) });
    assert!(matches!(flow.stage, LoginStage::Ended));
    match action {
        LoginAction::Done { connection } => assert_eq!(connection.token, "secret"),
        other => panic!("{:?}", other),
    }
    assert!(!flow.is_waiting_for(&LoginEvent::Failed));
}

#[test]
fn a_named_environment_without_login_is_told() {
    let (_, action) = take(flow(Some("prod")), LoginEvent::ConfigMissing);
    match action {
        LoginAction::Exit { first, second } => {
            assert_eq!(first, "You have no instance saved as 'prod'");
            assert_eq!(second, "Run `spin platform login --environment-name prod` to log in");
        }
        other => panic!("{:?}", other),
    }
}

#[test]
fn an_expired_named_environment_is_told() {
    let (flow, _) = take(flow(Some("prod")), data());
    let (flow, _) = take(flow, parsed());
    let (_, action) = take(flow, LoginEvent::Expiry { verdict: Ok(true) });
    match action {
        LoginAction::Exit { first, second } => {
            assert_eq!(first, "Your login to this environment has expired");
            assert_eq!(second, "Run `spin platform login --environment-name prod` to log in again");
        }
        other => panic!("{:?}", other),
    }
}

#[test]
fn the_unnamed_environment_logs_in_and_renews() {
    let (flow, action) = take(flow(None), LoginEvent::ConfigMissing);
    assert!(matches!(action, LoginAction::LogIn));
    let (flow, action) = take(flow, LoginEvent::LoggedIn);
    assert!(matches!(action, LoginAction::ReadConfig));
    let (flow, _) = take(flow, data());
    let (flow, action) = take(flow, parsed());
    assert!(matches!(action, LoginAction::CheckExpiry));
    let (flow, action) = take(flow, LoginEvent::Expiry { verdict: Ok(true) });
    assert!(matches!(action, LoginAction::LogIn));
    let (flow, _) = take(flow, LoginEvent::LoggedIn);
    let (flow, _) = take(flow, data());
    let (flow, action) = take(flow, parsed());
    assert!(matches!(action, LoginAction::CheckHealth { .. }));
    let (_, action) = take(flow, LoginEvent::Health { reply: HealthReply::Status(503) });
    match action {
        LoginAction::Fail(Failure::Told { context }) => {
            assert_eq!(context, "Server https://platform.example.com/ is unhealthy");
        }
        other => panic!("{:?}", other),
    }
}

#[test]
fn reading_failures_end_a_login() {
    let (_, action) = take(flow(None), LoginEvent::ConfigUnreadable { cause: "denied".to_string() });
    match action {
        LoginAction::Fail(Failure::Own(error)) => assert_eq!(error.message(), "Could not log in: denied"),
        other => panic!("{:?}", other),
    }
    let (fresh, _) = take(flow(None), LoginEvent::ConfigMissing);
    let (fresh, _) = take(fresh, LoginEvent::LoggedIn);
    let (_, action) = take(fresh, LoginEvent::Failed);
    assert!(matches!(action, LoginAction::Fail(Failure::Passed)));
    let (renewed, _) = take(flow(None), data());
    let (renewed, _) = take(renewed, parsed());
    let (renewed, _) = take(renewed, LoginEvent::Expiry { verdict: Ok(true) });
    let (renewed, _) = take(renewed, LoginEvent::LoggedIn);
    let (_, action) = take(renewed, LoginEvent::Failed);
    match action {
        LoginAction::Fail(Failure::Told { context }) => {
            assert_eq!(context, "Cannot find spin config at /c/config.json");
        }
        other => panic!("{:?}", other),
    }
}

#[test]
fn an_unreadable_expiration_ends_a_login() {
    let (flow, _) = take(flow(None), data());
    let (flow, _) = take(flow, parsed());
    let error = DeployError::InvalidExpiration { expiration: "soon".to_string(), cause: "why".to_string() };
    let (_, action) = take(flow, LoginEvent::Expiry { verdict: Err(error) });
    match action {
        LoginAction::Exit { first, second } => {
            assert_eq!(first, "Failed to parse token expiration time 'soon'. Error: why\n");
            assert_eq!(second, "Run `spin platform login` to log in again");
        }
        other => panic!("{:?}", other),
    }
}

#[test]
fn the_expiry_of_a_login_is_checked_by_the_clock() {
    let checked = |expiration: Option<&str>| {
        let mut connection = login();
        connection.expiration = expiration.map(|e| e.to_string());
        let (flow, _) = take(flow(Some("prod")), data());
        let (flow, _) = take(flow, LoginEvent::Parsed { connection });
        assert!(matches!(flow.stage, LoginStage::CheckingExpiry { .. }));
        flow.check_expiry().1
    };
    assert!(matches!(checked(None), LoginAction::CheckHealth { .. }));
    assert!(matches!(checked(Some("9999-12-31T23:59:59Z")), LoginAction::CheckHealth { .. }));
    match checked(Some("2001-01-01T00:00:00Z")) {
        LoginAction::Exit { first, .. } => {
            assert_eq!(first, "Your login to this environment has expired");
        }
        other => panic!("{:?}", other),
    }
    match checked(Some("soon")) {
        LoginAction::Exit { second, .. } => {
            assert_eq!(second, "Run `spin platform login` to log in again");
        }
        other => panic!("{:?}", other),
    }
}

#[test]
fn a_platform_without_health_url_ends_a_login() {
    let mut connection = login();
    connection.url = Url::parse("mailto:someone@example.com").unwrap();
    let (flow, _) = take(flow(None), data());
    let (flow, _) = take(flow, LoginEvent::Parsed { connection });
    let (flow, action) = take(flow, LoginEvent::Expiry { verdict: Ok(false) });
    assert!(matches!(flow.stage, LoginStage::Ended));
    assert!(matches!(action, LoginAction::Fail(Failure::Own(DeployError::InvalidUrl { .. }))));
}

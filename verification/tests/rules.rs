use platform_deploy::buildinfo::{
    buildinfo_from_bytes, buildinfo_from_digest, choose_buildinfo, compute_buildinfo,
    digest_input, random_buildinfo, BuildInfo, ComponentFiles, ModuleSource,
};
use platform_deploy::catalog::{
    get_app_id_cloud, get_channel_id_cloud, get_revision_id_cloud, AppItem, ChannelItem, Page,
    RevisionItem, Search,
};
use platform_deploy::error::{DeployError, Failure};
use platform_deploy::login::{
    check_healthz, config_file_path, config_file_path_in, has_expired, has_expired_at, has_passed,
    HealthReply, LoginConnection,
};
use platform_deploy::manifest::{
    check_trigger, validate_cloud_app, AppManifest, ApplicationTrigger, Component,
};
use platform_deploy::readiness::{
    checked_wait_for_ready, is_ready, AppInfo, Destination, InfoReply, Probe, ReadinessWait,
    WaitStep,
};
use platform_deploy::routes::available_routes;
use platform_deploy::text::{contains_text, hex_number_text, strip_trailing, trim_start_text};
use platform_deploy::upload::{judge_push, staging_dir, upload_notice, BindleId, PushOutcome};
use platform_deploy::web_url::{
    app_base_text, app_info_url, build_app_base_url, healthz_url, told_with_domain,
    well_known_reference, Url,
};

fn component(id: &str, stores: Option<Vec<&str>>) -> Component {
    Component {
        id: id.to_string(),
        description: None,
        key_value_stores: stores.map(|all| all.iter().map(|s| s.to_string()).collect()),
        route: None,
    }
}

fn manifest(components: Vec<Component>) -> AppManifest {
    AppManifest { trigger: ApplicationTrigger::Http, components }
}

fn login(expiration: Option<&str>) -> LoginConnection {
    LoginConnection {
        url: Url::parse("https://platform.example.com/").unwrap(),
        danger_accept_invalid_certs: false,
        token: "token".to_string(),
        bindle_url: None,
        bindle_username: None,
        bindle_password: None,
        expiration: expiration.map(|e| e.to_string()),
    }
}

#[test]
fn an_app_without_components_is_refused() {
    let error = validate_cloud_app(&manifest(vec![])).unwrap_err();
    assert_eq!(error, DeployError::NoComponents);
    assert_eq!(error.message(), "No components in spin.toml!");
}

#[test]
fn an_app_with_default_stores_only_is_taken() {
    let app = manifest(vec![
        component("a", None),
        component("b", Some(vec![])),
        component("c", Some(vec!["default", "default"])),
    ]);
    assert!(validate_cloud_app(&app).is_ok());
}

#[test]
fn the_first_foreign_store_is_reported() {
    let app = manifest(vec![
        component("a", Some(vec!["default"])),
        component("b", Some(vec!["default", "cache", "other"])),
        component("c", Some(vec!["third"])),
    ]);
    let error = validate_cloud_app(&app).unwrap_err();
    assert_eq!(
        error,
        DeployError::InvalidStore { store: "cache".to_string(), component: "b".to_string() }
    );
    assert_eq!(
        error.message(),
        "Invalid store \"cache\" for component \"b\". Cloud currently supports only the 'default' store."
    );
}

#[test]
fn stores_are_quoted_with_escapes() {
    let error = DeployError::InvalidStore { store: "a\"b\n".to_string(), component: "c".to_string() };
    assert_eq!(
        error.message(),
        "Invalid store \"a\\\"b\\n\" for component \"c\". Cloud currently supports only the 'default' store."
    );
}

#[test]
fn only_http_triggers_are_run() {
    assert!(check_trigger(ApplicationTrigger::Http).is_ok());
    let redis = check_trigger(ApplicationTrigger::Redis).unwrap_err();
    assert_eq!(redis.message(), "Redis triggers are not supported");
    let external = check_trigger(ApplicationTrigger::External).unwrap_err();
    assert_eq!(external.message(), "External triggers are not supported");
}

#[test]
fn build_info_is_build_metadata() {
    assert_eq!(BuildInfo::new("r12.a-b").unwrap().as_str(), "r12.a-b");
    assert_eq!(BuildInfo::new("").unwrap().as_str(), "");
    for text in [".", "a.", ".a", "a..b", "a_b", "a b", "\u{e9}"] {
        assert_eq!(BuildInfo::new(text).unwrap_err(), DeployError::InvalidBuildInfo);
    }
    assert_eq!(DeployError::InvalidBuildInfo.message(), "Could not compute build info");
}

#[test]
fn drawn_bytes_lose_their_leading_zeros() {
    assert_eq!(buildinfo_from_bytes([0x01, 0x2a, 0x00, 0xff]).as_str(), "r12a0ff");
    assert_eq!(buildinfo_from_bytes([0xde, 0xad, 0xbe, 0xef]).as_str(), "rdeadbeef");
    assert_eq!(hex_number_text(0x0f), "f");
}

#[test]
fn random_build_info_has_its_shape() {
    let mut seen = Vec::new();
    for _ in 0..20 {
        let info = random_buildinfo().as_str().to_string();
        assert!(info.starts_with('r'));
        assert!(5 <= info.len() && info.len() <= 9);
        assert!(info[1..].chars().all(|c| c.is_ascii_hexdigit() && !c.is_ascii_uppercase()));
        seen.push(info);
    }
    assert!(seen.iter().any(|info| *info != seen[0]));
}

#[test]
fn a_digest_gives_eight_characters() {
    assert_eq!(buildinfo_from_digest(&vec![0x0a, 0xbc, 0x01, 0xff, 0x77]).as_str(), "q0abc01f");
    assert_eq!(buildinfo_from_digest(&vec![0x0a, 0xbc]).as_str(), "q0abc");
    assert_eq!(buildinfo_from_digest(&vec![]).as_str(), "q");
}

#[test]
fn the_content_determines_the_build_info() {
    // The SHA-256 digest of "abc" begins with ba7816bf.
    let components = vec![ComponentFiles { source: ModuleSource::File(b"a".to_vec()), assets: vec![b"b".to_vec()] }];
    assert_eq!(compute_buildinfo(&components, &b"c".to_vec()).as_str(), "qba7816b");
    assert_eq!(compute_buildinfo(&vec![], &b"abc".to_vec()).as_str(), "qba7816b");
    // That of no bytes begins with e3b0c442.
    assert_eq!(compute_buildinfo(&vec![], &vec![]).as_str(), "qe3b0c44");
}

#[test]
fn the_digest_is_taken_in_the_order_of_the_manifest() {
    let components = vec![
        ComponentFiles { source: ModuleSource::File(b"1".to_vec()), assets: vec![b"2".to_vec(), b"3".to_vec()] },
        ComponentFiles { source: ModuleSource::Remote { digest: "sha256:4".to_string() }, assets: vec![] },
    ];
    assert_eq!(digest_input(&components, &b"5".to_vec()), b"123sha256:45".to_vec());
}

#[test]
fn given_build_info_comes_before_the_fallback() {
    let fallback = || BuildInfo::new("fallback").unwrap();
    let given = Some(BuildInfo::new("given").unwrap());
    assert_eq!(choose_buildinfo(true, &None, fallback()), None);
    assert_eq!(choose_buildinfo(true, &given, fallback()), None);
    assert_eq!(choose_buildinfo(false, &given, fallback()), Some("given".to_string()));
    assert_eq!(choose_buildinfo(false, &None, fallback()), Some("fallback".to_string()));
}

#[test]
fn the_first_app_of_the_name_is_found() {
    let apps = vec![
        AppItem { id: 1, name: "other".to_string() },
        AppItem { id: 2, name: "shop".to_string() },
        AppItem { id: 3, name: "shop".to_string() },
    ];
    assert_eq!(get_app_id_cloud(&apps, "shop"), Ok(2));
    let error = get_app_id_cloud(&apps, "Shop").unwrap_err();
    assert_eq!(error.message(), "No app with name: Shop");
}

#[test]
fn revisions_are_searched_page_by_page() {
    let revision = |id, app_id, number: &str| RevisionItem { id, app_id, revision_number: number.to_string() };
    let page = |is_last_page| Page {
        items: vec![revision(1, 7, "1.0.0"), revision(2, 8, "1.0.0+a"), revision(3, 7, "1.0.0+a"), revision(4, 7, "1.0.0+a")],
        is_last_page,
    };
    assert_eq!(get_revision_id_cloud(&page(false), "1.0.0+a", 7), Search::Found(3));
    assert_eq!(get_revision_id_cloud(&page(false), "2.0.0", 7), Search::Again);
    match get_revision_id_cloud(&page(true), "2.0.0", 0x67e55044_10b1_426f_9247_bb680e5fe0c8) {
        Search::Missing(error) => assert_eq!(
            error.message(),
            "No revision with version 2.0.0 and app id 67e55044-10b1-426f-9247-bb680e5fe0c8"
        ),
        other => panic!("{:?}", other),
    }
}

#[test]
fn channels_are_searched_page_by_page() {
    let channel = |id, app_id, name: &str| ChannelItem { id, app_id, name: name.to_string() };
    let page = |is_last_page| Page {
        items: vec![channel(1, 7, "main"), channel(2, 8, "spin-deploy"), channel(3, 7, "spin-deploy")],
        is_last_page,
    };
    assert_eq!(get_channel_id_cloud(&page(true), "spin-deploy", 7), Search::Found(3));
    assert_eq!(get_channel_id_cloud(&page(false), "spin-deploy", 9), Search::Again);
    match get_channel_id_cloud(&page(true), "spin-deploy", 9) {
        Search::Missing(error) => assert_eq!(
            error.message(),
            "No channel with app_id 00000000-0000-0000-0000-000000000009 and name spin-deploy"
        ),
        other => panic!("{:?}", other),
    }
}

#[test]
fn a_push_is_judged() {
    assert_eq!(judge_push(false, PushOutcome::Pushed), Ok(()));
    assert_eq!(judge_push(true, PushOutcome::AlreadyExists { message: "exists".to_string() }), Ok(()));
    match judge_push(false, PushOutcome::AlreadyExists { message: "exists".to_string() }) {
        Err(Failure::Own(error)) => assert_eq!(
            error.message(),
            "Failed to push bindle to server.\nexists\nTry using the --deploy-existing-bindle flag"
        ),
        other => panic!("{:?}", other),
    }
    let too_large = "Unknown error: Unknown error: the application exceeds the limit";
    match judge_push(true, PushOutcome::Refused { message: too_large.to_string() }) {
        Err(Failure::Own(error)) => assert_eq!(error.message(), "the application exceeds the limit"),
        other => panic!("{:?}", other),
    }
    assert_eq!(
        judge_push(true, PushOutcome::Refused { message: "Unknown error: no".to_string() }),
        Err(Failure::Upload)
    );
    assert_eq!(judge_push(true, PushOutcome::Failed), Err(Failure::Upload));
}

#[test]
fn an_upload_is_told() {
    let id = BindleId { name: "shop".to_string(), version: "1.0.0+r1".to_string() };
    assert_eq!(upload_notice(&id), "Uploading shop version 1.0.0+r1...");
}

#[test]
fn a_given_staging_directory_is_used() {
    assert_eq!(staging_dir(Some("given"), "temporary"), "given");
    assert_eq!(staging_dir(None, "temporary"), "temporary");
}

#[test]
fn text_operations_work_on_characters() {
    assert!(contains_text("the application exceeds it", "application exceeds"));
    assert!(!contains_text("application exceed", "application exceeds"));
    assert!(contains_text("abc", ""));
    assert_eq!(trim_start_text("//\u{e9}/x", "/"), "\u{e9}/x");
    assert_eq!(strip_trailing("\u{e9}//", '/'), "\u{e9}/");
    assert_eq!(strip_trailing("x", '/'), "x");
}

#[test]
fn the_base_url_has_the_scheme_of_the_platform() {
    let cloud = Url::parse("HTTPS://Platform.example.com").unwrap();
    assert_eq!(cloud.as_str(), "https://platform.example.com/");
    assert_eq!(cloud.scheme(), "https");
    let base = build_app_base_url("Shop.example.com", &cloud).unwrap();
    assert_eq!(base.as_str(), "https://shop.example.com/");
    assert_eq!(app_base_text("http", "shop"), "http://shop/");
}

#[test]
fn a_bad_domain_is_told() {
    let cloud = Url::parse("http://platform.example.com/").unwrap();
    let error = build_app_base_url("a b", &cloud).unwrap_err();
    let message = error.message();
    assert!(message.starts_with(
        "Could not construct app base URL for \"a b\" (Cloud URL: Url { scheme: \"http\", cannot_be_a_base: false"
    ));
    assert!(message.ends_with("})"));
    match error {
        DeployError::InvalidBaseUrl { cause, .. } => assert_eq!(cause, "invalid international domain name"),
        other => panic!("{:?}", other),
    }
    let told = told_with_domain("d", &cloud, Err(DeployError::InvalidUrl { cause: "c".to_string() }));
    assert!(matches!(told, Err(DeployError::InvalidBaseUrl { .. })));
}

#[test]
fn a_text_that_is_no_url_is_refused() {
    let error = Url::parse("not a url").unwrap_err();
    assert_eq!(error.message(), "relative URL without a base");
}

#[test]
fn references_are_joined() {
    let base = Url::parse("https://shop.example.com/a/b").unwrap();
    assert_eq!(healthz_url(&base).unwrap().as_str(), "https://shop.example.com/a/healthz");
    assert_eq!(well_known_reference("//.well-known/spin/"), ".well-known/spin/");
    let root = Url::parse("https://shop.example.com/").unwrap();
    assert_eq!(
        app_info_url(&root, "/.well-known/spin/").unwrap().as_str(),
        "https://shop.example.com/.well-known/spin/info"
    );
    let mail = Url::parse("mailto:someone@example.com").unwrap();
    assert!(app_info_url(&mail, "/.well-known/spin/").is_err());
    assert!(healthz_url(&mail).is_err());
}

#[test]
fn readiness_needs_success_and_the_version() {
    let answered = |status, version: Option<Option<&str>>| InfoReply::Answered {
        status,
        app_info: version.map(|v| AppInfo { bindle_version: v.map(|s| s.to_string()) }),
    };
    assert!(!is_ready(&InfoReply::Missing, "1.0.0"));
    assert!(!is_ready(&answered(404, Some(Some("1.0.0"))), "1.0.0"));
    assert!(!is_ready(&answered(199, None), "1.0.0"));
    assert!(!is_ready(&answered(300, None), "1.0.0"));
    assert!(is_ready(&answered(200, Some(Some("1.0.0"))), "1.0.0"));
    assert!(is_ready(&answered(299, None), "1.0.0"));
    assert!(!is_ready(&answered(200, Some(Some("0.9.0"))), "1.0.0"));
    assert!(!is_ready(&answered(200, Some(None)), "1.0.0"));
}

fn begin(timeout_secs: u16, dashboard: &str) -> Option<(ReadinessWait, WaitStep)> {
    let base = Url::parse("https://shop.example.com/").unwrap();
    let destination = Destination::Cloud(dashboard.to_string());
    checked_wait_for_ready(&base, "/.well-known/spin/", "1.0.0", timeout_secs, destination).unwrap()
}

#[test]
fn no_time_to_wait_means_no_look() {
    assert!(begin(0, "u").is_none());
    let mail = Url::parse("mailto:someone@example.com").unwrap();
    let destination = || Destination::Cloud("u".to_string());
    let skipped = checked_wait_for_ready(&mail, "/.well-known/spin/", "1.0.0", 0, destination());
    assert!(skipped.unwrap().is_none());
    let refused = checked_wait_for_ready(&mail, "/.well-known/spin/", "1.0.0", 3, destination());
    assert!(matches!(refused, Err(DeployError::InvalidUrl { .. })));
}

#[test]
fn a_wait_looks_until_the_time_is_over() {
    let (wait, step) = begin(3, "https://p/").unwrap();
    let url = "https://shop.example.com/.well-known/spin/info".to_string();
    assert_eq!(
        step,
        WaitStep::Look {
            print: "Waiting for application to become ready".to_string(),
            url: url.clone(),
        }
    );
    assert_eq!(
        wait.after_look(Probe::NotReady, 2_999_999_999),
        WaitStep::SleepThenLook { print: ".".to_string(), secs: 2, url }
    );
    assert_eq!(
        wait.after_look(Probe::NotReady, 3_000_000_000),
        WaitStep::Stop {
            print: ".\nApplication deployed, but Spin could not establish readiness\nCheck the Fermyon self-hosted Platform dashboard to see the application status: https://p/\n".to_string()
        }
    );
    assert_eq!(
        wait.after_look(Probe::Ready, 9_000_000_000),
        WaitStep::Stop { print: "... ready\n".to_string() }
    );
    assert_eq!(
        wait.after_look(Probe::Failed { error: "e".to_string() }, 0),
        WaitStep::Stop { print: "... readiness check failed: e\n".to_string() }
    );
}

#[test]
fn a_wait_goes_by_the_version_of_the_answer() {
    let (wait, _) = begin(3, "u").unwrap();
    let answer = |version: &str| InfoReply::Answered {
        status: 200,
        app_info: Some(AppInfo { bindle_version: Some(version.to_string()) }),
    };
    assert_eq!(
        wait.after_reply(&answer("1.0.0"), 9_000_000_000),
        WaitStep::Stop { print: "... ready\n".to_string() }
    );
    assert!(matches!(wait.after_reply(&answer("0.9.0"), 0), WaitStep::SleepThenLook { secs: 2, .. }));
    assert!(matches!(wait.after_reply(&InfoReply::Missing, 2_999_999_999), WaitStep::SleepThenLook { secs: 2, .. }));
    assert!(matches!(
        wait.after_reply(&InfoReply::Missing, 3_000_000_000),
        WaitStep::Stop { .. }
    ));
}

#[test]
fn a_wait_of_three_seconds_takes_three_looks_at_most() {
    let (wait, _) = begin(3, "u").unwrap();
    let mut looks: u128 = 0;
    loop {
        let step = wait.after_look(Probe::NotReady, looks * 2_000_000_000);
        looks += 1;
        if let WaitStep::Stop { .. } = step {
            break;
        }
    }
    assert_eq!(looks, 3);
}

#[test]
fn routes_are_listed() {
    let base = Url::parse("http://shop.example.com/").unwrap();
    assert!(available_routes(&base, &vec![]).is_empty());
    let mut first = component("home", None);
    first.route = Some("/".to_string());
    first.description = Some("The start".to_string());
    let silent = component("worker", None);
    let mut last = component("api", None);
    last.route = Some("/api/...".to_string());
    assert_eq!(
        available_routes(&base, &vec![first, silent, last]),
        vec![
            "Available Routes:",
            "  home: http://shop.example.com/",
            "    The start",
            "  api: http://shop.example.com/api/...",
        ]
    );
    assert_eq!(available_routes(&base, &vec![component("worker", None)]), vec!["Available Routes:"]);
}

#[test]
fn the_config_file_is_named_after_the_environment() {
    let path = config_file_path_in(Some("dir"), None).unwrap();
    assert_eq!(path.config_dir, "dir");
    assert_eq!(path.segments, vec!["fermyon", "config.json"]);
    let named = config_file_path_in(Some("dir"), Some("prod")).unwrap();
    assert_eq!(named.segments, vec!["fermyon", "prod.json"]);
    let error = config_file_path_in::<u8>(None, None).unwrap_err();
    assert_eq!(error.message(), "Cannot find configuration directory");
}

#[test]
fn the_config_file_is_below_the_configuration_directory() {
    match config_file_path(Some("prod")) {
        Ok(path) => {
            assert_eq!(Some(path.config_dir), dirs::config_dir());
            assert_eq!(path.segments, vec!["fermyon", "prod.json"]);
        }
        Err(error) => {
            assert_eq!(error, DeployError::NoConfigDir);
            assert!(dirs::config_dir().is_none());
        }
    }
}

#[test]
fn a_login_expires_after_its_time() {
    assert_eq!(has_passed("t", Ok((5, 1)), (5, 2)), Ok(true));
    assert_eq!(has_passed("t", Ok((5, 2)), (5, 2)), Ok(false));
    assert_eq!(has_passed("t", Ok((6, 0)), (5, 9)), Ok(false));
    // 2001-09-09T01:46:40Z is a thousand million seconds after the epoch.
    let saved = login(Some("2001-09-09T03:46:40.5+02:00"));
    assert_eq!(has_expired_at(&saved, (1_000_000_000, 500_000_000)), Ok(false));
    assert_eq!(has_expired_at(&saved, (1_000_000_000, 500_000_001)), Ok(true));
    assert_eq!(has_expired(&saved), Ok(true));
    assert_eq!(has_expired(&login(Some("9999-12-31T23:59:59Z"))), Ok(false));
    assert_eq!(has_expired(&login(None)), Ok(false));
}

#[test]
fn an_expiration_that_is_no_time_is_told() {
    let error = has_expired(&login(Some("soon"))).unwrap_err();
    assert_eq!(
        error.message(),
        "Failed to parse token expiration time 'soon'. Error: premature end of input"
    );
}

#[test]
fn error_statuses_mean_an_unhealthy_platform() {
    let url = Url::parse("https://platform.example.com").unwrap();
    for status in [200, 204, 301, 399, 600] {
        assert_eq!(check_healthz(&url, HealthReply::Status(status)), Ok(()));
    }
    for status in [400, 499, 500, 599] {
        assert_eq!(
            check_healthz(&url, HealthReply::Status(status)),
            Err(Failure::Told {
                context: "Server https://platform.example.com/ is unhealthy".to_string()
            })
        );
    }
    assert_eq!(check_healthz(&url, HealthReply::Missing), Err(Failure::Passed));
}

#[test]
fn an_unreadable_login_is_told() {
    let error = DeployError::LoginUnreadable { cause: "denied".to_string() };
    assert_eq!(error.message(), "Could not log in: denied");
}

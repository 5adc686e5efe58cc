use loom_server::domain::{
    Environment, EnvironmentKind, Host, HostStatus, Project, ProjectSource, ProviderSpec, Thread,
    ThreadStatus,
};
use loom_server::json::Json;
use loom_server::overview::{
    apply_execution_options, health, running_threads, tabs_refusal, thread_child_summary,
    thread_tabs,
};
use loom_server::projections::{
    bb_thread_status, environment_value, host_value, project_detail_value, project_value,
    runtime_display_status, sidebar_bootstrap, system_version, thread_list_entry_value, Directory,
    ThreadRecord, VersionResponse,
};
use loom_server::providers::{
    aggregate_provider_availability, catalog_for_query, configured_provider_id,
    environment_provider_machine_availability, environment_providers, execution_options_for,
    project_default_execution_options, provider_display_name, provider_info, query_provider,
    system_provider_states, system_providers, thread_default_execution_options, Branding,
    CatalogModel, CatalogSource, CatalogThinkingLevel, OfferedProvider,
    ProviderCatalog,
};
use loom_server::reply::CommandError;
use loom_server::resources::{
    create_environment, get_environment, get_project, host_disconnected, host_registered, list_environments,
    list_hosts, list_projects, list_runs, list_threads, message_posted, place_environment,
    primary_host, primary_host_source,
    project_created, provision_refusal, publish_response, replay_plan, replay_response,
    source_added, source_not_found, update_project, CreateEnvironmentRequest, CreateProjectSource,
    EnvironmentListQuery, PrimaryHostSource, ProvisionOutcome, PublishedEvent, ReplayQuery, UpdateProjectRequest,
};
use loom_server::runs::RunRegistry;
use loom_server::wire::Scope;

fn host(id: &str, status: HostStatus) -> Host {
    Host {
        id: id.to_owned(),
        name: "laptop".to_owned(),
        status,
        max_permission_mode: "full".to_owned(),
        last_seen_at_ms: Some(3),
        created_at_ms: 1,
        updated_at_ms: 2,
    }
}

fn environment(id: &str, project: &str, host: &str, status: &str) -> Environment {
    Environment {
        id: id.to_owned(),
        name: None,
        project_id: project.to_owned(),
        host_id: host.to_owned(),
        kind: EnvironmentKind::Unmanaged,
        status: status.to_owned(),
        path: Some("/srv/loom".to_owned()),
        merge_base_branch: None,
        created_at_ms: 1,
        updated_at_ms: 2,
    }
}

fn project(id: &str) -> Project {
    Project {
        id: id.to_owned(),
        kind: "standard".to_owned(),
        name: "work".to_owned(),
        git_remote_url: None,
        sources: vec![ProjectSource {
            id: "psrc_1".to_owned(),
            project_id: id.to_owned(),
            host_id: "host_1".to_owned(),
            path: "/srv/work".to_owned(),
            is_default: true,
            created_at_ms: 1,
            updated_at_ms: 2,
        }],
        deleted_at_ms: None,
        created_at_ms: 1,
        updated_at_ms: 2,
    }
}

fn thread(id: &str, environment: Option<&str>, status: ThreadStatus) -> Thread {
    Thread {
        id: id.to_owned(),
        project_id: "proj_1".to_owned(),
        environment_id: environment.map(str::to_owned),
        provider_id: None,
        model: None,
        reasoning_level: None,
        title: None,
        section_id: None,
        status,
        parent_thread_id: None,
        source_thread_id: None,
        origin_kind: None,
        origin_plugin_id: None,
        visibility: "visible".to_owned(),
        archived_at_ms: None,
        pinned_at_ms: None,
        pin_sort_key: None,
        deleted_at_ms: None,
        last_read_at_ms: None,
        created_at_ms: 1,
        updated_at_ms: 2,
        provider_session_id: None,
        provider_session_binding: None,
    }
}

fn spec(name: &str) -> ProviderSpec {
    ProviderSpec { name: name.to_owned(), cwd: None, launch: Json::Null }
}

fn directory() -> Directory {
    Directory {
        records: vec![ThreadRecord {
            thread: thread("thr_1", Some("env_1"), ThreadStatus::Idle),
            entries: Vec::new(),
            has_pending_interaction: true,
            queued_messages: 2,
        }],
        environments: vec![environment("env_1", "proj_1", "host_1", "ready")],
        hosts: vec![host("host_1", HostStatus::Connected)],
        providers: vec![spec("pi")],
    }
}

fn text_of<'a>(value: &'a Json, key: &str) -> &'a str {
    value.get(key).unwrap().as_str().unwrap()
}

fn list<'a>(value: &'a Json, key: &str) -> &'a Vec<Json> {
    value.get(key).unwrap().as_array().unwrap()
}

fn flag(value: &Json, key: &str) -> bool {
    value.get(key).unwrap().as_bool().unwrap()
}

fn branding(sign_in: &str, url: &str, tint: Option<(&str, &str)>) -> Option<Branding> {
    Some(Branding {
        sign_in_command: sign_in.to_owned(),
        install_url: url.to_owned(),
        light: tint.map(|pair| pair.0.to_owned()),
        dark: tint.map(|pair| pair.1.to_owned()),
    })
}

fn offered(name: &str, branding: Option<Branding>) -> OfferedProvider {
    OfferedProvider { name: name.to_owned(), mark: format!("mark-{name}"), branding }
}

#[test]
fn a_branded_provider_carries_bb_own_colours() {
    let logo_url = |id: &str| format!("/api/v1/system/providers/{id}/logo?h=mark-{id}");

    let branded = provider_info(&offered(
        "opencode",
        branding("opencode auth login", "https://opencode.ai/docs", Some(("#2563EB", "#2563EB"))),
    ));
    let strings = branded.get("strings").unwrap();
    assert_eq!(text_of(strings.get("iconTint").unwrap(), "light"), "#2563EB");
    assert_eq!(text_of(strings.get("iconTint").unwrap(), "dark"), "#2563EB");
    assert_eq!(text_of(strings, "installUrl"), "https://opencode.ai/docs");
    assert_eq!(
        text_of(strings, "signInHint"),
        "Run `opencode auth login` on the machine to sign in."
    );
    assert_eq!(
        text_of(strings, "expiredHint"),
        "Your OpenCode session expired. Run `opencode auth login`, then reload."
    );
    assert_eq!(text_of(&branded, "logoUrl"), logo_url("opencode"));

    let cursor = provider_info(&offered(
        "cursor",
        branding("cursor-agent login", "https://cursor.com", Some(("#111827", "#F5F5F5"))),
    ));
    let strings = cursor.get("strings").unwrap();
    assert_eq!(text_of(strings.get("iconTint").unwrap(), "light"), "#111827");
    assert_eq!(text_of(strings.get("iconTint").unwrap(), "dark"), "#F5F5F5");

    let untinted = provider_info(&offered(
        "hermes",
        branding("hermes login", "https://hermes.example", None),
    ));
    let strings = untinted.get("strings").unwrap();
    assert_eq!(
        text_of(strings, "signInHint"),
        "Run `hermes login` on the machine to sign in."
    );
    assert!(strings.get("iconTint").is_none());

    let unknown = provider_info(&offered("nope", None));
    assert!(unknown.get("strings").is_none());
    assert_eq!(text_of(&unknown, "logoUrl"), logo_url("nope"));
}

#[test]
fn agents_are_shown_by_their_names() {
    for (id, name) in [
        ("pi", "Pi"),
        ("omp", "OMP"),
        ("hermes", "Hermes"),
        ("opencode", "OpenCode"),
        ("gemini", "Gemini"),
        ("cursor", "Cursor"),
        ("codex", "Codex"),
        ("nope", "nope"),
    ] {
        assert_eq!(provider_display_name(id), name);
    }
}

fn catalog_model(id: &str, name: &str, levels: &[&str], default: Option<&str>) -> CatalogModel {
    CatalogModel {
        id: id.to_owned(),
        name: name.to_owned(),
        thinking_levels: levels
            .iter()
            .map(|level| CatalogThinkingLevel {
                id: (*level).to_owned(),
                name: (*level).to_owned(),
                description: None,
            })
            .collect(),
        default_thinking_level: default.map(str::to_owned),
    }
}

#[test]
fn execution_options_are_the_hosts_own_catalogue() {
    let catalog = ProviderCatalog {
        current_model: Some("mock/fast".to_owned()),
        models: vec![
            catalog_model("mock/fast", "Fast", &["off"], Some("off")),
            catalog_model("mock/deep", "Deep", &["minimal", "high"], Some("high")),
        ],
    };
    let options = execution_options_for(&vec![offered("pi", None)], "pi", &Some(catalog));
    let models = list(&options, "models");
    assert_eq!(models.len(), 2);
    assert_eq!(text_of(&models[0], "model"), "mock/fast");
    assert_eq!(text_of(&models[0], "displayName"), "Fast");
    assert!(flag(&models[0], "isDefault"));
    assert!(!flag(&models[1], "isDefault"));
    let efforts = |model: &Json| {
        text_of(&list(model, "supportedReasoningEfforts")[0], "reasoningEffort").to_owned()
    };
    assert_eq!(efforts(&models[0]), "off");
    assert_eq!(text_of(&models[0], "defaultReasoningEffort"), "off");
    assert_eq!(efforts(&models[1]), "minimal");
    assert_eq!(text_of(&models[1], "defaultReasoningEffort"), "high");
    assert_eq!(list(&options, "selectedOnlyModels").len(), 2);
    assert_eq!(list(&options, "providers").len(), 1);

    let fallback = execution_options_for(&vec![offered("pi", None)], "pi", &None);
    let model = &list(&fallback, "models")[0];
    assert_eq!(text_of(model, "displayName"), "Default");
    assert_eq!(efforts(model), "medium");
}

#[test]
fn a_catalogue_is_found_by_host() {
    let environments = vec![environment("env_1", "proj_1", "host_1", "ready")];
    assert_eq!(
        catalog_for_query(&Some("host_9".to_owned()), &None, &environments),
        CatalogSource::OfHost("host_9".to_owned())
    );
    assert_eq!(
        catalog_for_query(&None, &Some("env_1".to_owned()), &environments),
        CatalogSource::OfHost("host_1".to_owned())
    );
    assert_eq!(catalog_for_query(&None, &None, &environments), CatalogSource::MostRecent);
}

#[test]
fn a_stale_provider_id_falls_back_to_the_default() {
    let providers = vec![spec("pi"), spec("codex")];
    assert_eq!(query_provider(&providers, &None).name, "pi");
    assert_eq!(query_provider(&providers, &Some("codex".to_owned())).name, "codex");
    assert_eq!(query_provider(&providers, &Some("nope".to_owned())).name, "pi");
    assert_eq!(configured_provider_id(&providers), "pi");
    let listed = system_providers(&vec![offered("pi", None), offered("codex", None)]);
    let ids: Vec<&str> =
        listed.body.as_array().unwrap().iter().map(|row| text_of(row, "id")).collect();
    assert_eq!(ids, vec!["pi", "codex"]);
    assert_eq!(system_provider_states(&providers).status, 200);
    assert_eq!(project_default_execution_options(&providers).status, 200);
    assert_eq!(
        thread_default_execution_options(&Some("m".to_owned()), &None, &providers).status,
        200
    );
}

#[test]
fn workspaces_are_offered_where_a_machine_can_hold_them() {
    let up = environment_provider_machine_availability(&host("h", HostStatus::Connected), true);
    assert_eq!(text_of(&up, "status"), "available");
    let down =
        environment_provider_machine_availability(&host("h", HostStatus::Disconnected), true);
    assert_eq!(text_of(&down, "status"), "unavailable");
    let bare = environment_provider_machine_availability(&host("h", HostStatus::Connected), false);
    assert_eq!(text_of(&bare, "status"), "unavailable");
    assert_eq!(
        text_of(&aggregate_provider_availability(&vec![("a".to_owned(), bare)]), "status"),
        "setup-required"
    );
    let mixed = vec![("a".to_owned(), down), ("b".to_owned(), up)];
    assert_eq!(text_of(&aggregate_provider_availability(&mixed), "status"), "available");

    let machines = vec![
        host("host_1", HostStatus::Connected),
        host("down", HostStatus::Disconnected),
        host("bare", HostStatus::Connected),
    ];
    let reply = environment_providers(&machines, &Some(project("proj_1")), &None);
    assert_eq!(reply.status, 200);
    let providers = list(&reply.body, "providers");
    assert_eq!(providers.len(), 2);
    let status = |provider: &Json, machine: &str| {
        text_of(provider.get("machineAvailability").unwrap().get(machine).unwrap(), "status")
            .to_owned()
    };
    assert_eq!(status(&providers[0], "host_1"), "available");
    assert_eq!(status(&providers[0], "down"), "unavailable");
    assert_eq!(status(&providers[0], "bare"), "available");
    assert_eq!(status(&providers[1], "host_1"), "available");
    assert_eq!(status(&providers[1], "bare"), "unavailable");
    let one = environment_providers(&machines, &None, &Some("down".to_owned()));
    let providers = list(&one.body, "providers");
    assert!(providers[0].get("machineAvailability").unwrap().get("bare").is_none());
    assert_eq!(text_of(providers[1].get("availability").unwrap(), "status"), "setup-required");
}

#[test]
fn no_worker_means_no_primary_host() {
    let none = primary_host(&None, &None);
    assert_eq!(none.status, 200);
    assert_eq!(none.body.get("host"), Some(&Json::Null));
    assert_eq!(text_of(&none.body, "source"), "no_host");
    let machine = |id: &str| Some(host(id, HostStatus::Connected));
    let own = primary_host(&machine("host_1"), &Some("host_1".to_owned()));
    assert_eq!(own.status, 200);
    assert_eq!(text_of(own.body.get("host").unwrap(), "id"), "host_1");
    assert_eq!(text_of(&own.body, "source"), "local");
    let other = primary_host(&machine("host_2"), &Some("host_1".to_owned()));
    assert_eq!(text_of(&other.body, "source"), "remote");
    assert_eq!(
        primary_host_source(&machine("host_2"), &None),
        PrimaryHostSource::Remote
    );
    assert_eq!(PrimaryHostSource::NoHost.as_str(), "no_host");
    assert_eq!(PrimaryHostSource::Remote.as_str(), "remote");
    assert_eq!(PrimaryHostSource::Local.as_str(), "local");
    assert_eq!(list_hosts(&Vec::new()).body.as_array().unwrap().len(), 0);
}

fn wish(kind: EnvironmentKind, host: Option<&str>, path: Option<&str>) -> CreateEnvironmentRequest {
    CreateEnvironmentRequest {
        kind,
        host_id: host.map(str::to_owned),
        path: path.map(str::to_owned),
    }
}

#[test]
fn unmanaged_environments_need_an_absolute_path_and_a_host() {
    let primary = Some("host_1".to_owned());
    let unmanaged = |path: Option<&str>| wish(EnvironmentKind::Unmanaged, None, path);
    assert_eq!(create_environment(&unmanaged(None), &primary).unwrap_err().status, 400);
    assert_eq!(
        create_environment(&unmanaged(Some("srv/loom")), &primary).unwrap_err().status,
        400
    );
    assert_eq!(
        create_environment(&unmanaged(Some("/srv/loom")), &primary),
        Ok("host_1".to_owned())
    );
    assert_eq!(
        create_environment(&unmanaged(Some("/srv/loom")), &None).unwrap_err().status,
        409
    );
    assert_eq!(
        create_environment(&wish(EnvironmentKind::Managed, Some("host_2"), None), &primary),
        Ok("host_2".to_owned())
    );
    assert_eq!(
        place_environment(&unmanaged(Some("/srv/loom")), &primary, false).unwrap_err().status,
        400
    );
}

#[test]
fn environments_are_listed_by_project_and_found_by_id() {
    let all = vec![
        environment("env_1", "proj_1", "host_1", "ready"),
        environment("env_2", "proj_2", "host_1", "destroyed"),
    ];
    let query = |project: Option<&str>| EnvironmentListQuery {
        project_id: project.map(str::to_owned),
    };
    let count = |project: Option<&str>| {
        list_environments(&query(project), &all).body.as_array().unwrap().len()
    };
    assert_eq!(count(Some("proj_1")), 1);
    assert_eq!(count(None), 2);
    let found = get_environment(&Some(environment("env_1", "p", "h", "ready")), "env_1");
    assert_eq!(text_of(&found.body, "id"), "env_1");
    assert_eq!(get_environment(&None, "env_9").status, 404);
    assert_eq!(text_of(&environment_value(&all[0]), "id"), "env_1");
}

#[test]
fn a_provisioning_that_cannot_be_is_refused() {
    assert!(provision_refusal("env_1", ProvisionOutcome::Dispatched).is_none());
    assert_eq!(provision_refusal("env_1", ProvisionOutcome::Unknown).unwrap().status, 404);
    let refused = |status: &str| {
        let outcome = ProvisionOutcome::NotProvisionable {
            environment: environment("env_1", "p", "h", status),
            reason: "busy".to_owned(),
            illegal_transition: "destroyed cannot become provisioning".to_owned(),
        };
        let reply = provision_refusal("env_1", outcome).unwrap();
        (reply.status, text_of(&reply.body, "message").to_owned())
    };
    assert_eq!(refused("provisioning"), (409, "busy".to_owned()));
    assert_eq!(
        refused("destroyed"),
        (409, "destroyed cannot become provisioning".to_owned())
    );
    let failed = ProvisionOutcome::PublishFailed {
        status: "provisioning".to_owned(),
        error: "disk".to_owned(),
    };
    assert_eq!(provision_refusal("env_1", failed).unwrap().status, 500);
}

#[test]
fn projects_are_listed_found_and_renamed() {
    let projects = vec![project("proj_1"), project("proj_p")];
    let listed = list_projects(&projects, "proj_p");
    assert_eq!(listed.status, 200);
    assert_eq!(text_of(&get_project(&Some(project("proj_1")), "proj_1").body, "id"), "proj_1");
    let missing = get_project(&None, "proj_9");
    assert_eq!(missing.status, 404);
    let rename = |name: Option<&str>, known: bool| {
        update_project(
            UpdateProjectRequest { name: name.map(str::to_owned) },
            &if known { Some(project("proj_1")) } else { None },
            "proj_1",
        )
    };
    assert_eq!(rename(Some("new"), true), Ok("new".to_owned()));
    assert!(rename(Some("new"), false).is_ok() || rename(None, false).is_err());
    assert_eq!(project_created(&project("proj_1")).status, 201);
    assert_eq!(source_added(&project("proj_1")).status, 201);
    assert_eq!(source_not_found("psrc_9", "proj_1").status, 404);
    let value = project_value(&project("proj_1"));
    assert_eq!(list(&value, "sources").len(), 1);
    let clone = CreateProjectSource::Clone {
        host_id: "h".to_owned(),
        remote_url: Some("git@x".to_owned()),
        target_path: Some("/t".to_owned()),
    };
    assert_eq!(clone.host_id(), "h");
    assert_eq!(clone.path(), "/t");
    assert_eq!(clone.remote_url().as_deref(), Some("git@x"));
    let local = CreateProjectSource::LocalPath { host_id: "h".to_owned(), path: "/p".to_owned() };
    assert_eq!(local.path(), "/p");
    assert!(local.remote_url().is_none());
}

#[test]
fn the_thread_list_is_what_a_client_starts_from() {
    let directory = directory();
    let listed = list_threads(&directory);
    assert_eq!(listed.body.as_array().unwrap().len(), 1);
    let row = thread_list_entry_value(&directory.records[0], &directory);
    assert_eq!(text_of(&row, "id"), "thr_1");
    assert_eq!(text_of(&row, "environmentHostId"), "host_1");
    assert!(flag(&row, "hasPendingInteraction"));
    let detail = project_detail_value(&project("proj_1"), &directory);
    assert_eq!(text_of(&detail, "id"), "proj_1");
    let sidebar =
        sidebar_bootstrap(&vec![project("proj_1")], "proj_p", Vec::new(), &directory);
    assert_eq!(sidebar.status, 200);
}

#[test]
fn statuses_are_refined_by_where_a_thread_runs() {
    for (status, word) in [
        (ThreadStatus::Idle, "idle"),
        (ThreadStatus::Working, "active"),
        (ThreadStatus::Waiting, "active"),
        (ThreadStatus::Error, "error"),
        (ThreadStatus::Archived, "idle"),
    ] {
        assert_eq!(bb_thread_status(status), word, "{status:?}");
    }
    let ready = environment("env_1", "p", "host_1", "ready");
    let up = vec![host("host_1", HostStatus::Connected)];
    let down = vec![host("host_1", HostStatus::Disconnected)];
    assert_eq!(runtime_display_status(ThreadStatus::Working, Some(&ready), &up), "active");
    assert_ne!(runtime_display_status(ThreadStatus::Working, Some(&ready), &down), "active");
}

#[test]
fn health_names_a_backend_error_only_where_there_is_one() {
    let well = health("n".to_owned(), 5, 16, Ok(7), None);
    assert_eq!(well.status, 200);
    assert_eq!(text_of(&well.body, "status"), "ok");
    assert_eq!(well.body.get("readers").unwrap().as_uint(), Some(16));
    assert_eq!(well.body.get("protocol_version").unwrap().as_uint(), Some(3));
    assert!(well.body.get("backend_error").is_none());
    let ill = health("n".to_owned(), 5, 16, Ok(7), Some("disk".to_owned()));
    assert_eq!(text_of(&ill.body, "backend_error"), "disk");
    let version = VersionResponse { version: "0.1.0".to_owned(), protocol_version: 3 };
    assert_eq!(text_of(&version.to_json(), "version"), "0.1.0");
    assert_eq!(system_version("0.1.0").status, 200);
}

#[test]
fn small_answers_have_their_shapes() {
    assert_eq!(thread_tabs(2, Vec::new()).body.get("revision").unwrap().as_uint(), Some(2));
    assert_eq!(tabs_refusal(CommandError::Conflict("late".to_owned())).status, 409);
    assert_eq!(thread_child_summary(3).status, 200);
    assert!(apply_execution_options(None, None, None).is_none());
    assert!(apply_execution_options(None, Some("m".to_owned()), None).is_some());
    assert_eq!(running_threads(&RunRegistry::new()).body.as_array().map(Vec::len), Some(0));
    assert!(list_runs(&RunRegistry::new()).runs.is_empty());
    assert_eq!(host_disconnected("host_1").status, 200);
    assert_eq!(text_of(&host_value(&host("h", HostStatus::Connected)), "id"), "h");
}

#[test]
fn a_replay_is_planned_from_its_query() {
    let query = |kind: &str, limit: Option<u64>| ReplayQuery {
        scope_kind: kind.to_owned(),
        scope_id: Some("thr_1".to_owned()),
        limit,
        since: None,
    };
    let plan = replay_plan(&query("thread", Some(5)), Ok(None)).unwrap();
    assert_eq!(plan.scope, Scope::Thread("thr_1".to_owned()));
    assert_eq!(plan.limit, 5);
    assert_eq!(replay_plan(&query("moon", None), Ok(None)).unwrap_err().status, 400);
    assert_eq!(
        replay_plan(&query("thread", None), Err("bad cursor".to_owned())).unwrap_err().status,
        400
    );
    let reply = replay_response(&vec![b"{\"a\":1}".to_vec(), b"text".to_vec()], true);
    let frames = list(&reply.body, "frames");
    assert_eq!(frames[0].get("a").unwrap().as_uint(), Some(1));
    assert_eq!(frames[1].as_str().unwrap(), "text");
    assert!(flag(&reply.body, "has_more"));
    let published = publish_response("evt_1", &Scope::Global, 4);
    assert_eq!(text_of(&published.body, "event_id"), "evt_1");
}

#[test]
fn an_enrolment_and_a_message_are_answered_with_their_events() {
    let enrolled = host_registered(&host("host_1", HostStatus::Connected), "evt_1");
    assert_eq!(enrolled.status, 200);
    assert_eq!(text_of(enrolled.body.get("host").unwrap(), "id"), "host_1");
    assert_eq!(text_of(&enrolled.body, "event_id"), "evt_1");
    let event = PublishedEvent {
        event_id: "evt_2".to_owned(),
        event_type: "thread_message_added".to_owned(),
        scope: Scope::Thread("thr_1".to_owned()),
    };
    let posted = message_posted("thr_1", &vec![event]);
    assert_eq!(text_of(&posted.body, "thread_id"), "thr_1");
    let events = list(&posted.body, "events");
    assert_eq!(events.len(), 1);
    assert_eq!(text_of(&events[0], "event_type"), "thread_message_added");
    assert_eq!(text_of(events[0].get("scope").unwrap(), "id"), "thr_1");
}

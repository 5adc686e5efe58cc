use loom_server::hub_actor::{DeliveryOutcome, HubUnavailable};
use loom_server::join_codes::{JoinCodeRegistry, JOIN_CODE_TTL_MS};
use loom_server::local_worker::{
    local_worker_config, path_under, server_url_for_bind, worker_argv, worker_sibling,
    worker_sibling_on, BindAddress,
    LocalWorkerConfig, LocalWorkerRequest, Restarts,
};
use loom_server::persistence::SnapshotError;
use loom_server::pump::{PumpConfig, ShardPass};
use loom_server::startup::{listening_line, reject_removed_shared_log};

#[test]
fn purge_expired_removes_codes_without_a_token_lookup() {
    let mut registry = JoinCodeRegistry::new();
    let (code, _, expires_at_ms) = registry.issue("token", "host_1".to_owned(), 1_000);
    assert_eq!(registry.purge_expired(expires_at_ms), 1);
    assert!(registry.consume(&code, 1_000).is_none());
}

#[test]
fn a_code_is_consumed_exactly_once() {
    let mut registry = JoinCodeRegistry::new();
    let (code, host_id, _) = registry.issue("token", "host_1".to_owned(), 1_000);
    assert_eq!(registry.consume(&code, 1_001), Some(host_id));
    assert!(registry.consume(&code, 1_002).is_none());
}

#[test]
fn a_code_is_good_until_it_expires() {
    let mut registry = JoinCodeRegistry::new();
    let (code, _, expires_at_ms) = registry.issue("token", "host_1".to_owned(), 1_000);
    assert_eq!(code, "loom-token");
    assert_eq!(expires_at_ms, 1_000 + JOIN_CODE_TTL_MS);
    assert_eq!(registry.purge_expired(expires_at_ms - 1), 0);
    assert!(registry.consume(&code, expires_at_ms).is_none());
    let (late, host, _) = registry.issue("other", "host_2".to_owned(), 2_000);
    assert_eq!(registry.consume(&late, 2_000 + JOIN_CODE_TTL_MS - 1), Some(host));
}

fn v4(a: u8, b: u8, c: u8, d: u8) -> BindAddress {
    BindAddress::V4 { a, b, c, d }
}

fn v6(unspecified: bool, text: &str) -> BindAddress {
    BindAddress::V6 { unspecified, text: text.to_owned() }
}

#[test]
fn a_loopback_bind_becomes_a_loopback_url() {
    assert_eq!(
        server_url_for_bind(&v4(127, 0, 0, 1), 38886),
        "http://127.0.0.1:38886"
    );
}

#[test]
fn an_unspecified_bind_is_dialled_on_loopback() {
    assert_eq!(
        server_url_for_bind(&v4(0, 0, 0, 0), 38886),
        "http://127.0.0.1:38886"
    );
    assert_eq!(
        server_url_for_bind(&v6(true, "::"), 38886),
        "http://127.0.0.1:38886"
    );
}

#[test]
fn a_specific_bind_is_dialled_where_it_is_bound() {
    assert_eq!(
        server_url_for_bind(&v4(192, 168, 1, 5), 9000),
        "http://192.168.1.5:9000"
    );
    assert_eq!(
        server_url_for_bind(&v6(false, "::1"), 9000),
        "http://[::1]:9000"
    );
}

#[test]
fn the_sibling_worker_name_sits_beside_this_executable() {
    let sibling = worker_sibling("/usr/local/bin/loom").unwrap();
    assert_eq!(sibling, "/usr/local/bin/loom-worker");
}

#[test]
fn a_path_with_no_directory_has_no_sibling() {
    assert!(worker_sibling("/").is_none());
    assert!(worker_sibling("").is_none());
    assert_eq!(worker_sibling("loom").unwrap(), "loom-worker");
    assert_eq!(worker_sibling("/loom").unwrap(), "/loom-worker");
}

#[test]
fn the_workers_program_is_named_as_its_platform_names_programs() {
    let beside = |separator: char| worker_sibling_on("/usr/local/bin/loom", separator).unwrap();
    assert_eq!(beside('/'), "/usr/local/bin/loom-worker");
    assert_eq!(beside('\\'), "/usr/local/bin\\loom-worker.exe");
    assert_eq!(worker_sibling_on("/loom", '\\').unwrap(), "/loom-worker.exe");
    assert_eq!(worker_sibling_on("loom", '\\').unwrap(), "loom-worker.exe");
}

fn config() -> LocalWorkerConfig {
    LocalWorkerConfig {
        server_url: "http://127.0.0.1:38886".to_owned(),
        name: "local".to_owned(),
        data_dir: None,
        state_path: None,
        run_timeout_ms: None,
        run_ceiling_ms: None,
    }
}

fn value_of<'a>(argv: &'a [String], flag: &str) -> Option<&'a str> {
    argv.iter()
        .position(|arg| arg == flag)
        .and_then(|index| argv.get(index + 1))
        .map(|value| value.as_str())
}

#[test]
fn the_child_inherits_the_servers_run_budgets() {
    let plain = worker_argv(&config());
    assert_eq!(value_of(&plain, "--run-timeout-ms"), None);
    assert_eq!(value_of(&plain, "--run-ceiling-ms"), None);

    let bounded = LocalWorkerConfig {
        run_timeout_ms: Some(1_500),
        run_ceiling_ms: Some(9_000),
        ..config()
    };
    let argv = worker_argv(&bounded);
    assert_eq!(value_of(&argv, "--run-timeout-ms"), Some("1500"));
    assert_eq!(value_of(&argv, "--run-ceiling-ms"), Some("9000"));
    assert_eq!(
        value_of(&argv, "--server-url"),
        Some("http://127.0.0.1:38886")
    );
    assert_eq!(value_of(&argv, "--name"), Some("local"));
}

#[test]
fn a_worker_of_its_own_gets_a_directory_of_its_own() {
    let request = |wanted: bool| LocalWorkerRequest {
        wanted,
        url: None,
        name: "local".to_owned(),
        data_dir: Some("/var/lib/loom".to_owned()),
        run_timeout_ms: None,
        run_ceiling_ms: None,
    };
    assert!(local_worker_config(request(false), &v4(0, 0, 0, 0), 1).is_none());
    let config = local_worker_config(request(true), &v4(0, 0, 0, 0), 80).unwrap();
    assert_eq!(config.server_url, "http://127.0.0.1:80");
    assert_eq!(config.data_dir.as_deref(), Some("/var/lib/loom/local-worker"));
    assert_eq!(
        config.state_path.as_deref(),
        Some("/var/lib/loom/local-worker/host-id")
    );
    let argv = worker_argv(&config);
    assert_eq!(value_of(&argv, "--data-dir"), Some("/var/lib/loom/local-worker"));
    let slashed = LocalWorkerRequest {
        data_dir: Some("/var/lib/loom/".to_owned()),
        ..request(true)
    };
    let config = local_worker_config(slashed, &v4(0, 0, 0, 0), 80).unwrap();
    assert_eq!(config.data_dir.as_deref(), Some("/var/lib/loom/local-worker"));
}

#[test]
fn a_name_is_joined_to_its_directory_by_one_separator() {
    for (directory, separator, path) in [
        ("", '/', "x"),
        ("/", '/', "/x"),
        ("/a", '/', "/a/x"),
        ("/a/", '/', "/a/x"),
        ("C:", '/', "C:/x"),
        ("C:", '\\', "C:x"),
        ("1:", '\\', "1:\\x"),
        ("C:\\a", '\\', "C:\\a\\x"),
        ("C:\\a\\", '\\', "C:\\a\\x"),
        ("C:/a/", '\\', "C:/a/x"),
    ] {
        assert_eq!(path_under(directory, separator, "x"), path);
    }
    let joined = std::path::Path::new("/var/lib").join("x");
    assert_eq!(
        path_under("/var/lib", std::path::MAIN_SEPARATOR, "x"),
        joined.to_str().unwrap()
    );
}

#[test]
fn a_worker_that_cannot_start_is_waited_for_longer_and_longer() {
    let mut restarts = Restarts::new();
    let waits: Vec<u64> = (0..7).map(|_| restarts.wait_ms(false)).collect();
    assert_eq!(waits, vec![1_000, 2_000, 4_000, 8_000, 16_000, 30_000, 30_000]);
    assert_eq!(restarts.wait_ms(true), 1_000);
    assert_eq!(restarts.wait_ms(false), 2_000);
}

#[test]
fn the_removed_shared_log_flag_is_refused_with_a_reason() {
    let error = reject_removed_shared_log(Some("redis://localhost:6379"))
        .expect_err("a shared log is refused");
    assert!(error.contains("--redis-url was removed"), "{error}");
    assert!(error.contains("--data-dir"), "{error}");
}

#[test]
fn a_blank_shared_log_value_is_not_a_request() {
    assert!(reject_removed_shared_log(None).is_ok());
    assert!(reject_removed_shared_log(Some("")).is_ok());
    assert!(reject_removed_shared_log(Some("   ")).is_ok());
}

#[test]
fn a_server_says_which_shape_it_has() {
    assert_eq!(
        listening_line("127.0.0.1:1", "n", &None, &None),
        "loom-server (server-only) listening on http://127.0.0.1:1 (node n, no local worker)"
    );
    assert_eq!(
        listening_line("127.0.0.1:1", "n", &Some("host_1".to_owned()), &None),
        "loom-server (server-only) listening on http://127.0.0.1:1 (node n, local host host_1)"
    );
    assert_eq!(
        listening_line("127.0.0.1:1", "n", &None, &Some("w".to_owned())),
        "loom-server (server + local worker \"w\") listening on http://127.0.0.1:1 (node n)"
    );
}

#[test]
fn a_full_batch_is_followed_by_another_pass() {
    let mut pass = ShardPass::new(None, 2);
    assert_eq!(pass.limit(), 2);
    pass.record("e1".to_owned(), DeliveryOutcome::Queued);
    pass.record("e2".to_owned(), DeliveryOutcome::Backpressured);
    assert_eq!(pass.finish(), (Some("e2".to_owned()), true));

    let mut short = ShardPass::new(Some("e2".to_owned()), 2);
    short.record("e3".to_owned(), DeliveryOutcome::Queued);
    assert_eq!(short.finish(), (Some("e3".to_owned()), false));

    let mut stopped = ShardPass::new(None, 0);
    assert_eq!(stopped.limit(), 1);
    stopped.record("e1".to_owned(), DeliveryOutcome::Stopped);
    assert!(stopped.is_stopped());
    assert_eq!(stopped.finish(), (Some("e1".to_owned()), false));
    assert_eq!(
        PumpConfig::default(),
        PumpConfig { batch_limit: 256, safety_tick_ms: 1_000 }
    );
}

#[test]
fn failures_say_what_went_wrong() {
    assert_eq!(HubUnavailable.message(), "hub actor is no longer running");
    assert_eq!(
        SnapshotError::Io("disk".to_owned()).message(),
        "snapshot io error: disk"
    );
    assert_eq!(
        SnapshotError::Corrupt("bad".to_owned()).message(),
        "snapshot is corrupt: bad"
    );
    assert_eq!(
        SnapshotError::Encode("nan".to_owned()).message(),
        "snapshot could not be encoded: nan"
    );
}

//! Where the servers of the models are, and how they are started and asked.

use roosycozy::drace::backends::LlamaServerConfig;
use roosycozy::drace::cache_manager::{BackendCapabilities, BackendKind};
use roosycozy::engine::endpoints::{
    base_path_of, classify_llama_server_reqwest_error, effective_llama_server_endpoint_for_model,
    checked_llama_server_endpoint, endpoint_from_parts, judge_completion, judge_existing_process, judge_slots,
    llama_server_endpoint_for_model, managed_endpoint, normalize_loopback_llama_server_endpoint,
    parse_llama_server_endpoint, prewarm_strategy_backend, prewarm_without_servers,
    probe_timeout_ms, runtime_check_result, runtime_check_start, server_arguments,
    server_can_be_started, server_ctx_size, server_spawn_failure, slots_url, startup_wait_ms,
    strategy_backend_runtime, strategy_endpoint_is_managed_candidate,
    strategy_error_indicates_ctx_exhausted, usual_managed_endpoint, EndpointChoice,
    EndpointRegistry, ExistingProcess, ProbeReply, ProcessState, ReadyWait, ServerCheck,
    ServerStep, UrlParts,
};

fn config(hyper: &str, roosy: &str) -> LlamaServerConfig {
    LlamaServerConfig {
        hyperclova_url: hyper.to_string(),
        roosy_url: roosy.to_string(),
        cache_prompt: true,
        startup_timeout_ms: 90_000,
        request_timeout_ms: 240_000,
        hyperclova_slot: Some(1),
        roosy_slot: Some(2),
    }
}

#[test]
fn addresses_are_taken_apart() {
    let e = parse_llama_server_endpoint(" http://127.0.0.1:18081/completion ").unwrap();
    assert_eq!(e.completion_url, "http://127.0.0.1:18081/completion");
    assert_eq!(e.base_url, "http://127.0.0.1:18081");
    assert_eq!((e.host.as_str(), e.port, e.loopback), ("127.0.0.1", 18081, true));
    assert_eq!(slots_url(&e), "http://127.0.0.1:18081/slots");
    let e = parse_llama_server_endpoint("https://Host.example/api/v1/completion/?q=1#f").unwrap();
    assert_eq!(e.base_url, "https://host.example/api/v1");
    assert_eq!((e.host.as_str(), e.port, e.loopback), ("host.example", 443, false));
    let e = parse_llama_server_endpoint("foo://host:7?q#f").unwrap();
    assert_eq!((e.base_url.as_str(), e.port), ("foo://host:7", 7));
    let e = checked_llama_server_endpoint("http://h/a%20b/completion#f").unwrap().unwrap();
    assert_eq!((e.base_url.as_str(), e.port), ("http://h/a%20b", 80));
    let e = parse_llama_server_endpoint("http://localhost/other").unwrap();
    assert_eq!((e.base_url.as_str(), e.port, e.loopback), ("http://localhost/other", 80, true));
}

#[test]
fn addresses_that_are_none_are_refused() {
    assert_eq!(parse_llama_server_endpoint("  ").unwrap_err(), "endpoint_missing");
    assert_eq!(
        parse_llama_server_endpoint("no url").unwrap_err(),
        "invalid_url: relative URL without a base"
    );
    assert_eq!(parse_llama_server_endpoint("data:text/plain,x").unwrap_err(), "missing_host");
    assert_eq!(parse_llama_server_endpoint("foo://host/x").unwrap_err(), "missing_port");
    for address in ["  ", "no url", "data:text/plain,x", "foo://host/x"] {
        let read = checked_llama_server_endpoint(address).unwrap();
        assert_eq!(read.unwrap_err(), parse_llama_server_endpoint(address).unwrap_err());
    }
}

#[test]
fn endpoints_are_made_of_parts() {
    assert_eq!(base_path_of("/a/completion//"), "/a");
    assert_eq!(base_path_of("/completion/completion"), "");
    assert_eq!(base_path_of("/x/"), "/x");
    let parts = UrlParts {
        host: Some("::1".to_string()),
        port: Some(9),
        path: "/completion".to_string(),
        bare: "http://[::1]:9/completion".to_string(),
    };
    let e = endpoint_from_parts("address", &parts, "http://base//").unwrap();
    assert_eq!((e.base_url.as_str(), e.port, e.loopback), ("http://base", 9, true));
    let parts = UrlParts { host: None, ..parts };
    assert_eq!(endpoint_from_parts("a", &parts, "b").unwrap_err(), "missing_host");
    let parts = UrlParts { host: Some("h".to_string()), port: None, ..parts };
    assert_eq!(endpoint_from_parts("a", &parts, "b").unwrap_err(), "missing_port");
}

#[test]
fn probes_are_judged() {
    let status = |success, server_error, status: &str| ProbeReply::Status {
        success,
        server_error,
        status: status.to_string(),
    };
    let failure = |timeout, connect| ProbeReply::Failure {
        timeout,
        connect,
        detail: "detail".to_string(),
    };
    assert_eq!(judge_slots("u", &status(true, false, "200 OK")), Some(Ok(())));
    assert_eq!(
        judge_slots("u", &status(false, true, "500 X")),
        Some(Err("slots_probe_failed: 500 X (u)".to_string()))
    );
    assert_eq!(judge_slots("u", &status(false, false, "404 X")), None);
    assert_eq!(judge_slots("u", &failure(true, false)), None);
    assert_eq!(judge_slots("u", &failure(false, true)), None);
    assert_eq!(
        judge_slots("u", &failure(false, false)),
        Some(Err("slots_probe_failed: request_failed (u) detail".to_string()))
    );
    assert_eq!(judge_completion("c", &status(true, false, "200")), Ok(()));
    assert_eq!(
        judge_completion("c", &status(false, false, "404 Not Found")),
        Err("completion_probe_failed: http_404 Not Found (c)".to_string())
    );
    assert_eq!(
        judge_completion("c", &failure(true, true)),
        Err("completion_probe_failed: timeout (c)".to_string())
    );
    assert_eq!(
        classify_llama_server_reqwest_error("s", "e", false, true, "d"),
        "s: connection_refused (e)"
    );
    assert_eq!((probe_timeout_ms(10), probe_timeout_ms(900)), (250, 900));
}

#[test]
fn a_full_window_is_recognised() {
    assert!(strategy_error_indicates_ctx_exhausted("x Context SIZE y"));
    assert!(strategy_error_indicates_ctx_exhausted("Try increasing it"));
    assert!(!strategy_error_indicates_ctx_exhausted("timeout"));
}

#[test]
fn given_addresses_stay_as_they_are() {
    assert!(strategy_endpoint_is_managed_candidate(" ", "http://m", "http://l"));
    assert!(strategy_endpoint_is_managed_candidate("HTTP://L", "http://m", "http://l"));
    assert!(!strategy_endpoint_is_managed_candidate("http://x", "http://m", "http://l"));
    let normal = |s| normalize_loopback_llama_server_endpoint(s, "http://m", "http://l");
    assert_eq!(normal(""), "http://m");
    assert_eq!(normal("http://L"), "http://m");
    assert_eq!(normal(" http://X "), "http://X");
    let (choice, slot) = effective_llama_server_endpoint_for_model(
        &config("http://127.0.0.1:18081/completion", "http://given/completion"),
        "roosy-x",
    );
    assert!(matches!(choice, EndpointChoice::Fixed(s) if s == "http://given/completion"));
    assert_eq!(slot, Some(2));
    let (choice, slot) = effective_llama_server_endpoint_for_model(
        &config("http://127.0.0.1:18081/completion", ""),
        "hyperclova-x",
    );
    assert!(matches!(choice, EndpointChoice::Managed));
    assert_eq!(slot, Some(1));
    assert_eq!(
        llama_server_endpoint_for_model(&config("h", "r"), "roosy-x"),
        ("r".to_string(), Some(2))
    );
}

#[test]
fn servers_get_ports_of_their_own() {
    let mut r = EndpointRegistry::new();
    assert_eq!(r.saved("roosy-x"), None);
    let ports = r.candidate_ports("roosy-x");
    assert_eq!((ports[0], *ports.last().unwrap(), ports.len()), (19082, 19140, 59));
    assert_eq!(r.candidate_ports("hyperclova-x")[0], 19081);
    assert_eq!(managed_endpoint(19082), "http://127.0.0.1:19082/completion");
    r.save("roosy-x", &managed_endpoint(19082));
    assert_eq!(r.saved("roosy-x"), Some("http://127.0.0.1:19082/completion".to_string()));
    assert!(r.port_is_reserved(19082) && !r.port_is_reserved(19083));
    let ports = r.candidate_ports("hyperclova-x");
    assert_eq!(&ports[..2], &[19081, 19083]);
    r.save("hyperclova-x", "no address");
    assert_eq!(r.saved("hyperclova-x"), Some("no address".to_string()));
    assert_eq!(r.candidate_ports("roosy-x")[0], 19083);
    assert_eq!(usual_managed_endpoint("roosy-x"), "http://127.0.0.1:18082/completion");
    assert_eq!(usual_managed_endpoint("x"), "http://127.0.0.1:18081/completion");
}

#[test]
fn a_server_is_ready_when_it_answers_twice() {
    let mut w = ReadyWait::new();
    assert_eq!(w.failure(), "llama_server_startup_timeout: startup_probe_pending");
    assert!(!w.probed(Ok(())));
    assert!(!w.probed(Err("down".to_string())));
    assert!(!w.watched(&ProcessState::Running));
    assert_eq!(w.last_error(), "down");
    assert!(!w.probed(Ok(())));
    assert!(w.probed(Ok(())));
    assert!(w.watched(&ProcessState::Exited("exit 1".to_string())));
    assert_eq!(w.last_error(), "server_exited_early: exit 1");
    assert!(w.watched(&ProcessState::WaitFailed("x".to_string())));
    assert_eq!(w.last_error(), "server_wait_failed: x");
    assert!(w.watched(&ProcessState::Missing));
    assert_eq!(w.failure(), "llama_server_startup_timeout: server_registry_missing");
    assert!(!w.watched(&ProcessState::Unknown));
    assert_eq!((startup_wait_ms(5), startup_wait_ms(5000)), (1000, 5000));
}

#[test]
fn servers_are_started_with_their_arguments() {
    assert_eq!((server_ctx_size(1), server_ctx_size(3000), server_ctx_size(9999)), (2048, 3000, 4096));
    let e = parse_llama_server_endpoint("http://127.0.0.1:19081/completion").unwrap();
    assert_eq!(server_can_be_started(&e, "x"), Ok(()));
    let far = parse_llama_server_endpoint("http://far:1/completion").unwrap();
    assert_eq!(
        server_can_be_started(&far, "http://far:1/completion"),
        Err("manual_endpoint_required: http://far:1/completion".to_string())
    );
    assert_eq!(
        server_arguments(&e, 4096, 1, "m.gguf"),
        vec![
            "--host", "127.0.0.1", "--port", "19081", "--slots", "--cache-ram", "4096",
            "--ctx-checkpoints", "32", "--parallel", "1", "--ctx-size", "4096", "--threads", "2",
            "--threads-batch", "2", "--no-warmup", "--model", "m.gguf",
        ]
    );
    assert_eq!(server_spawn_failure(&"e".repeat(200), "r"), format!("llama_server_spawn_failed: {} (r)", "e".repeat(180)));
}

#[test]
fn running_servers_are_used_again() {
    let judge = |state: &ProcessState, ctx| judge_existing_process(state, "e", ctx, "e", 3000);
    assert!(matches!(judge(&ProcessState::Running, 3000), ExistingProcess::Reuse));
    assert!(matches!(
        judge(&ProcessState::Running, 2048),
        ExistingProcess::Replace(s)
            if s == "server_restarted_for_ctx_or_endpoint: endpoint=e ctx_size=2048 desired_ctx=3000"
    ));
    assert!(matches!(
        judge(&ProcessState::Exited("1".to_string()), 4096),
        ExistingProcess::Gone(s) if s == "server_exited: 1"
    ));
    assert!(matches!(
        judge(&ProcessState::WaitFailed("w".to_string()), 4096),
        ExistingProcess::Gone(s) if s == "server_wait_failed: w"
    ));
}

#[test]
fn a_server_is_asked_and_started() {
    let mut q = ServerCheck::new();
    assert!(matches!(q.step(), ServerStep::Probe));
    q.take(Err("a".to_string()));
    assert!(matches!(q.step(), ServerStep::Start));
    q.take(Err("b".to_string()));
    assert!(matches!(q.step(), ServerStep::Restart));
    q.take(Err("c".to_string()));
    assert!(matches!(
        q.step(),
        ServerStep::Done(Err(s)) if s == "a; b; restart_retry_failed: c"
    ));
    let mut q = ServerCheck::new();
    q.take(Err("a".to_string()));
    q.take(Ok(()));
    assert!(matches!(q.step(), ServerStep::Probe));
    q.take(Err("d".to_string()));
    assert!(matches!(q.step(), ServerStep::Restart));
    q.take(Ok(()));
    q.take(Err("e".to_string()));
    assert!(matches!(q.step(), ServerStep::Done(Err(s)) if s == "e"));
    let mut q = ServerCheck::new();
    q.take(Ok(()));
    assert!(matches!(q.step(), ServerStep::Done(Ok(()))));
}

#[test]
fn the_servers_are_checked_together() {
    assert_eq!(
        runtime_check_start(None, "a", "b"),
        Err("llama_server_endpoint_missing".to_string())
    );
    assert_eq!(
        runtime_check_start(Some(&config(" ", "r")), "a", "b"),
        Err("llama_server_endpoint_missing".to_string())
    );
    assert_eq!(
        runtime_check_start(Some(&config("h", "r")), "http://A", "http://a"),
        Err("llama_server_endpoint_collision: hyperclova=http://A / roosy=http://a".to_string())
    );
    assert_eq!(runtime_check_start(Some(&config("h", "r")), "a", "b"), Ok(3000));
    let mut c = config("h", "r");
    c.startup_timeout_ms = 10;
    assert_eq!(runtime_check_start(Some(&c), "a", "b"), Ok(500));
    let err = |s: &str| Err(s.to_string());
    assert_eq!(runtime_check_result(&Ok(()), &Ok(())), (true, String::new()));
    assert_eq!(
        runtime_check_result(&err("x"), &err("y")),
        (false, "llama_server_unavailable: hyperclova=x, roosy=y".to_string())
    );
    assert_eq!(
        runtime_check_result(&err("x"), &Ok(())),
        (false, "llama_server_unavailable: hyperclova=x".to_string())
    );
    assert_eq!(
        runtime_check_result(&Ok(()), &err("y")),
        (false, "llama_server_unavailable: roosy=y".to_string())
    );
}

#[test]
fn without_servers_the_program_is_started_anew() {
    let caps = BackendCapabilities {
        backend_kind: BackendKind::LlamaServer,
        supports_resident: true,
        ..BackendCapabilities::cli()
    };
    let r = strategy_backend_runtime(caps, Some(config("h", "r")), false, "down".to_string());
    assert_eq!(r.capabilities, BackendCapabilities::cli());
    assert_eq!(r.llama_server_unavailable_reason, "down");
    assert!(r.llama_server.is_some());
    let r = strategy_backend_runtime(caps, None, true, String::new());
    assert_eq!(r.capabilities, caps);
    let native = BackendCapabilities { backend_kind: BackendKind::Native, ..caps };
    assert_eq!(strategy_backend_runtime(native, None, false, String::new()).capabilities, native);
    let p = prewarm_without_servers(BackendKind::Native, false).unwrap();
    assert_eq!((p.backend_kind.as_str(), p.reason.as_str()), ("native", "cache_disabled_or_cli_mode"));
    let p = prewarm_without_servers(BackendKind::LlamaServer, false).unwrap();
    assert_eq!((p.ready, p.reason.as_str()), (false, "llama_server_endpoint_missing"));
    assert!(prewarm_without_servers(BackendKind::LlamaServer, true).is_none());
    let p = prewarm_strategy_backend(true, String::new(), "h".to_string(), "r".to_string());
    assert_eq!((p.backend_kind.as_str(), p.hyperclova_endpoint.as_str()), ("llama-server", "h"));
    let p = prewarm_strategy_backend(false, "why".to_string(), "h".to_string(), "r".to_string());
    assert_eq!((p.backend_kind.as_str(), p.reason.as_str()), ("cli", "why"));
}

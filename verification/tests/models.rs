//! The models, their files, and what their runtimes print.

use roosycozy::engine::models::{
    download_event_is_new, first_existing, is_strategy_runtime_noise, llama_server_missing,
    looks_like_windows_path_line, model_missing, normalize_strategy_model_id, program_candidates,
    program_filenames, progress_is_due, runner_missing, should_emit_strategy_runtime_log,
    strategy_llama_server_filenames, strategy_model_candidates, strategy_model_download_specs,
    strategy_model_filename_for_id, strategy_model_label_for_id,
    strategy_model_resource_path_for_id, strategy_model_status, strategy_runner_filenames,
    strategy_runner_hint_text, unsized_percent, DownloadEvent, ModelSearch, ProgramSearch,
};

fn some(s: &str) -> Option<String> {
    Some(s.to_string())
}

#[test]
fn models_are_known_by_their_ids() {
    assert_eq!(normalize_strategy_model_id(Some(" Roosy-X ")), "roosy-x");
    assert_eq!(normalize_strategy_model_id(Some("roosy-hybrid")), "roosy-hybrid");
    assert_eq!(normalize_strategy_model_id(Some("?")), "hyperclova-x");
    assert_eq!(normalize_strategy_model_id(None), "hyperclova-x");
    assert_eq!(strategy_model_label_for_id("roosy-hybrid"), "ROOSY-Hybrid");
    assert_eq!(strategy_model_label_for_id("roosy-x"), "Roosy-X");
    assert_eq!(strategy_model_label_for_id("x"), "HyperCLOVA-X");
    assert_eq!(strategy_model_filename_for_id("roosy-x"), "hyperclovax_roosy_Q4_K_M.gguf");
    assert_eq!(
        strategy_model_filename_for_id("roosy-hybrid"),
        "HyperCLOVAX-SEED-Text-Instruct-0.5B-q4_0.gguf"
    );
    assert!(strategy_model_resource_path_for_id("roosy-x").ends_with("hyperclovax_roosy_Q4_K_M.gguf"));
    let specs = strategy_model_download_specs();
    assert_eq!((specs[0].model_id, specs[1].label), ("hyperclova-x", "Roosy-X"));
    assert!(specs[1].default_url.ends_with(specs[1].filename));
}

#[test]
fn programs_have_names_for_each_machine() {
    assert_eq!(
        strategy_runner_filenames("windows", "x86_64"),
        vec!["llama-sidecar-x86_64-pc-windows-msvc.exe", "llama-sidecar.exe"]
    );
    assert_eq!(
        strategy_llama_server_filenames("macos", "aarch64"),
        vec!["llama-server-aarch64-apple-darwin", "llama-server"]
    );
    assert_eq!(
        strategy_llama_server_filenames("linux", "x86_64"),
        vec!["llama-server-x86_64-unknown-linux-gnu", "llama-server"]
    );
    assert_eq!(program_filenames("llama-server", "plan9", "mips"), vec!["llama-server"]);
    assert_eq!(
        program_filenames("llama-server", "windows", "aarch64"),
        vec!["llama-server", "llama-server.exe"]
    );
    assert_eq!(strategy_runner_hint_text("plan9", "mips"), "llama-sidecar 파일");
    assert_eq!(
        strategy_runner_hint_text("linux", "aarch64"),
        "llama-sidecar-aarch64-unknown-linux-gnu 또는 llama-sidecar 파일"
    );
    assert_eq!(
        llama_server_missing("linux", "aarch64"),
        "llama_server_binary_missing: llama-server-aarch64-unknown-linux-gnu, llama-server 또는 PATH의 llama-server 실행 파일이 필요해요."
    );
    assert!(runner_missing("windows", "x86_64").ends_with("필요한 파일: llama-sidecar-x86_64-pc-windows-msvc.exe 또는 llama-sidecar.exe 파일"));
    assert!(runner_missing("linux", "x86_64").ends_with("llama-sidecar 파일이(가) 함께 포함되어야 해요."));
}

#[test]
fn programs_are_looked_for_in_order() {
    let search = ProgramSearch {
        explicit: some(" /x "),
        storage_dir: some("store"),
        program_dir: some("bin"),
        source_dir: some("src"),
        search_dirs: vec!["p".to_string(), "p".to_string()],
    };
    let files = vec!["f".to_string(), "g".to_string()];
    let got: Vec<String> = program_candidates(&search, &files).iter().map(|p| p.join("/")).collect();
    assert_eq!(
        got,
        vec![
            "/x",
            "store/f",
            "store/g",
            "bin/RoosyCozy/sidecar/f",
            "bin/RoosyCozy/sidecar/g",
            "bin/sidecar/f",
            "bin/sidecar/g",
            "src/binaries/f",
            "src/resources/sidecar/f",
            "src/binaries/g",
            "src/resources/sidecar/g",
            "p/f",
            "p/g",
        ]
    );
    let none = ProgramSearch {
        explicit: some(" "),
        storage_dir: None,
        program_dir: None,
        source_dir: None,
        search_dirs: vec![],
    };
    assert_eq!(program_candidates(&none, &files).len(), 0);
    assert_eq!(first_existing(&[false, true]), Some(1));
    assert_eq!(first_existing(&[false]), None);
}

#[test]
fn models_are_looked_for_in_order() {
    let search = ModelSearch {
        storage_dir: some("store"),
        resource: some("res"),
        bundle_dir: some("bundle"),
        program_dir: some("bin"),
        source_dir: some("src"),
        source_parent: some("top"),
    };
    let f = strategy_model_filename_for_id("roosy-x");
    let got: Vec<String> =
        strategy_model_candidates(&search, "roosy-x").iter().map(|p| p.join("/")).collect();
    let expected: Vec<String> = [
        "store/#",
        "res",
        "bundle/Resources/models/#",
        "bin/RoosyCozy/resources/models/#",
        "bin/resources/models/#",
        "src/resources/models/#",
        "src/src/engine/#",
        "src/#",
        "top/src-tauri/resources/models/#",
    ]
    .iter()
    .map(|s| s.replace('#', f))
    .collect();
    assert_eq!(got, expected);
    assert!(model_missing("roosy-x", false).contains("Resources/models 안에 hyperclovax_roosy_Q4_K_M.gguf 파일을"));
    assert!(model_missing("x", true).starts_with("HyperCLOVA-X 모델 파일을 찾지 못했어요. 채팅 화면에서"));
}

#[test]
fn the_state_of_the_models_is_told() {
    let s = strategy_model_status(None, some("/m"), None, true).unwrap();
    assert_eq!((s.storage_dir.as_str(), s.all_ready), (".", false));
    assert!(s.windows_download_mode && s.download_supported);
    assert_eq!((s.models[0].available, s.models[0].path.as_str()), (true, "/m"));
    assert_eq!((s.models[1].available, s.models[1].path.as_str()), (false, ""));
    assert!(strategy_model_status(some("d"), some("a"), some("b"), false).unwrap().all_ready);
}

#[test]
fn downloads_are_reported_when_due() {
    let mb = 1024 * 1024;
    assert_eq!(unsized_percent(0), 1);
    assert_eq!(unsized_percent(5 * mb), 5);
    assert_eq!(unsized_percent(90 * mb), 1);
    assert!(progress_is_due(0, 1, 0, 1, 1));
    assert!(progress_is_due(mb, 512 * 1024, 0, 0, 0));
    assert!(!progress_is_due(1000 * mb, 512 * 1024 - 1, 0, 5, 5));
    assert!(progress_is_due(1000 * mb, 10, 0, 6, 5));
    assert!(progress_is_due(10, 10, 0, 5, 5));
    let event = |stage: &str, completed| DownloadEvent {
        stage: stage.to_string(),
        model_id: "m".to_string(),
        completed,
        total: 2,
    };
    assert!(download_event_is_new(&event("downloading", 0), None));
    assert!(!download_event_is_new(&event("downloading", 0), Some(&event("downloading", 0))));
    assert!(download_event_is_new(&event("downloading", 1), Some(&event("downloading", 0))));
    assert!(download_event_is_new(&event("progress", 0), Some(&event("progress", 0))));
}

#[test]
fn noise_of_the_runtimes_is_recognised() {
    assert!(looks_like_windows_path_line("C:\\x") && looks_like_windows_path_line("c:/y"));
    assert!(!looks_like_windows_path_line("C:\\") && !looks_like_windows_path_line("가:\\x"));
    for line in ["LOAD_tensors: x", "see model.GGUF", "srv  x", "main: y", "n_ctx_seq"] {
        assert!(is_strategy_runtime_noise(line));
    }
    assert!(!is_strategy_runtime_noise("답변입니다"));
    assert!(should_emit_strategy_runtime_log("Error: out of memory"));
    assert!(!should_emit_strategy_runtime_log("main: error"));
    assert!(!should_emit_strategy_runtime_log("fine"));
}

//! Where the state of the program is kept, how it is updated, and how its runtime is set up.

use roosycozy::platform::runtime::{
    collect_runtime_dlls, runtime_pieces, runtime_step, sidecar_is_whole,
    validate_extracted_release,
    windows_install_model_dirs, windows_install_runtime_dirs, windows_model_dir_has_required_files,
    windows_model_required_files, windows_msvc_runtime_files,
    windows_resident_server_required_files, windows_runtime_dir_has_required_files,
    windows_runtime_marker, windows_runtime_needs_repair, windows_runtime_required_files,
    windows_sidecar_required_files, RuntimeAction, RuntimeFacts, RuntimeOrigin, RuntimePhase,
    UnpackedEntry,
};
use roosycozy::platform::state::{
    best_candidate, contains_bytes, database_files, extension_of, extract_state_payload_from_bytes,
    extract_state_payload_from_text, holds_state_key, macos_app_support_dir, macos_bootstrap,
    macos_state_candidate_roots, macos_state_path, macos_webkit_dir,
    read_state_payload_from_sqlite, score_state_payload, should_scan_windows_state_file,
    state_candidate, state_files, storage_move, windows_appdata_root, windows_bootstrap,
    windows_shared_root, windows_state_candidate_roots, windows_state_path, StorageMove,
    WindowsFolders,
};
use roosycozy::platform::update::{
    normalize_release_version, parse_version_triplet, plan_update, powershell_arguments,
    release_is_newer, update_asset, update_done_text, windows_ps_escape, windows_swap_script,
    GithubRelease, GithubReleaseAsset, UpdatePlan, LATEST_RELEASE_URL, UPDATE_ASSET_NAME,
};

fn strings(v: &[&str]) -> Vec<String> {
    v.iter().map(|s| s.to_string()).collect()
}

const STATE: &str = "{\"records\":[1,2],\"cases\":{\"a\":1},\"strategyThreadPackages\":[0],\"classRoster\":[0],\"relationshipGroups\":[0,0]}";

#[test]
fn states_are_weighed() {
    let bytes = STATE.len() as u128;
    assert_eq!(score_state_payload(STATE), 20_000 + 5_000 + 2_000 + 500 + 1_000 + bytes);
    assert_eq!(score_state_payload("{}"), 2);
    assert_eq!(score_state_payload("{\"records\":{},\"cases\":[1]}"), 26);
    assert_eq!(score_state_payload("{"), 0);
    assert_eq!(score_state_payload("\"가\""), 5);
}

#[test]
fn states_are_found_in_texts() {
    assert_eq!(extract_state_payload_from_text("\u{feff} {\"a\":1} ").as_deref(), Some("{\"a\":1}"));
    let inside = "xx roosycozy_state_v1 = {\"a\":\"}\\\"\",\"b\":{}} roosycozy_state_v1 {1}";
    assert_eq!(extract_state_payload_from_text(inside).as_deref(), Some("{\"a\":\"}\\\"\",\"b\":{}}"));
    let second = "roosycozy_state_v1 {bad} roosycozy_state_v1 {\"b\":2}";
    assert_eq!(extract_state_payload_from_text(second).as_deref(), Some("{\"b\":2}"));
    assert_eq!(extract_state_payload_from_text("roosycozy_state_v1 {\"a\":1"), None);
    assert_eq!(extract_state_payload_from_text("{\"a\":1} x"), None);
}

#[test]
fn states_are_found_in_bytes() {
    assert_eq!(extract_state_payload_from_bytes(b"{\"a\":1}").as_deref(), Some("{\"a\":1}"));
    let wide = |s: &str| -> Vec<u8> { s.encode_utf16().flat_map(|u| u.to_le_bytes()).collect() };
    assert_eq!(extract_state_payload_from_bytes(&wide("{\"가\":1}")).as_deref(), Some("{\"가\":1}"));
    // Wide ASCII is UTF-8 as well, and is taken for it.
    assert_eq!(extract_state_payload_from_bytes(&wide("{\"a\":1}")), None);
    let mut broken = b"\xff\xfe\xffroosycozy_state_v1".to_vec();
    broken.extend_from_slice(b"{\"a\":1}\xff\xff\xff");
    assert_eq!(extract_state_payload_from_bytes(&broken).as_deref(), Some("{\"a\":1}"));
    assert_eq!(read_state_payload_from_sqlite(true, b" 7b7D\n").as_deref(), Some("{}"));
    assert_eq!(read_state_payload_from_sqlite(false, b"7b7d"), None);
    assert_eq!(read_state_payload_from_sqlite(true, b"7b7"), None);
    assert_eq!(read_state_payload_from_sqlite(true, b"zz"), None);
}

#[test]
fn files_are_scanned_by_name() {
    assert_eq!(extension_of("a.b.c").as_deref(), Some("c"));
    assert_eq!(extension_of(".log"), None);
    assert_eq!(extension_of("log"), None);
    assert_eq!(extension_of("log.").as_deref(), Some(""));
    for name in ["SHARED-state-v1.json", "LocalStorage.sqlite3-WAL", "current", "MANIFEST-1", "x.LDB", "a.log"] {
        assert!(should_scan_windows_state_file(name), "{}", name);
    }
    for name in ["manifest-1", ".log", "x.txt", "CURRENT2"] {
        assert!(!should_scan_windows_state_file(name), "{}", name);
    }
    let walked = vec![
        ("r/a.log".to_string(), "a.log".to_string()),
        ("r/n".to_string(), "n".to_string()),
        ("r/b.json".to_string(), "b.json".to_string()),
        ("r/a.log".to_string(), "a.log".to_string()),
    ];
    assert_eq!(state_files(strings(&["r/b.json"]), &walked), vec!["r/b.json", "r/a.log"]);
}

#[test]
fn the_best_state_wins() {
    let c = |priority, payload: &str| state_candidate("l", "p", priority, Some(payload.to_string())).unwrap();
    assert!(state_candidate("l", "p", 1, None).is_none());
    assert!(state_candidate("l", "p", 1, Some("x".to_string())).is_none());
    assert_eq!((c(1, "{}").source.as_str(), c(1, "{}").score), ("l:p", 2));
    assert_eq!(best_candidate(&vec![]), None);
    let list = vec![c(2, "{\"a\":1}"), c(3, "{}"), c(3, "{\"a\":2}"), c(3, "{\"a\":3}"), c(1, STATE)];
    assert_eq!(best_candidate(&list), Some(3));
    assert_eq!(windows_bootstrap(&None, &list), Some(3));
    assert_eq!(windows_bootstrap(&Some(b" {\"a\":3} ".to_vec()), &list), None);
    assert_eq!(windows_bootstrap(&Some(STATE.as_bytes().to_vec()), &list), Some(3));
    assert_eq!(macos_bootstrap(&Some("{\"a\":3}".to_string()), &list), None);
    assert_eq!(macos_bootstrap(&Some("{}".to_string()), &list), Some(3));
    let old = vec![c(2, "{\"a\":1}")];
    assert_eq!(macos_bootstrap(&Some("{}".to_string()), &old), None);
    assert_eq!(macos_bootstrap(&Some("x".to_string()), &old), Some(0));
    assert_eq!(macos_bootstrap(&None, &old), Some(0));
}

#[test]
fn folders_are_named() {
    let some = |s: &str| Some(s.to_string());
    assert_eq!(windows_appdata_root(&None, "x"), vec!["C:\\Users\\Default\\AppData\\Roaming", "x"]);
    assert_eq!(windows_shared_root(&some("P"), "x"), vec!["P", "Documents", "RoosyCozy", "x"]);
    assert_eq!(windows_state_path(&some("A")), vec!["A", "co.roosycozy.desktop", "shared-state-v1.json"]);
    assert_eq!(
        macos_state_path("h").join("/"),
        "h/Library/Application Support/RoosyCozy/shared-state-v1.json"
    );
    assert_eq!(macos_webkit_dir("h", "x").join("/"), "h/Library/WebKit/x");
    assert_eq!(macos_app_support_dir("h", "x").join("/"), "h/Library/Application Support/x");
    let roots: Vec<(usize, String, String)> = macos_state_candidate_roots("h")
        .iter()
        .map(|r| (r.priority, r.label.clone(), r.path.join("/")))
        .collect();
    assert_eq!(roots[0], (3, "dev".to_string(), "h/Library/WebKit/roosycozy".to_string()));
    assert_eq!(roots[1], (2, "current".to_string(), "h/Library/WebKit/co.roosycozy.desktop".to_string()));
    assert_eq!(roots[2], (1, "legacy".to_string(), "h/Library/WebKit/co.roosycozy.app".to_string()));

    let folders = WindowsFolders {
        appdata: some("A"),
        local_appdata: some("L"),
        public: None,
        user_profile: some("U"),
    };
    let got: Vec<String> = windows_state_candidate_roots(&folders)
        .iter()
        .map(|r| format!("{} {} {}", r.priority, r.label, r.path.join("/")))
        .collect();
    assert_eq!(
        got,
        vec![
            "30 appdata:current-shared-root A/co.roosycozy.desktop",
            "29 appdata:dev A/roosycozy",
            "28 appdata:legacy A/co.roosycozy.app",
            "20 shared-root C:\\Users\\Public/Documents/RoosyCozy/co.roosycozy.desktop",
            "19 legacy-shared-root C:\\Users\\Public/Documents/RoosyCozy/co.roosycozy.app",
            "12 APPDATA:RoosyCozy A/RoosyCozy",
            "13 LOCALAPPDATA:co.roosycozy.desktop L/co.roosycozy.desktop",
            "12 LOCALAPPDATA:roosycozy L/roosycozy",
            "11 LOCALAPPDATA:RoosyCozy L/RoosyCozy",
            "10 LOCALAPPDATA:co.roosycozy.app L/co.roosycozy.app",
            "4 userprofile:Documents/RoosyCozy U/Documents/RoosyCozy",
        ]
    );
}

#[test]
fn storage_is_moved_once() {
    assert!(matches!(storage_move(false, true, true), StorageMove::Leave));
    assert!(matches!(storage_move(true, false, true), StorageMove::Leave));
    assert!(matches!(storage_move(true, true, true), StorageMove::CopyDatabase));
    assert!(matches!(storage_move(true, true, false), StorageMove::CopyFolder));
    assert_eq!(
        database_files(),
        vec!["localstorage.sqlite3", "localstorage.sqlite3-shm", "localstorage.sqlite3-wal"]
    );
    assert!(contains_bytes(b"abcd", b"bc") && contains_bytes(b"bc", b"bc"));
    assert!(!contains_bytes(b"b", b"bc") && !contains_bytes(b"abd", b"bc"));
    assert!(holds_state_key(b"..roosycozy_state_v1..") && !holds_state_key(b"roosycozy_state_v2"));
}

fn release(tag: &str, assets: &[&str]) -> GithubRelease {
    GithubRelease {
        tag_name: tag.to_string(),
        assets: assets
            .iter()
            .map(|name| GithubReleaseAsset {
                name: name.to_string(),
                browser_download_url: format!("u/{}", name),
            })
            .collect(),
    }
}

#[test]
fn versions_are_read() {
    assert_eq!(normalize_release_version(" vv1.2 "), "1.2");
    assert_eq!(parse_version_triplet("v1.20.3.4"), [1, 20, 3]);
    assert_eq!(parse_version_triplet("1.x"), [1, 0, 0]);
    assert_eq!(parse_version_triplet("+7.4294967296.1"), [7, 0, 1]);
    assert_eq!(parse_version_triplet(""), [0, 0, 0]);
    assert!(release_is_newer("1.9.9", "v1.10.0"));
    assert!(!release_is_newer("1.10.0", "1.10.0") && !release_is_newer("2.0.0", "1.99.99"));
}

#[test]
fn updates_are_planned() {
    assert_eq!(LATEST_RELEASE_URL, "https://api.github.com/repos/myongsung/class/releases/latest");
    let both = release("v1.2.0", &["other", UPDATE_ASSET_NAME]);
    assert_eq!(update_asset(&both.assets), Some(1));
    match plan_update("1.1.9", &both) {
        Ok(UpdatePlan::Replace { url, version }) => {
            assert_eq!((url.as_str(), version.as_str()), ("u/roosycozy-x86_64-pc-windows-msvc.zip", "1.2.0"));
            assert_eq!(
                update_done_text(&version),
                "업데이트 완료: 버전 1.2.0. 잠시 후 자동으로 새 버전이 다시 열립니다."
            );
        }
        _ => panic!("no update"),
    }
    assert!(matches!(plan_update("1.2.0", &both), Ok(UpdatePlan::Keep { .. })));
    match plan_update("1.0.0", &release("v2", &["other"])) {
        Err(message) => assert_eq!(
            message,
            "릴리즈 자산에서 roosycozy-x86_64-pc-windows-msvc.zip 파일을 찾지 못했어요."
        ),
        Ok(_) => panic!("no asset"),
    }
}

#[test]
fn the_program_is_swapped() {
    assert_eq!(windows_ps_escape("C:\\it's"), "C:\\it''s");
    assert_eq!(
        windows_swap_script("C:\\it's.exe", "S", "O", 42),
        "$target = 'C:\\it''s.exe'\n$staged = 'S'\n$old = 'O'\nwhile (Get-Process -Id 42 -ErrorAction SilentlyContinue) { Start-Sleep -Milliseconds 500 }\nif (Test-Path $old) { Remove-Item -LiteralPath $old -Force -ErrorAction SilentlyContinue }\nif (Test-Path $target) { Move-Item -LiteralPath $target -Destination $old -Force }\nMove-Item -LiteralPath $staged -Destination $target -Force\nStart-Process -FilePath $target\n"
    );
    assert_eq!(
        powershell_arguments("QQ=="),
        vec!["-NoProfile", "-NonInteractive", "-ExecutionPolicy", "Bypass", "-WindowStyle", "Hidden", "-EncodedCommand", "QQ=="]
    );
}

#[test]
fn runtimes_need_their_files() {
    let all = windows_runtime_required_files();
    assert_eq!(all.len(), 7);
    assert_eq!(windows_sidecar_required_files(), vec!["llama.dll", "mtmd.dll"]);
    assert_eq!(windows_resident_server_required_files(), vec!["llama-server.exe"]);
    assert_eq!(windows_msvc_runtime_files().len(), 4);
    assert!(windows_runtime_dir_has_required_files(true, &all));
    assert!(!windows_runtime_dir_has_required_files(false, &all));
    assert!(!windows_runtime_dir_has_required_files(true, &all[1..].to_vec()));
    let libraries = windows_sidecar_required_files();
    assert!(sidecar_is_whole(true, &libraries));
    assert!(!sidecar_is_whole(false, &libraries));
    assert!(!sidecar_is_whole(true, &libraries[1..].to_vec()));
    let models = windows_model_required_files();
    assert!(windows_model_dir_has_required_files(&models));
    assert!(!windows_model_dir_has_required_files(&models[1..].to_vec()));
    assert_eq!(windows_install_runtime_dirs()[0], vec!["RoosyCozy", "runtime"]);
    assert_eq!(windows_install_runtime_dirs()[3], vec!["sidecar"]);
    assert_eq!(windows_install_model_dirs()[0], vec!["RoosyCozy", "resources", "models"]);
    assert_eq!(windows_runtime_marker("x"), "runtime-ready\nsource=x\n");
    assert!(!windows_runtime_needs_repair(true, None, None));
    assert!(windows_runtime_needs_repair(false, None, Some((true, true))));
    assert!(!windows_runtime_needs_repair(false, Some(true), None));
    assert!(windows_runtime_needs_repair(false, Some(false), None));
    assert!(!windows_runtime_needs_repair(false, Some(false), Some((true, true))));
    assert!(windows_runtime_needs_repair(false, Some(false), Some((true, false))));
}

fn facts() -> RuntimeFacts {
    RuntimeFacts {
        kept_complete: false,
        marked: false,
        resource_complete: false,
        installed_complete: vec![false, true, true, false],
        embedded: false,
        models_complete: false,
        resource_models_complete: false,
        installed_models_complete: vec![false; 4],
        installed_models_exist: vec![false, false, true, false],
    }
}

/// Runs the steps; copying and fetching succeed where `works` says so.
fn settle(mut f: RuntimeFacts, works: bool) -> Vec<String> {
    let mut phase = RuntimePhase::Resource;
    let mut done = vec![];
    for _ in 0..20 {
        let (action, next) = runtime_step(phase, &f);
        phase = next;
        let shown = format!("{:?}", action);
        match action {
            RuntimeAction::Nothing => continue,
            RuntimeAction::CopyResourceRuntime
            | RuntimeAction::CopyInstalledRuntime(_)
            | RuntimeAction::RestoreEmbedded
            | RuntimeAction::Download => f.kept_complete = works,
            RuntimeAction::MarkResource | RuntimeAction::MarkInstalled(_) | RuntimeAction::MarkExisting => {
                f.marked = true
            }
            RuntimeAction::CopyResourceModels | RuntimeAction::CopyInstalledModels(_) => {
                f.models_complete = works
            }
            RuntimeAction::Finish | RuntimeAction::FailRuntime | RuntimeAction::FailModels => {
                done.push(shown);
                return done;
            }
        }
        done.push(shown);
    }
    panic!("no end")
}

#[test]
fn runtimes_are_settled() {
    assert_eq!(
        settle(facts(), true),
        vec!["CopyInstalledRuntime(1)", "MarkInstalled(1)", "CopyInstalledModels(2)", "Finish"]
    );
    assert_eq!(settle(facts(), false), vec!["CopyInstalledRuntime(1)", "Download", "FailRuntime"]);
    let mut f = facts();
    f.kept_complete = true;
    f.marked = true;
    f.models_complete = true;
    f.installed_models_complete[3] = true;
    assert_eq!(settle(f, true), vec!["Finish"]);
    let mut f = facts();
    f.resource_complete = true;
    f.resource_models_complete = true;
    assert_eq!(
        settle(f, true),
        vec!["CopyResourceRuntime", "MarkResource", "CopyResourceModels", "CopyInstalledModels(2)", "Finish"]
    );
    let mut f = facts();
    f.installed_complete = vec![false; 4];
    f.embedded = true;
    assert_eq!(
        settle(f, true),
        vec!["RestoreEmbedded", "MarkExisting", "CopyInstalledModels(2)", "Finish"]
    );
    let mut f = facts();
    f.kept_complete = true;
    f.installed_models_exist = vec![false; 4];
    assert_eq!(settle(f, true), vec!["MarkExisting", "FailModels"]);
}

fn entry(path: &str, is_dir: bool) -> UnpackedEntry {
    UnpackedEntry {
        path: path.split('/').filter(|s| !s.is_empty()).map(|s| s.to_string()).collect(),
        is_dir,
        is_file: !is_dir,
    }
}

#[test]
fn releases_are_checked() {
    assert_eq!(
        validate_extracted_release(&vec![entry("", true)]).unwrap_err(),
        "업데이트 압축 파일 안에 roosycozy.exe가 없어요."
    );
    let bare = vec![entry("", true), entry("a", true), entry("a/roosycozy.exe", false)];
    let r = validate_extracted_release(&bare).unwrap();
    assert_eq!(r.program.join("/"), "a/roosycozy.exe");
    assert!(r.runtime.is_none() && r.resources.is_none() && r.support.is_none());
    let mut whole = vec![
        entry("", true),
        entry("roosycozy.exe", false),
        entry("s", true),
        entry("s/RoosyCozy", true),
        entry("s/RoosyCozy/models", true),
        entry("s/RoosyCozy/sidecar", true),
        entry("s/RoosyCozy/sidecar/llama.dll", false),
        entry("s/RoosyCozy/sidecar/mtmd.dll", false),
        entry("s/RoosyCozy/sidecar/llama-server.exe", false),
    ];
    let r = validate_extracted_release(&whole).unwrap();
    assert_eq!(r.runtime.unwrap().join("/"), "s/RoosyCozy/sidecar");
    assert_eq!(r.resources.unwrap().join("/"), "s/RoosyCozy/models");
    assert_eq!(r.support.unwrap().join("/"), "s/RoosyCozy");
    whole.pop();
    assert_eq!(
        validate_extracted_release(&whole).unwrap_err(),
        "업데이트 압축 파일 안에 resident 서버 파일이 빠져 있어요: llama-server.exe"
    );
    whole.pop();
    assert_eq!(
        validate_extracted_release(&whole).unwrap_err(),
        "업데이트 압축 파일 안에 필요한 resident runtime 파일이 빠져 있어요: mtmd.dll"
    );
    let loose = vec![
        entry("", true),
        entry("roosycozy.exe", false),
        entry("x", true),
        entry("x/resources", true),
        entry("x/runtime", true),
        entry("x/runtime/llama.dll", false),
        entry("x/runtime/mtmd.dll", false),
        entry("x/runtime/llama-server.exe", false),
    ];
    let r = validate_extracted_release(&loose).unwrap();
    assert_eq!((r.support.unwrap().join("/"), r.resources.unwrap().join("/")), ("x".to_string(), "x/resources".to_string()));
}

#[test]
fn runtimes_are_taken_out() {
    let mut entries = vec![
        entry("", true),
        entry("d", true),
        entry("d/llama-server", false),
        entry("d/mtmd.dll", false),
        entry("d/llama.DLL", false),
        entry("d/note.txt", false),
    ];
    for name in windows_msvc_runtime_files() {
        entries.push(entry(&name, false));
    }
    assert_eq!(collect_runtime_dlls(&entries).len(), 6);
    let pieces = runtime_pieces(&entries, RuntimeOrigin::Downloaded).unwrap();
    assert_eq!((pieces.server.join("/"), pieces.libraries.len()), ("d/llama-server".to_string(), 6));
    entries.push(entry("llama-server.exe", false));
    assert_eq!(runtime_pieces(&entries, RuntimeOrigin::Embedded).unwrap().server.join("/"), "llama-server.exe");
    entries.remove(3);
    assert_eq!(
        runtime_pieces(&entries, RuntimeOrigin::Downloaded).unwrap_err(),
        "다운로드한 AI 런타임 안에 필요한 DLL이 빠져 있어요: mtmd.dll"
    );
    assert_eq!(
        runtime_pieces(&entries, RuntimeOrigin::Embedded).unwrap_err(),
        "실행파일에 포함된 runtime 안에 필요한 DLL이 빠져 있어요: mtmd.dll"
    );
    assert_eq!(
        runtime_pieces(&vec![], RuntimeOrigin::Embedded).unwrap_err(),
        "실행파일에 포함된 runtime 안에서 llama-server.exe를 찾지 못했어요."
    );
    assert_eq!(
        runtime_pieces(&vec![], RuntimeOrigin::Downloaded).unwrap_err(),
        "다운로드한 AI 런타임 안에서 llama-server.exe를 찾지 못했어요."
    );
}

use agent_supervisor::engine::{Engine, EngineNames, EngineNaming, HostOs};
use agent_supervisor::locator::{
    bundled_binaries, candidates, check_claude, check_claude_available, find_gemini_binary, is_bundled_extension,
    join_parts, locate, path_exists, HostFacts,
};

fn names() -> EngineNames {
    EngineNames {
        primary: EngineNaming {
            command: "pilot".to_string(),
            extension_prefix: "acme.pilot-".to_string(),
            package_script: Vec::new(),
        },
        secondary: EngineNaming {
            command: "navigator".to_string(),
            extension_prefix: String::new(),
            package_script: vec!["@acme".to_string(), "navigator-cli".to_string(), "dist".to_string(), "index.js".to_string()],
        },
        session_markers: vec!["PILOT_SESSION".to_string(), "PILOT_ENTRY_POINT".to_string()],
    }
}

fn facts(os: HostOs, entries: &[&str], existing: &[&str]) -> HostFacts {
    HostFacts {
        os,
        home: "/home/u".to_string(),
        extension_entries: entries.iter().map(|s| s.to_string()).collect(),
        existing: existing.iter().map(|s| s.to_string()).collect(),
    }
}

#[test]
fn fallback_to_bare_names() {
    let f = facts(HostOs::Linux, &[], &[]);
    assert_eq!(check_claude_available(&names(), &f), "pilot");
    let g = find_gemini_binary(&names(), &f);
    assert_eq!(g.program, "navigator");
    assert!(g.pre_args.is_empty());
}

#[test]
fn extension_binary_wins_last_listed() {
    let f = facts(
        HostOs::Linux,
        &["acme.pilot-1.0-linux-x64", "other", "acme.pilot-2.0-linux-x64"],
        &[
            "/home/u/.vscode/extensions/acme.pilot-1.0-linux-x64/resources/native-binary/pilot",
            "/home/u/.vscode/extensions/acme.pilot-2.0-linux-x64/resources/native-binary/pilot",
            "/usr/bin/pilot",
        ],
    );
    assert_eq!(
        check_claude_available(&names(), &f),
        "/home/u/.vscode/extensions/acme.pilot-2.0-linux-x64/resources/native-binary/pilot"
    );
}

#[test]
fn extension_of_other_platform_ignored() {
    assert!(is_bundled_extension(&names().primary, HostOs::MacOs, "acme.pilot-2.0-darwin-arm64"));
    assert!(!is_bundled_extension(&names().primary, HostOs::Linux, "acme.pilot-2.0-darwin-arm64"));
    assert!(!is_bundled_extension(&names().primary, HostOs::Linux, "x.acme.pilot-linux"));
    let f = facts(HostOs::Linux, &["acme.pilot-2.0-darwin-arm64"], &["/usr/local/bin/pilot"]);
    assert_eq!(bundled_binaries(&names().primary, f.os, &f.home, &f.extension_entries), Vec::<String>::new());
    assert_eq!(check_claude_available(&names(), &f), "/usr/local/bin/pilot");
}

#[test]
fn linux_search_order() {
    let f = facts(HostOs::Linux, &[], &["/usr/bin/pilot", "/home/u/.npm-global/bin/pilot"]);
    assert_eq!(check_claude_available(&names(), &f), "/usr/bin/pilot");
    let f = facts(HostOs::Linux, &[], &["/home/u/.pilot/local/pilot", "/usr/bin/pilot"]);
    assert_eq!(check_claude_available(&names(), &f), "/home/u/.pilot/local/pilot");
}

#[test]
fn windows_paths_use_backslashes() {
    let mut f = facts(HostOs::Windows, &["acme.pilot-3-win32-x64"], &[]);
    f.home = "C:\\Users\\u".to_string();
    f.existing = vec![
        "C:\\Users\\u\\.vscode\\extensions\\acme.pilot-3-win32-x64\\resources\\native-binary\\pilot.exe"
            .to_string(),
    ];
    assert_eq!(
        check_claude_available(&names(), &f),
        "C:\\Users\\u\\.vscode\\extensions\\acme.pilot-3-win32-x64\\resources\\native-binary\\pilot.exe"
    );
    f.existing = vec!["C:\\Users\\u\\AppData\\Roaming\\npm\\pilot.cmd".to_string()];
    assert_eq!(check_claude_available(&names(), &f), "C:\\Users\\u\\AppData\\Roaming\\npm\\pilot.cmd");
}

#[test]
fn windows_secondary_prefers_node_with_script() {
    let script = "C:\\Users\\u\\AppData\\Roaming\\npm\\node_modules\\@acme\\navigator-cli\\dist\\index.js";
    let mut f = facts(HostOs::Windows, &[], &[]);
    f.home = "C:\\Users\\u".to_string();
    f.existing = vec![script.to_string(), "C:\\Program Files\\nodejs\\node.exe".to_string()];
    let b = locate(Engine::Secondary, &names().secondary, &f);
    assert_eq!(b.program, "C:\\Program Files\\nodejs\\node.exe");
    assert_eq!(b.pre_args, vec![script.to_string()]);
    f.existing = vec![script.to_string()];
    let b = locate(Engine::Secondary, &names().secondary, &f);
    assert_eq!(b.program, "node");
    assert_eq!(b.pre_args, vec![script.to_string()]);
}

#[test]
fn unix_secondary_script_and_homebrew() {
    let f = facts(
        HostOs::MacOs,
        &[],
        &["/usr/local/lib/node_modules/@acme/navigator-cli/dist/index.js", "/opt/homebrew/bin/navigator"],
    );
    let b = find_gemini_binary(&names(), &f);
    assert_eq!(b.program, "node");
    assert_eq!(b.pre_args, vec!["/usr/local/lib/node_modules/@acme/navigator-cli/dist/index.js"]);
    let f = facts(HostOs::MacOs, &[], &["/opt/homebrew/bin/navigator"]);
    assert_eq!(find_gemini_binary(&names(), &f).program, "/opt/homebrew/bin/navigator");
    let f = facts(HostOs::Linux, &[], &["/opt/homebrew/bin/navigator"]);
    assert_eq!(find_gemini_binary(&names(), &f).program, "navigator");
}

#[test]
fn candidate_table_lengths() {
    assert_eq!(candidates(Engine::Primary, &names().primary, HostOs::Windows, "h").len(), 1);
    assert_eq!(candidates(Engine::Primary, &names().primary, HostOs::Linux, "h").len(), 4);
    assert_eq!(candidates(Engine::Secondary, &names().secondary, HostOs::Windows, "h").len(), 4);
    assert_eq!(candidates(Engine::Secondary, &names().secondary, HostOs::MacOs, "h").len(), 5);
    assert_eq!(candidates(Engine::Secondary, &names().secondary, HostOs::Linux, "h").len(), 3);
}

#[test]
fn join_parts_and_path_lookup() {
    assert_eq!(join_parts("/", &Vec::new()), "");
    assert_eq!(join_parts("\\", &vec!["a".to_string(), "b".to_string()]), "a\\b");
    let existing = vec!["/x".to_string(), "/y".to_string()];
    assert!(path_exists(&existing, "/y"));
    assert!(!path_exists(&existing, "/z"));
}

#[test]
fn check_claude_reports_missing_installation() {
    let f = facts(HostOs::Linux, &[], &[]);
    assert_eq!(check_claude(&names(), &f), Err("pilot CLI not found: no installation was located".to_string()));
    let f = facts(HostOs::Linux, &[], &["/usr/bin/pilot"]);
    assert_eq!(check_claude(&names(), &f), Ok("/usr/bin/pilot".to_string()));
}

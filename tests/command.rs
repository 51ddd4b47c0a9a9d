use agent_supervisor::command::{build_command, decimal_text, BinaryRef, STDIN_THRESHOLD};
use agent_supervisor::config::QueryConfig;
use agent_supervisor::engine::Engine;

fn markers() -> Vec<String> {
    vec!["PILOT_SESSION".to_string(), "PILOT_ENTRY_POINT".to_string()]
}

fn config(message: &str) -> QueryConfig {
    QueryConfig {
        message: message.to_string(),
        model: None,
        mcp_config: None,
        system_prompt: None,
        session_id: None,
        resume: false,
        engine: None,
        max_turns: None,
        tools: None,
        strict_mcp: false,
        permission_mode: None,
        cwd: None,
    }
}

fn bare(program: &str) -> BinaryRef {
    BinaryRef { program: program.to_string(), pre_args: Vec::new() }
}

#[test]
fn short_message_is_last_argument() {
    let plan = build_command(&config("hi"), Engine::Primary, &bare("pilot"), &markers());
    assert_eq!(plan.program, "pilot");
    assert_eq!(plan.args, vec!["-p", "--verbose", "--output-format", "stream-json", "hi"]);
    assert_eq!(plan.stdin_message, None);
    assert_eq!(plan.env_remove, vec!["PILOT_SESSION", "PILOT_ENTRY_POINT"]);
}

#[test]
fn message_just_below_threshold_stays_positional() {
    let msg = "x".repeat(STDIN_THRESHOLD - 1);
    let plan = build_command(&config(&msg), Engine::Primary, &bare("pilot"), &markers());
    assert_eq!(plan.args.last(), Some(&msg));
    assert_eq!(plan.stdin_message, None);
}

#[test]
fn long_message_goes_to_stdin() {
    let msg = "y".repeat(STDIN_THRESHOLD);
    let plan = build_command(&config(&msg), Engine::Primary, &bare("pilot"), &markers());
    assert_eq!(plan.args, vec!["-p", "--verbose", "--output-format", "stream-json"]);
    assert_eq!(plan.stdin_message, Some(msg));
}

#[test]
fn threshold_counts_characters() {
    // 5999 two-byte characters: below the threshold in characters.
    let msg = "é".repeat(STDIN_THRESHOLD - 1);
    let plan = build_command(&config(&msg), Engine::Primary, &bare("pilot"), &markers());
    assert_eq!(plan.stdin_message, None);
    assert_eq!(plan.args.last(), Some(&msg));
}

#[test]
fn secondary_never_pipes_long_message() {
    let msg = "z".repeat(STDIN_THRESHOLD + 10);
    let plan = build_command(&config(&msg), Engine::Secondary, &bare("navigator"), &markers());
    assert_eq!(plan.stdin_message, None);
    assert_eq!(plan.args[1], msg);
}

#[test]
fn primary_flags_in_order() {
    let mut c = config("go");
    c.model = Some("m1".to_string());
    c.mcp_config = Some("/cfg.json".to_string());
    c.system_prompt = Some("be brief".to_string());
    c.max_turns = Some(12);
    c.tools = Some(String::new());
    c.strict_mcp = true;
    c.permission_mode = Some("acceptEdits".to_string());
    c.session_id = Some("s-1".to_string());
    c.resume = true;
    c.cwd = Some("/work".to_string());
    let plan = build_command(&c, Engine::Primary, &bare("/usr/bin/pilot"), &markers());
    assert_eq!(
        plan.args,
        vec![
            "-p", "--verbose", "--output-format", "stream-json", "--model", "m1", "--mcp-config",
            "/cfg.json", "--system-prompt", "be brief", "--max-turns", "12", "--tools", "",
            "--strict-mcp-config", "--permission-mode", "acceptEdits", "-r", "s-1", "go",
        ]
    );
    assert_eq!(plan.cwd, Some("/work".to_string()));
}

#[test]
fn resume_flag_only_when_resuming() {
    let mut c = config("go");
    c.session_id = Some("s-9".to_string());
    let without = build_command(&c, Engine::Primary, &bare("pilot"), &markers());
    assert!(!without.args.iter().any(|a| a == "-r" || a == "s-9"));
    let mut plain = config("go");
    plain.session_id = None;
    assert_eq!(without.args, build_command(&plain, Engine::Primary, &bare("pilot"), &markers()).args);
    c.resume = true;
    let with = build_command(&c, Engine::Primary, &bare("pilot"), &markers());
    let pos = with.args.iter().position(|a| a == "-r").unwrap();
    assert_eq!(with.args[pos + 1], "s-9");
}

#[test]
fn secondary_resume_round_trip() {
    let mut c = config("go");
    c.session_id = Some("g-1".to_string());
    c.resume = true;
    let with = build_command(&c, Engine::Secondary, &bare("navigator"), &markers());
    let pos = with.args.iter().position(|a| a == "--resume").unwrap();
    assert_eq!(with.args[pos + 1], "g-1");
    c.resume = false;
    let without = build_command(&c, Engine::Secondary, &bare("navigator"), &markers());
    assert!(!without.args.iter().any(|a| a == "--resume" || a == "g-1"));
}

#[test]
fn secondary_prompt_carries_system_instructions() {
    let mut c = config("hello");
    c.system_prompt = Some("rules".to_string());
    c.model = Some("g2".to_string());
    let plan = build_command(&c, Engine::Secondary, &bare("navigator"), &markers());
    assert_eq!(
        plan.args,
        vec![
            "--prompt",
            "[System Instructions]\nrules\n\n[User Message]\nhello",
            "--output-format",
            "stream-json",
            "--yolo",
            "--model",
            "g2",
        ]
    );
}

#[test]
fn script_wrapper_runs_through_interpreter() {
    let plan = build_command(&config("hi"), Engine::Primary, &bare("C:\\npm\\pilot.cmd"), &markers());
    assert_eq!(plan.program, "cmd.exe");
    assert_eq!(&plan.args[..3], &["/c", "C:\\npm\\pilot.cmd", "-p"]);
}

#[test]
fn pre_args_come_first() {
    let b = BinaryRef { program: "node".to_string(), pre_args: vec!["/x/index.js".to_string()] };
    let plan = build_command(&config("hi"), Engine::Secondary, &b, &markers());
    assert_eq!(plan.program, "node");
    assert_eq!(&plan.args[..3], &["/x/index.js", "--prompt", "hi"]);
}

#[test]
fn decimal_text_values() {
    assert_eq!(decimal_text(0), "0");
    assert_eq!(decimal_text(7), "7");
    assert_eq!(decimal_text(10), "10");
    assert_eq!(decimal_text(4_294_967_295), "4294967295");
}

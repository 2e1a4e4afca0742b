use casl::action::{Effect, IAction};
use casl::command::{process_commands, Command, Dispatch, ICommand, RedirectCommand};
use casl::command_api::{handle_response, CommandAction, Payload, Response};
use casl::config::{CommandConfig, Config, ConfigError};
use casl::speech::MetadataResult;

fn action_cmd(precondition: &str, use_raw_text: bool) -> CommandConfig {
    CommandConfig::Action {
        precondition: precondition.to_string(),
        use_raw_text,
        action: CommandAction::Custom,
    }
}

fn config(commands: Vec<CommandConfig>) -> Config {
    Config {
        model: "model.pbmm".to_string(),
        scorer: None,
        carryover_buffer_size: 16000,
        refresh_buffer_threshold: 48000,
        gap_detection_ms: 500,
        preprocessors: Vec::new(),
        commands,
    }
}

fn phrase(raw: &str, processed: &str) -> MetadataResult {
    MetadataResult {
        safe_to_refresh: true,
        phrase_raw: raw.to_string(),
        phrase: processed.to_string(),
        last_gap_start_ms: 0,
        last_gap_end_ms: 0,
    }
}

#[test]
fn every_matching_command_fires_in_order() {
    let conf = config(vec![
        action_cmd("hello", false),
        action_cmd("goodbye", false),
        action_cmd("HELLO", false),
    ]);
    let routed = process_commands(&phrase("hello there", "Hello there"), &conf).unwrap();
    let idx: Vec<usize> = routed.iter().map(|r| r.index).collect();
    assert_eq!(idx, vec![0, 2]);
    assert_eq!(routed[0].text, "Hello there");
}

#[test]
fn raw_or_processed_text_is_selected() {
    let conf = config(vec![action_cmd("^raw$", true), action_cmd("^done$", false)]);
    let routed = process_commands(&phrase("raw", "done"), &conf).unwrap();
    assert_eq!(routed.len(), 2);
    assert_eq!(routed[0].text, "raw");
    assert_eq!(routed[1].text, "done");
}

#[test]
fn invalid_precondition_is_reported() {
    let conf = config(vec![action_cmd("ok", false), action_cmd("(", false)]);
    let r = process_commands(&phrase("ok", "ok"), &conf);
    assert_eq!(r.err(), Some(ConfigError::InvalidPattern { index: 1 }));
    assert_eq!(action_cmd("(", false).is_match("x"), None);
    assert_eq!(action_cmd("X", false).is_match("x"), Some(true));
}

#[test]
fn payload_is_json() {
    let p = Payload { text: "say \"hi\"".to_string() };
    assert_eq!(p.to_json(), "{\"text\":\"say \\\"hi\\\"\"}");
}

#[test]
fn net_command_sends_payload() {
    let conf = CommandConfig::Net {
        precondition: "x".to_string(),
        use_raw_text: false,
        dst_port: 9000,
        src_port: 9001,
        src_addr: None,
        dst_addr: "127.0.0.1".to_string(),
    };
    assert!(!conf.use_raw());
    match conf.command().unwrap().run("lights on") {
        Dispatch::Datagram { src_addr, src_port, dst_addr, dst_port, request } => {
            assert_eq!(src_addr, "localhost");
            assert_eq!(src_port, 9001);
            assert_eq!(dst_addr, "127.0.0.1");
            assert_eq!(dst_port, 9000);
            assert_eq!(request, "{\"text\":\"lights on\"}");
        }
        _ => panic!("expected a datagram"),
    }
}

#[test]
fn stdio_command_writes_one_line() {
    let conf = CommandConfig::StdIO {
        precondition: "x".to_string(),
        command: "./responder".to_string(),
        use_raw_text: true,
    };
    assert!(conf.use_raw());
    match conf.command().unwrap().run("hi") {
        Dispatch::Piped { command, request } => {
            assert_eq!(command, "./responder");
            assert_eq!(request, "{\"text\":\"hi\"}\n");
        }
        _ => panic!("expected a piped round trip"),
    }
}

#[test]
fn shell_command_expands_groups() {
    let conf = CommandConfig::Shell {
        precondition: "open (\\w+)".to_string(),
        command: "xdg-open $1".to_string(),
        shell: "/bin/bash".to_string(),
        use_raw_text: false,
    };
    let cmd = conf.command().unwrap();
    match cmd.run("please OPEN firefox") {
        Dispatch::Spawn { shell, command } => {
            assert_eq!(shell, "/bin/bash");
            assert_eq!(command, "xdg-open firefox");
        }
        _ => panic!("expected a spawn"),
    }
    assert!(matches!(cmd.run("close it"), Dispatch::Skip));
    let bad = CommandConfig::Shell {
        precondition: "(".to_string(),
        command: "x".to_string(),
        shell: "/bin/sh".to_string(),
        use_raw_text: false,
    };
    assert_eq!(bad.command().err(), Some(ConfigError::InvalidPattern { index: 0 }));
}

#[test]
fn redirect_forwards_to_loaded_command() {
    let conf = CommandConfig::Redirect {
        precondition: "x".to_string(),
        use_raw_text: false,
        path: "cmd.json".to_string(),
    };
    assert_eq!(conf.command().err(), Some(ConfigError::Unresolved));
    let loaded = CommandConfig::StdIO {
        precondition: "y".to_string(),
        command: "./tool".to_string(),
        use_raw_text: false,
    };
    let redirect = RedirectCommand::from_parts("cmd.json".to_string(), loaded.command().unwrap());
    match Command::Redirect(redirect).run("go") {
        Dispatch::Piped { command, request } => {
            assert_eq!(command, "./tool");
            assert_eq!(request, "{\"text\":\"go\"}\n");
        }
        _ => panic!("expected a piped round trip"),
    }
}

#[test]
fn action_command_performs_directly() {
    let conf = CommandConfig::Action {
        precondition: "x".to_string(),
        use_raw_text: false,
        action: CommandAction::Shell { command: "echo hi".to_string(), shell: None },
    };
    match conf.command().unwrap().run("anything") {
        Dispatch::Perform { effect: Effect::Spawn { shell, command } } => {
            assert_eq!(shell, "/bin/sh");
            assert_eq!(command, "echo hi");
        }
        _ => panic!("expected a spawn effect"),
    }
}

#[test]
fn error_response_performs_nothing() {
    let resp = Response { error: Some("boom".to_string()), action: CommandAction::Custom };
    match handle_response(&resp) {
        Err(e) => assert_eq!(e, "boom"),
        Ok(_) => panic!("an error reply must not act"),
    }
}

#[test]
fn debug_response_prints_banner() {
    let resp = Response {
        error: None,
        action: CommandAction::CASL {
            operation: "debug".to_string(),
            parameters: vec!["x".to_string()],
        },
    };
    match handle_response(&resp).ok().unwrap().act() {
        Effect::Print { text } => {
            assert!(text.contains("x"));
            assert_eq!(text, "\\/ CASL DEBUG MESSAGE \\/\nx\n/\\CASL DEBUG MESSAGE/\\");
        }
        _ => panic!("expected a banner"),
    }
}

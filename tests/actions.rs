use casl::action::{Effect, IAction, NoAction, ShellAction};
use casl::casl_action::{get_func_by_name, hello_world, print_err, print_warn, CASLAction, CaslOp};
use casl::command_api::CommandAction;

fn casl(op: &str, params: &[&str]) -> CommandAction {
    CommandAction::CASL {
        operation: op.to_string(),
        parameters: params.iter().map(|p| p.to_string()).collect(),
    }
}

#[test]
fn unknown_casl_operation_does_nothing() {
    let a = casl("nonexistent", &[]);
    assert!(matches!(a.action().act(), Effect::Nothing));
    assert!(CASLAction::new(&a).func.is_none());
}

#[test]
fn casl_lookup_ignores_case() {
    assert_eq!(get_func_by_name("DeBuG"), Some(CaslOp::Debug));
    assert_eq!(get_func_by_name("Hello World"), Some(CaslOp::HelloWorld));
    assert_eq!(get_func_by_name("WARNING"), Some(CaslOp::Warning));
    assert_eq!(get_func_by_name("error"), Some(CaslOp::Error));
    assert_eq!(get_func_by_name("errors"), None);
}

#[test]
fn greeting_texts() {
    assert_eq!(hello_world(&vec![]), "Hello world");
    assert_eq!(hello_world(&vec!["big".to_string(), "x".to_string()]), "Hello big world");
    match casl("hello world", &["wide"]).action().act() {
        Effect::Print { text } => assert_eq!(text, "Hello wide world"),
        _ => panic!("expected a greeting"),
    }
}

#[test]
fn banners_join_lines() {
    let ps = vec!["a".to_string(), "b".to_string()];
    assert_eq!(print_warn(&ps), "\\/ CASL WARNING MESSAGE \\/\na\nb\n/\\CASL WARNING MESSAGE/\\");
    assert_eq!(print_err(&vec![]), "\\/ CASL ERROR MESSAGE \\/\n\n/\\CASL ERROR MESSAGE/\\");
}

#[test]
fn shell_action_defaults_to_sh() {
    let a = CommandAction::Shell { command: "ls".to_string(), shell: None };
    let s = ShellAction::new(&a);
    assert_eq!(s.shell, "/bin/sh");
    assert_eq!(s.command, "ls");
    let b = CommandAction::Shell { command: "ls".to_string(), shell: Some("/bin/zsh".to_string()) };
    match b.action().act() {
        Effect::Spawn { shell, command } => {
            assert_eq!(shell, "/bin/zsh");
            assert_eq!(command, "ls");
        }
        _ => panic!("expected a spawn"),
    }
}

#[test]
fn custom_action_does_nothing() {
    let a = CommandAction::Custom;
    assert!(matches!(NoAction::new(&a).act(), Effect::Nothing));
    assert!(matches!(a.action().act(), Effect::Nothing));
}

use fcmap_speedy::{fault_report, greeting_text, init, Effect, HostCall, Runtime};

const GREETING: &str = "[fcmap-speedy] Library initialized";

fn log_lines(effects: &[Effect]) -> Vec<String> {
    let mut lines = Vec::new();
    for e in effects {
        if let Effect::Host(HostCall::Log(s)) = e {
            lines.push(s.clone());
        }
    }
    lines
}

fn alerts(effects: &[Effect]) -> usize {
    effects
        .iter()
        .filter(|e| matches!(e, Effect::Host(HostCall::Alert(_))))
        .count()
}

fn installs(effects: &[Effect]) -> usize {
    effects.iter().filter(|e| matches!(e, Effect::InstallFaultHook)).count()
}

#[test]
fn greeting_text_is_the_fixed_line() {
    assert_eq!(greeting_text(), GREETING);
}

#[test]
fn new_runtime_has_no_hook() {
    assert!(!Runtime::new().fault_hook_installed);
}

#[test]
fn init_once_records_exactly_the_greeting() {
    let mut rt = Runtime::new();
    let effects = init(&mut rt);
    assert_eq!(log_lines(&effects), vec![GREETING.to_string()]);
    assert_eq!(
        effects,
        vec![Effect::InstallFaultHook, Effect::Host(HostCall::Log(GREETING.to_string()))]
    );
    assert!(rt.fault_hook_installed);
}

#[test]
fn init_again_logs_greeting_without_reinstalling() {
    let mut rt = Runtime { fault_hook_installed: true };
    let effects = init(&mut rt);
    assert_eq!(effects, vec![Effect::Host(HostCall::Log(GREETING.to_string()))]);
    assert!(rt.fault_hook_installed);
}

#[test]
fn repeated_init_keeps_hook_and_installs_once() {
    let mut rt = Runtime::new();
    let mut all = Vec::new();
    for _ in 0..5 {
        all.extend(init(&mut rt));
        assert!(rt.fault_hook_installed);
    }
    assert_eq!(installs(&all), 1);
    assert_eq!(log_lines(&all), vec![GREETING.to_string(); 5]);
}

#[test]
fn init_never_alerts() {
    let mut rt = Runtime::new();
    let first = init(&mut rt);
    let second = init(&mut rt);
    assert_eq!(alerts(&first), 0);
    assert_eq!(alerts(&second), 0);
}

#[test]
fn fault_before_init_is_silent() {
    let rt = Runtime::new();
    assert_eq!(fault_report(&rt, "index out of bounds".to_string()), vec![]);
}

#[test]
fn fault_after_init_is_logged() {
    let mut rt = Runtime::new();
    init(&mut rt);
    let calls = fault_report(&rt, "panicked at src/lib.rs:3:5: boom".to_string());
    assert_eq!(calls, vec![HostCall::Log("panicked at src/lib.rs:3:5: boom".to_string())]);
}

#[test]
fn fault_with_empty_description_after_init_is_logged() {
    let mut rt = Runtime::new();
    init(&mut rt);
    assert_eq!(fault_report(&rt, String::new()), vec![HostCall::Log(String::new())]);
}

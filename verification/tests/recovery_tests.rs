use bar_supervisor::errors::{ErrorKind, FatalError};
use bar_supervisor::recovery::{restart_signal_number, CrashRecovery, Severity};

fn block_failure(message: &str, block: &str) -> FatalError {
    FatalError {
        kind: ErrorKind::Block,
        message: Some(message.to_string()),
        cause: None,
        block: Some(block.to_string()),
    }
}

#[test]
fn render_produces_one_critical_unit_with_escaped_message() {
    let mut recovery = CrashRecovery::start();
    let unit = recovery.render(&block_failure("In block b: boom & <x>", "b"));
    assert_eq!(unit.severity, Severity::Critical);
    assert_eq!(unit.text, "In block b: boom &amp; &lt;x&gt;");
}

#[test]
fn render_appends_cause_and_escapes_quotes() {
    let mut recovery = CrashRecovery::start();
    let error = FatalError {
        kind: ErrorKind::Other,
        message: Some("it 'broke'".to_string()),
        cause: Some("why".to_string()),
        block: None,
    };
    let unit = recovery.render(&error);
    assert_eq!(unit.text, "it &#39;broke&#39;. Cause: why");
}

#[test]
fn render_without_message_uses_fallback_word() {
    let mut recovery = CrashRecovery::start();
    let error = FatalError { kind: ErrorKind::Config, message: None, cause: None, block: None };
    let unit = recovery.render(&error);
    assert_eq!(unit.text, "Error");
    assert_eq!(unit.severity, Severity::Critical);
}

#[test]
fn only_restart_signal_wakes_the_machine() {
    let mut recovery = CrashRecovery::start();
    let _ = recovery.render(&block_failure("boom", "b"));
    assert!(!recovery.on_signal(restart_signal_number() - 2));
    assert!(!recovery.on_signal(restart_signal_number() + 1));
    assert!(recovery.on_signal(restart_signal_number()));
}

#[test]
fn replacement_appends_flag_exactly_once() {
    let mut recovery = CrashRecovery::start();
    let _ = recovery.render(&block_failure("boom", "b"));
    assert!(recovery.on_signal(restart_signal_number()));
    let argv = vec!["statusbar".to_string(), "-".to_string()];
    let replaced = recovery.replacement_argv(argv);
    assert_eq!(replaced, vec!["statusbar", "-", "--no-init"]);

    // A later failure in the replacement image appends nothing further.
    let mut second = CrashRecovery::start();
    let _ = second.render(&block_failure("boom again", "b"));
    assert!(second.on_signal(restart_signal_number()));
    let replaced_again = second.replacement_argv(replaced.clone());
    assert_eq!(replaced_again, replaced);
}

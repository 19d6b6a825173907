use toke_pty::errors::BridgeError;
use toke_pty::launch::LaunchConfig;
use toke_pty::launch::launch_script;
use toke_pty::launch::shell_or_default;

#[test]
fn script_with_absolute_path() {
    let cfg = LaunchConfig {
        shell: "/bin/sh".to_string(),
        program: "/usr/local/bin/toke".to_string(),
        workdir: None,
    };
    let s = launch_script(&cfg);
    assert_eq!(
        s,
        "/usr/local/bin/toke || true; printf '\\033[2J\\033[H\\033[?25h'; clear; exec /bin/sh"
    );
}

#[test]
fn script_with_bundled_workdir() {
    let cfg = LaunchConfig {
        shell: "/bin/zsh".to_string(),
        program: "/opt/bundle/toke".to_string(),
        workdir: Some("/opt/bundle".to_string()),
    };
    let s = launch_script(&cfg);
    assert_eq!(
        s,
        "./toke || true; printf '\\033[2J\\033[H\\033[?25h'; clear; exec /bin/zsh"
    );
}

#[test]
fn script_for_sh_scenario() {
    let cfg = LaunchConfig {
        shell: "/bin/sh".to_string(),
        program: "false".to_string(),
        workdir: None,
    };
    let s = launch_script(&cfg);
    assert_eq!(
        s,
        "false || true; printf '\\033[2J\\033[H\\033[?25h'; clear; exec /bin/sh"
    );
}

#[test]
fn shell_from_environment_is_kept() {
    let s = shell_or_default(Some("/bin/zsh".to_string()));
    assert_eq!(s, "/bin/zsh");
}

#[test]
fn shell_defaults_to_bash() {
    let s = shell_or_default(None);
    assert_eq!(s, "/bin/bash");
}

#[test]
fn error_messages_carry_their_text() {
    let a = BridgeError::PtyAllocation("no pty".to_string());
    assert_eq!(a.message(), "no pty");
    let b = BridgeError::Spawn("no shell".to_string());
    assert_eq!(b.message(), "no shell");
    let c = BridgeError::Write("broken pipe".to_string());
    assert_eq!(c.message(), "broken pipe");
}

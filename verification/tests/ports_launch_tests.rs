use sidecar_supervisor::cli_install::cli_install_path;
use sidecar_supervisor::cli_install::install_precheck;
use sidecar_supervisor::cli_install::install_script_outcome;
use sidecar_supervisor::cli_install::is_cli_installed;
use sidecar_supervisor::launch::serve_args;
use sidecar_supervisor::launch::shell_args;
use sidecar_supervisor::launch::shell_invocation;
use sidecar_supervisor::launch::sidecar_env;
use sidecar_supervisor::launch::u16_to_decimal;
use sidecar_supervisor::launch::user_shell_or_default;
use sidecar_supervisor::ports::parse_port;
use sidecar_supervisor::ports::resolve_port;
use sidecar_supervisor::ports::PortChoice;

#[test]
fn parse_port_accepts_decimal_u16() {
    assert_eq!(parse_port("3000"), Some(3000));
    assert_eq!(parse_port("0"), Some(0));
    assert_eq!(parse_port("65535"), Some(65535));
    assert_eq!(parse_port("+80"), Some(80));
    assert_eq!(parse_port("007"), Some(7));
}

#[test]
fn parse_port_rejects_what_u16_from_str_rejects() {
    assert_eq!(parse_port(""), None);
    assert_eq!(parse_port("+"), None);
    assert_eq!(parse_port("65536"), None);
    assert_eq!(parse_port("99999999999999999999"), None);
    assert_eq!(parse_port("80a"), None);
    assert_eq!(parse_port("-1"), None);
    assert_eq!(parse_port(" 80"), None);
    assert_eq!(parse_port("8 0"), None);
}

#[test]
fn parse_port_agrees_with_the_standard_parser() {
    for s in ["3000", "+80", "007", "", "+", "65535", "65536", "80a", "-1", " 80"] {
        assert_eq!(parse_port(s), s.parse::<u16>().ok(), "input {:?}", s);
    }
}

#[test]
fn resolve_port_precedence_baked_then_env_then_ephemeral() {
    assert_eq!(resolve_port(Some("4096"), Some("5000")), PortChoice::Configured(4096));
    assert_eq!(resolve_port(None, Some("5000")), PortChoice::Configured(5000));
    assert_eq!(resolve_port(None, None), PortChoice::Ephemeral);
}

#[test]
fn unparsable_override_falls_through_to_ephemeral() {
    assert_eq!(resolve_port(Some("not-a-port"), Some("5000")), PortChoice::Ephemeral);
    assert_eq!(resolve_port(None, Some("70000")), PortChoice::Ephemeral);
}

#[test]
fn decimal_rendering() {
    assert_eq!(u16_to_decimal(0), "0");
    assert_eq!(u16_to_decimal(7), "7");
    assert_eq!(u16_to_decimal(3000), "3000");
    assert_eq!(u16_to_decimal(65535), "65535");
}

#[test]
fn direct_invocation_arguments() {
    let args = serve_args(3000);
    assert_eq!(args, vec!["serve".to_string(), "--port=3000".to_string()]);
}

#[test]
fn login_shell_invocation_quotes_the_sidecar_path() {
    let line = shell_invocation("/opt/app/opencode-cli", 4500);
    assert_eq!(line, "\"/opt/app/opencode-cli\" serve --port=4500");
    let args = shell_args("/opt/app/opencode-cli", 4500);
    assert_eq!(
        args,
        vec![
            "-il".to_string(),
            "-c".to_string(),
            "\"/opt/app/opencode-cli\" serve --port=4500".to_string()
        ]
    );
}

#[test]
fn shell_fallback_is_the_posix_default() {
    assert_eq!(user_shell_or_default(Some("/bin/zsh".to_string())), "/bin/zsh");
    assert_eq!(user_shell_or_default(None), "/bin/sh");
}

#[test]
fn sidecar_environment_pairs() {
    let env = sidecar_env("/home/u/.local/state");
    assert_eq!(
        env,
        vec![
            ("OPENCODE_EXPERIMENTAL_ICON_DISCOVERY".to_string(), "true".to_string()),
            ("OPENCODE_CLIENT".to_string(), "desktop".to_string()),
            ("XDG_STATE_HOME".to_string(), "/home/u/.local/state".to_string()),
        ]
    );
}

#[test]
fn install_path_is_home_relative() {
    assert_eq!(
        cli_install_path(Some("/home/u")),
        Some("/home/u/.opencode/bin/opencode".to_string())
    );
    assert_eq!(cli_install_path(None), None);
}

#[test]
fn installed_means_home_known_and_path_present() {
    assert!(is_cli_installed(Some("/home/u"), true));
    assert!(!is_cli_installed(Some("/home/u"), false));
    assert!(!is_cli_installed(None, true));
}

#[test]
fn install_precheck_errors() {
    assert_eq!(
        install_precheck(false, true),
        Err("CLI installation is only supported on macOS & Linux".to_string())
    );
    assert_eq!(install_precheck(true, false), Err("Sidecar binary not found".to_string()));
    assert_eq!(install_precheck(true, true), Ok(()));
}

#[test]
fn install_script_outcome_maps_exit_and_path() {
    assert_eq!(
        install_script_outcome(false, "permission denied\n", Some("/home/u/.opencode/bin/opencode")),
        Err("Install script failed: permission denied\n".to_string())
    );
    assert_eq!(
        install_script_outcome(true, "", None),
        Err("Could not determine install path".to_string())
    );
    assert_eq!(
        install_script_outcome(true, "", Some("/home/u/.opencode/bin/opencode")),
        Ok("/home/u/.opencode/bin/opencode".to_string())
    );
}

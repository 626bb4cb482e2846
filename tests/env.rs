use fnm_env::config::{FnmConfig, LogLevel};
use fnm_env::env::{shells_as_string, Env, Error};
use fnm_env::multishell::{
    binary_dir, find_free_symlink_path, generate_symlink_path, symlink_path_for, SymlinkSearch,
    SymlinkStep, MAX_SYMLINK_ATTEMPTS,
};
use fnm_env::shell::{available_shells_vec, Shell};
use fnm_env::text::{decimal_string, escape, join};
use std::cell::Cell;

fn scenario_config() -> FnmConfig {
    FnmConfig {
        base_dir: "/opt/versions".to_string(),
        default_version_dir: "/opt/versions/current".to_string(),
        node_dist_mirror: "https://mirror.example".to_string(),
        log_level: LogLevel::Info,
    }
}

const SESSION: &str = "/tmp/fnm_multishell_1_2";

fn scenario_lines() -> Vec<String> {
    vec![
        "export PATH=\"/tmp/fnm_multishell_1_2/bin\":$PATH".to_string(),
        "export FNM_MULTISHELL_PATH=\"/tmp/fnm_multishell_1_2\"".to_string(),
        "export FNM_DIR=\"/opt/versions\"".to_string(),
        "export FNM_LOGLEVEL=\"info\"".to_string(),
        "export FNM_NODE_DIST_MIRROR=\"https://mirror.example\"".to_string(),
    ]
}

#[test]
fn test_smoke() {
    let config = FnmConfig::default();
    let shell = Shell::Bash;
    let env = Env {
        shell: Some(shell),
        ..Env::default()
    };
    let lines = env
        .activate(&config, false, || None, || "/tmp/fnm_multishell_7_8".to_string())
        .unwrap();
    assert_eq!(lines.len(), 5);
    assert_eq!(lines[2], "export FNM_DIR=\".fnm\"");
    assert_eq!(lines[4], "export FNM_NODE_DIST_MIRROR=\"https://nodejs.org/dist\"");
}

#[test]
fn posix_script_without_hook() {
    let env = Env {
        shell: Some(Shell::Bash),
        ..Env::default()
    };
    let lines = env.script(Shell::Bash, SESSION, &scenario_config(), false);
    assert_eq!(lines, scenario_lines());
}

#[test]
fn posix_script_with_hook_appends_one_line() {
    let env = Env {
        shell: Some(Shell::Bash),
        use_on_cd: true,
        ..Env::default()
    };
    let lines = env.script(Shell::Bash, SESSION, &scenario_config(), false);
    let mut expected = scenario_lines();
    expected.push(Shell::Bash.use_on_cd());
    assert_eq!(lines, expected);
    assert!(lines[5].contains("__fnmcd"));
}

#[test]
fn deprecated_flag_warns_without_changing_script() {
    let plain = Env {
        shell: Some(Shell::Bash),
        ..Env::default()
    };
    let multi = Env {
        multi: true,
        ..plain
    };
    assert_eq!(plain.deprecation_warning(), None);
    assert_eq!(
        multi.deprecation_warning(),
        Some("warning: --multi is deprecated. This is now the default.".to_string())
    );
    let config = scenario_config();
    assert_eq!(
        plain.script(Shell::Bash, SESSION, &config, false),
        multi.script(Shell::Bash, SESSION, &config, false)
    );
}

#[test]
fn explicit_shell_never_asks_inference() {
    let env = Env {
        shell: Some(Shell::Fish),
        ..Env::default()
    };
    let r = env.resolve_shell(|| -> Option<Shell> { panic!("inference must not run") });
    assert_eq!(r, Ok(Shell::Fish));
    let lines = env
        .activate(
            &scenario_config(),
            false,
            || -> Option<Shell> { panic!("inference must not run") },
            || SESSION.to_string(),
        )
        .unwrap();
    assert_eq!(lines[0], "set -gx PATH \"/tmp/fnm_multishell_1_2/bin\" $PATH;");
}

#[test]
fn failed_inference_writes_no_line() {
    let env = Env::default();
    let r = env.activate(
        &scenario_config(),
        false,
        || None,
        || -> String { panic!("no symlink may be made") },
    );
    assert_eq!(r, Err(Error::CantInferShell));
    assert_eq!(env.resolve_shell(|| None), Err(Error::CantInferShell));
}

#[test]
fn inferred_shell_is_used() {
    let env = Env::default();
    assert_eq!(env.resolve_shell(|| Some(Shell::Zsh)), Ok(Shell::Zsh));
    let lines = env
        .activate(&scenario_config(), true, || Some(Shell::PowerShell), || "C:\\Temp\\s".to_string())
        .unwrap();
    assert_eq!(
        lines[0],
        "$env:PATH = \"C:\\Temp\\s\" + [IO.Path]::PathSeparator + $env:PATH"
    );
}

#[test]
fn error_message_lists_every_shell() {
    let m = Error::CantInferShell.message();
    assert_eq!(
        m,
        "Can't infer shell!\nfnm can't infer your shell based on the process tree.\nMaybe it is unsupported? we support the following shells:\n* bash\n* zsh\n* fish\n* powershell\n* cmd"
    );
}

#[test]
fn shells_listing() {
    assert_eq!(shells_as_string(), "* bash\n* zsh\n* fish\n* powershell\n* cmd");
}

#[test]
fn every_shell_is_selected_by_its_name() {
    for sh in available_shells_vec() {
        assert_eq!(Shell::from_name(sh.name()), Some(sh));
    }
    assert_eq!(Shell::from_name("tcsh"), None);
    assert_eq!(Shell::from_name(""), None);
    assert_eq!(Shell::from_name("Bash"), None);
}

#[test]
fn statements_of_each_dialect() {
    assert_eq!(Shell::Zsh.path("/a b"), "export PATH=\"/a b\":$PATH");
    assert_eq!(Shell::Fish.set_env_var("FNM_DIR", "/x"), "set -gx FNM_DIR \"/x\";");
    assert_eq!(Shell::PowerShell.set_env_var("FNM_DIR", "/x"), "$env:FNM_DIR = \"/x\"");
    assert_eq!(Shell::WindowsCmd.path("C:\\x"), "SET PATH=C:\\x;%PATH%");
    assert_eq!(Shell::WindowsCmd.set_env_var("FNM_DIR", "C:\\x"), "SET FNM_DIR=C:\\x");
}

#[test]
fn quoting_escapes_special_characters() {
    assert_eq!(
        Shell::Bash.set_env_var("V", "a\"b$c`d\\e"),
        "export V=\"a\\\"b\\$c\\`d\\\\e\""
    );
    assert_eq!(Shell::Fish.set_env_var("V", "$x\"`"), "set -gx V \"\\$x\\\"`\";");
    assert_eq!(Shell::PowerShell.set_env_var("V", "$x`\""), "$env:V = \"`$x```\"\"");
    assert_eq!(Shell::WindowsCmd.set_env_var("V", "a&b|c"), "SET V=a^&b^|c");
    assert_eq!(escape("héllo", "l", "\\"), "hé\\l\\lo");
    assert_eq!(escape("", "l", "\\"), "");
}

#[test]
fn hook_scripts_differ_by_dialect() {
    assert!(Shell::Zsh.use_on_cd().contains("add-zsh-hook chpwd"));
    assert!(Shell::Fish.use_on_cd().contains("--on-variable PWD"));
    assert!(Shell::PowerShell.use_on_cd().contains("Set-LocationWithFnm"));
    assert!(Shell::WindowsCmd.use_on_cd().starts_with("doskey cd="));
}

#[test]
fn decimal_numerals() {
    assert_eq!(decimal_string(0), "0");
    assert_eq!(decimal_string(9), "9");
    assert_eq!(decimal_string(10), "10");
    assert_eq!(decimal_string(1234567890123), "1234567890123");
    assert_eq!(decimal_string(u64::MAX), "18446744073709551615");
}

#[test]
fn joining_paths() {
    assert_eq!(join("/tmp", "x"), "/tmp/x");
    assert_eq!(join("/tmp/", "x"), "/tmp/x");
    assert_eq!(join("C:\\Temp\\", "x"), "C:\\Temp\\x");
    assert_eq!(join("", "x"), "x");
}

#[test]
fn binary_dir_by_platform() {
    assert_eq!(binary_dir("/tmp/s", false), "/tmp/s/bin");
    assert_eq!(binary_dir("C:\\s", true), "C:\\s");
}

#[test]
fn symlink_paths() {
    assert_eq!(symlink_path_for("/tmp", 1, 5), "/tmp/fnm_multishell_1_5");
    assert_ne!(symlink_path_for("/tmp", 1, 5), symlink_path_for("/tmp", 2, 5));
    assert_ne!(symlink_path_for("/tmp", 1, 23), symlink_path_for("/tmp", 12, 3));
    assert_eq!(symlink_path_for("/tmp/", 4294967295, 0), "/tmp/fnm_multishell_4294967295_0");
}

#[test]
fn generated_path_carries_pid_and_current_time() {
    let p = generate_symlink_path("/tmp", 42);
    let rest = p.strip_prefix("/tmp/fnm_multishell_42_").unwrap();
    let millis: u64 = rest.parse().unwrap();
    assert!(millis > 1_600_000_000_000);
}

#[test]
fn search_decisions() {
    let mut s = SymlinkSearch::new();
    assert_eq!(s.observe(false), SymlinkStep::Create);
    assert_eq!(s.taken, 0);
    let mut steps = Vec::new();
    for _ in 0..MAX_SYMLINK_ATTEMPTS {
        steps.push(s.observe(true));
    }
    assert_eq!(steps.iter().filter(|x| **x == SymlinkStep::Retry).count(), 15);
    assert_eq!(steps[15], SymlinkStep::GiveUp);
}

#[test]
fn search_skips_taken_candidates() {
    let calls = Cell::new(0u32);
    let r = find_free_symlink_path("/tmp", 9, |_p: &str| {
        calls.set(calls.get() + 1);
        calls.get() <= 2
    });
    assert_eq!(calls.get(), 3);
    assert!(r.unwrap().starts_with("/tmp/fnm_multishell_9_"));
}

#[test]
fn search_gives_up_when_everything_is_taken() {
    let calls = Cell::new(0u32);
    let r = find_free_symlink_path("/tmp", 9, |_p: &str| {
        calls.set(calls.get() + 1);
        true
    });
    assert_eq!(r, None);
    assert_eq!(calls.get(), MAX_SYMLINK_ATTEMPTS);
}

#[test]
fn config_from_base_dir() {
    let c = FnmConfig::with_base_dir("/home/u/.fnm");
    assert_eq!(c.default_version_dir, "/home/u/.fnm/aliases/default");
    assert_eq!(c.node_dist_mirror, "https://nodejs.org/dist");
    assert_eq!(c.log_level.as_str(), "info");
    assert_eq!(LogLevel::Quiet.as_str(), "quiet");
    assert_eq!(LogLevel::Error.as_str(), "error");
}

use click::args::{foreground_args, terminal_args};
use click::flags::{attach_token, resolve_flag, Attach, FlagSetting};
use click::outcome::{
    binary_is_absolute, foreground_outcome, not_found_message, terminal_outcome, ExecError,
    LaunchError,
};
use click::plan::{
    binary_name, plan_exec, resolve_launcher, starting_message, ExecRequest, ExecutionContext,
    Mode, ObjectKind, Target,
};

fn strings(v: &[&str]) -> Vec<String> {
    v.iter().map(|s| s.to_string()).collect()
}

fn pod() -> Target {
    Target {
        name: "web-0".to_string(),
        namespace: Some("default".to_string()),
        kind: ObjectKind::Pod,
    }
}

fn ctx(impersonate: Option<&str>) -> ExecutionContext {
    ExecutionContext {
        binary: None,
        context: Some("prod".to_string()),
        impersonate: impersonate.map(|s| s.to_string()),
        terminal: None,
    }
}

fn request(container: Option<&str>, mode: Mode) -> ExecRequest {
    ExecRequest {
        command: strings(&["ls"]),
        container: container.map(|s| s.to_string()),
        tty: FlagSetting::Absent,
        stdin: FlagSetting::Absent,
        mode,
    }
}

#[test]
fn attach_table_is_total() {
    assert_eq!(attach_token(true, true), Some(Attach::Both));
    assert_eq!(attach_token(true, false), Some(Attach::TtyOnly));
    assert_eq!(attach_token(false, true), Some(Attach::StdinOnly));
    assert_eq!(attach_token(false, false), None);
    assert_eq!(Attach::Both.token(), "-it");
    assert_eq!(Attach::TtyOnly.token(), "-t");
    assert_eq!(Attach::StdinOnly.token(), "-i");
}

#[test]
fn flags_default_to_true() {
    assert!(resolve_flag(FlagSetting::Absent));
    assert!(resolve_flag(FlagSetting::Bare));
    assert!(resolve_flag(FlagSetting::Given(true)));
    assert!(!resolve_flag(FlagSetting::Given(false)));
}

#[test]
fn foreground_scenario_success() {
    let inv = plan_exec(&ctx(None), &pod(), &request(None, Mode::Foreground)).unwrap();
    assert_eq!(
        inv.argv,
        strings(&[
            "kubectl", "--namespace", "default", "--context", "prod", "exec", "-it", "web-0",
            "--", "ls"
        ])
    );
    assert!(!inv.detached);
    assert_eq!(inv.notice, None);
    assert_eq!(foreground_outcome("kubectl", &Ok(true)), Ok(()));
}

#[test]
fn foreground_scenario_abnormal_exit() {
    let r = foreground_outcome("kubectl", &Ok(false));
    assert_eq!(
        r,
        Err(ExecError::ExternalFailure("kubectl exited abnormally".to_string()))
    );
    assert!(r.unwrap_err().message().ends_with("exited abnormally"));
}

#[test]
fn terminal_scenario_with_identity() {
    let mode = Mode::Terminal(Some("xterm -e".to_string()));
    let inv = plan_exec(&ctx(Some("alice")), &pod(), &request(Some("app"), mode)).unwrap();
    assert_eq!(
        inv.argv,
        strings(&[
            "xterm", "-e", "kubectl", "--namespace", "default", "--context", "prod", "exec",
            "-it", "web-0", "-c", "app", "--as", "alice", "--", "ls"
        ])
    );
    assert!(inv.detached);
    assert_eq!(inv.notice, Some("Starting on web-0 in terminal".to_string()));
    assert_eq!(terminal_outcome("kubectl", &Ok(())), Ok(()));
}

#[test]
fn terminal_scenario_without_identity() {
    let mode = Mode::Terminal(Some("xterm -e".to_string()));
    let inv = plan_exec(&ctx(None), &pod(), &request(Some("app"), mode)).unwrap();
    assert_eq!(
        inv.argv,
        strings(&[
            "xterm", "-e", "kubectl", "--namespace", "default", "--context", "prod", "exec",
            "-it", "web-0", "-c", "app", "--", "ls"
        ])
    );
}

#[test]
fn non_pod_is_rejected() {
    let t = Target {
        name: "web".to_string(),
        namespace: Some("default".to_string()),
        kind: ObjectKind::Other("deployment".to_string()),
    };
    let r = plan_exec(&ctx(None), &t, &request(None, Mode::Foreground));
    assert!(matches!(r, Err(ExecError::NotPod)));
    assert_eq!(ExecError::NotPod.message(), "Exec only possible on pods");
    let r = plan_exec(&ctx(None), &t, &request(None, Mode::Terminal(None)));
    assert!(matches!(r, Err(ExecError::NotPod)));
}

#[test]
fn missing_context_is_rejected() {
    let mut c = ctx(None);
    c.context = None;
    let r = plan_exec(&c, &pod(), &request(None, Mode::Foreground));
    assert!(matches!(r, Err(ExecError::NoContext)));
    assert_eq!(
        ExecError::NoContext.message(),
        "Need an active context in order to exec."
    );
}

#[test]
fn foreground_places_identity_before_container() {
    let args = foreground_args(
        "ns",
        "c1",
        "p",
        None,
        &Some("bob".to_string()),
        &Some("side".to_string()),
        &strings(&["sh", "-c", "echo hi"]),
    );
    assert_eq!(
        args,
        strings(&[
            "--namespace", "ns", "--context", "c1", "exec", "p", "--as", "bob", "-c", "side", "--",
            "sh", "-c", "echo hi"
        ])
    );
}

#[test]
fn foreground_separator_without_options() {
    let args = foreground_args(
        "ns",
        "c1",
        "p",
        Some(Attach::StdinOnly),
        &None,
        &None,
        &strings(&["--version"]),
    );
    assert_eq!(
        args,
        strings(&["--namespace", "ns", "--context", "c1", "exec", "-i", "p", "--", "--version"])
    );
}

#[test]
fn terminal_splits_launcher_on_whitespace() {
    let args = terminal_args(
        "  gnome-terminal \t --wait  -- ",
        "/opt/kubectl",
        "ns",
        "c1",
        "p",
        Some(Attach::TtyOnly),
        &None,
        &None,
        &strings(&["top"]),
    );
    assert_eq!(
        args,
        strings(&[
            "gnome-terminal", "--wait", "--", "/opt/kubectl", "--namespace", "ns", "--context",
            "c1", "exec", "-t", "p", "--", "top"
        ])
    );
}

#[test]
fn no_attach_token_when_both_flags_off() {
    let mut req = request(None, Mode::Foreground);
    req.tty = FlagSetting::Given(false);
    req.stdin = FlagSetting::Given(false);
    let inv = plan_exec(&ctx(None), &pod(), &req).unwrap();
    assert_eq!(
        inv.argv,
        strings(&[
            "kubectl", "--namespace", "default", "--context", "prod", "exec", "web-0", "--", "ls"
        ])
    );
}

#[test]
fn launcher_precedence() {
    let mut c = ctx(None);
    assert_eq!(resolve_launcher(&None, &c), "xterm -e");
    c.terminal = Some("urxvt -e".to_string());
    assert_eq!(resolve_launcher(&None, &c), "urxvt -e");
    assert_eq!(resolve_launcher(&Some("kitty".to_string()), &c), "kitty");
    let inv = plan_exec(&c, &pod(), &request(None, Mode::Terminal(None))).unwrap();
    assert_eq!(inv.argv[0], "urxvt");
    assert_eq!(inv.argv[1], "-e");
    assert_eq!(inv.argv[2], "kubectl");
}

#[test]
fn binary_override() {
    let mut c = ctx(None);
    assert_eq!(binary_name(&c), "kubectl");
    c.binary = Some("/usr/local/bin/kubectl".to_string());
    assert_eq!(binary_name(&c), "/usr/local/bin/kubectl");
    let inv = plan_exec(&c, &pod(), &request(None, Mode::Foreground)).unwrap();
    assert_eq!(inv.argv[0], "/usr/local/bin/kubectl");
}

#[test]
fn not_found_message_depends_on_path_form() {
    assert!(binary_is_absolute("/usr/bin/kubectl"));
    assert!(!binary_is_absolute("kubectl"));
    assert!(!binary_is_absolute(""));
    assert_eq!(
        not_found_message("/usr/bin/kubectl"),
        "Could not find kubectl binary: '/usr/bin/kubectl'. Does it exist?"
    );
    assert_eq!(
        not_found_message("kubectl"),
        "Could not find kubectl binary: 'kubectl'. Is it in your PATH?"
    );
}

#[test]
fn launch_failures_classified_alike_in_both_modes() {
    let nf = Err(ExecError::BinaryNotFound(
        "Could not find kubectl binary: 'kc'. Is it in your PATH?".to_string(),
    ));
    assert_eq!(foreground_outcome("kc", &Err(LaunchError::NotFound)), nf);
    assert_eq!(terminal_outcome("kc", &Err(LaunchError::NotFound)), nf);
    let io = Err(ExecError::Io("permission denied".to_string()));
    let e = LaunchError::Other("permission denied".to_string());
    assert_eq!(foreground_outcome("kc", &Err(e.clone())), io);
    assert_eq!(terminal_outcome("kc", &Err(e)), io);
}

#[test]
fn starting_notice_text() {
    assert_eq!(starting_message("db-1"), "Starting on db-1 in terminal");
}

use nprofile::action::{CommandKind, CommandOutcome, CommandRequest};
use nprofile::error::Error;
use nprofile::process::CommandResult;
use nprofile::template::has_complete_specs;
use nprofile::profile::{CommandString, Dependency, Profile, ProfileConfig, ProfileEnvironment};

fn s(text: &str) -> String {
    text.to_string()
}

fn cmd(text: &str) -> CommandString {
    CommandString(s(text))
}

fn environment(with_state_check: bool) -> ProfileEnvironment {
    ProfileEnvironment {
        shell: Some(s("/bin/sh")),
        parameters: Some(vec![(s("device"), s("wifi")), (s("ssid"), s("Home"))]),
        can_enable: cmd("check {device}"),
        is_enabled: if with_state_check { Some(cmd("state {device}")) } else { None },
        enable: cmd("connect {device} {ssid}"),
        disable: cmd("off {device}"),
    }
}

fn wifi(with_state_check: bool) -> Profile {
    Profile {
        name: s("wifi"),
        aliases: Some(vec![s("w")]),
        dependencies: None,
        envs: vec![(s("linux"), environment(with_state_check))],
    }
}

fn exited(kind: CommandKind, code: i32, stderr: &str) -> CommandOutcome {
    CommandOutcome {
        kind,
        result: Ok(CommandResult { code: Some(code), stdout: Vec::new(), stderr: stderr.as_bytes().to_vec() }),
    }
}

fn expect_request(step: Result<Option<CommandRequest>, Error>, kind: CommandKind, command: &str) {
    let request = step.expect("a step").expect("a request");
    assert_eq!(request.kind, kind);
    assert_eq!(request.command, command);
    assert_eq!(request.shell, Some(s("/bin/sh")));
}

#[test]
fn end_to_end_enable_by_alias() {
    let config = ProfileConfig { profiles: vec![wifi(true)] };
    assert_eq!(config.is_valid(), Ok(()));
    let map = config.transform_to_profile_map();
    let targets = config.get_profiles_to_action(&map, &s("w")).unwrap();
    assert_eq!(targets.len(), 1);
    assert_eq!(targets[0].profile, 0);
    let plan = nprofile::sequence::plan_actions(&targets, nprofile::sequence::ProfileAction::Enable, &s("linux"));
    assert_eq!(plan.len(), 1);
    assert_eq!(plan[0].environment, "linux");
    let profile = &config.profiles[plan[0].profile];
    let env = &plan[0].environment;
    expect_request(profile.enable(env, None, None), CommandKind::CanEnable, "check wifi");
    let checked = exited(CommandKind::CanEnable, 0, "");
    expect_request(profile.enable(env, None, Some(&checked)), CommandKind::IsEnabled, "state wifi");
    let state = exited(CommandKind::IsEnabled, 1, "");
    expect_request(profile.enable(env, None, Some(&state)), CommandKind::Enable, "connect wifi Home");
    let done = exited(CommandKind::Enable, 0, "");
    assert_eq!(profile.enable(env, None, Some(&done)), Ok(None));
}

#[test]
fn enable_without_state_check_always_enables() {
    let profile = wifi(false);
    let checked = exited(CommandKind::CanEnable, 0, "");
    expect_request(profile.enable(&s("linux"), None, Some(&checked)), CommandKind::Enable, "connect wifi Home");
}

#[test]
fn disable_without_state_check_does_nothing() {
    let profile = wifi(false);
    assert_eq!(profile.disable(&s("linux"), None, None), Ok(None));
}

#[test]
fn disable_runs_when_active() {
    let profile = wifi(true);
    expect_request(profile.disable(&s("linux"), None, None), CommandKind::IsEnabled, "state wifi");
    let active = exited(CommandKind::IsEnabled, 0, "");
    expect_request(profile.disable(&s("linux"), None, Some(&active)), CommandKind::Disable, "off wifi");
    let inactive = exited(CommandKind::IsEnabled, 3, "");
    assert_eq!(profile.disable(&s("linux"), None, Some(&inactive)), Ok(None));
}

#[test]
fn failed_requirements_stop_enable() {
    let profile = wifi(true);
    let checked = exited(CommandKind::CanEnable, 1, "  no device radio0\n");
    assert_eq!(
        profile.enable(&s("linux"), None, Some(&checked)),
        Err(Error::ProfileRequirementsNotMet { message: s("no device radio0") })
    );
    let unrunnable = CommandOutcome { kind: CommandKind::CanEnable, result: Err(s("no such shell")) };
    assert_eq!(
        profile.enable(&s("linux"), None, Some(&unrunnable)),
        Err(Error::ProfileRequirementsNotMet { message: s("no such shell") })
    );
}

#[test]
fn enabling_an_active_profile_is_a_no_op() {
    let profile = wifi(true);
    let active = exited(CommandKind::IsEnabled, 0, "");
    assert_eq!(profile.enable(&s("linux"), None, Some(&active)), Ok(None));
    assert_eq!(profile.enable(&s("linux"), None, Some(&active)), Ok(None));
}

#[test]
fn state_check_failure_is_not_downgraded() {
    let profile = wifi(true);
    let broken = CommandOutcome { kind: CommandKind::IsEnabled, result: Err(s("spawn failed")) };
    assert_eq!(profile.enable(&s("linux"), None, Some(&broken)), Err(Error::Io { message: s("spawn failed") }));
    assert_eq!(profile.disable(&s("linux"), None, Some(&broken)), Err(Error::Io { message: s("spawn failed") }));
}

#[test]
fn enable_failure_reports_code_and_stderr() {
    let profile = wifi(true);
    let failed = exited(CommandKind::Enable, 4, "radio busy\n");
    assert_eq!(
        profile.enable(&s("linux"), None, Some(&failed)),
        Err(Error::CommandFailure { code: 4, message: s("radio busy") })
    );
    let killed = CommandOutcome {
        kind: CommandKind::Disable,
        result: Ok(CommandResult { code: None, stdout: Vec::new(), stderr: Vec::new() }),
    };
    assert_eq!(
        profile.disable(&s("linux"), None, Some(&killed)),
        Err(Error::CommandFailure { code: -1, message: s("") })
    );
}

#[test]
fn unreadable_stderr_is_reported() {
    let profile = wifi(true);
    let failed = CommandOutcome {
        kind: CommandKind::Enable,
        result: Ok(CommandResult { code: Some(2), stdout: Vec::new(), stderr: vec![0xff, 0xfe] }),
    };
    match profile.enable(&s("linux"), None, Some(&failed)) {
        Err(Error::CommandFailure { code, message }) => {
            assert_eq!(code, 2);
            assert!(message.starts_with("Failed to read command error output: "));
        },
        other => panic!("unexpected {:?}", other),
    }
}

#[test]
fn unknown_environment_is_rejected() {
    let profile = wifi(true);
    assert_eq!(
        profile.enable(&s("windows"), None, None),
        Err(Error::InvalidEnvironment { environment: s("windows"), profile: s("wifi") })
    );
    assert_eq!(
        profile.disable(&s("windows"), None, None),
        Err(Error::InvalidEnvironment { environment: s("windows"), profile: s("wifi") })
    );
}

#[test]
fn caller_override_takes_precedence() {
    let profile = wifi(true);
    let args = vec![(s("device"), s("radio1"))];
    expect_request(profile.enable(&s("linux"), Some(&args), None), CommandKind::CanEnable, "check radio1");
    expect_request(profile.enable(&s("linux"), None, None), CommandKind::CanEnable, "check wifi");
    let undeclared = vec![(s("speed"), s("fast"))];
    expect_request(profile.enable(&s("linux"), Some(&undeclared), None), CommandKind::CanEnable, "check wifi");
}

#[test]
fn later_override_wins() {
    let profile = wifi(true);
    let args = vec![(s("device"), s("radio1")), (s("device"), s("radio2"))];
    expect_request(profile.enable(&s("linux"), Some(&args), None), CommandKind::CanEnable, "check radio2");
}

#[test]
fn empty_default_is_substituted() {
    let mut env = environment(true);
    env.parameters = Some(vec![(s("device"), s(""))]);
    let profile = Profile { name: s("p"), aliases: None, dependencies: None, envs: vec![(s("linux"), env)] };
    expect_request(profile.enable(&s("linux"), None, None), CommandKind::CanEnable, "check ");
}

#[test]
fn templates_without_parameters_are_verbatim() {
    let mut env = environment(true);
    env.parameters = None;
    let profile = Profile { name: s("p"), aliases: None, dependencies: None, envs: vec![(s("linux"), env)] };
    expect_request(profile.enable(&s("linux"), None, None), CommandKind::CanEnable, "check {device}");
}

#[test]
fn unknown_placeholder_is_a_format_error() {
    let mut env = environment(true);
    env.can_enable = cmd("check {missing}");
    let profile = Profile { name: s("p"), aliases: None, dependencies: None, envs: vec![(s("linux"), env)] };
    assert!(matches!(profile.enable(&s("linux"), None, None), Err(Error::Format { .. })));
}

#[test]
fn prepare_with_args_substitutes() {
    let command = cmd("nmcli dev {device} connect {ssid}");
    let args = vec![(s("device"), s("wlan0")), (s("ssid"), s("Cafe"))];
    assert_eq!(command.prepare_with_args(Some(&args)), Ok(s("nmcli dev wlan0 connect Cafe")));
    assert_eq!(command.prepare_with_args(None), Ok(s("nmcli dev {device} connect {ssid}")));
}

#[test]
fn command_result_streams_are_trimmed() {
    let result = CommandResult { code: Some(0), stdout: b"  up\n".to_vec(), stderr: b"\twarn \n".to_vec() };
    assert!(result.success());
    assert_eq!(result.stdout(), Ok(s("up")));
    assert_eq!(result.stderr(), Ok(s("warn")));
    let bad = CommandResult { code: Some(1), stdout: vec![0xc3], stderr: Vec::new() };
    assert!(!bad.success());
    assert_eq!(bad.exit_code(), 1);
    assert!(matches!(bad.stdout(), Err(Error::Utf8 { .. })));
}

fn plain(name: &str, dependencies: Option<Vec<Dependency>>) -> Profile {
    Profile { name: s(name), aliases: None, dependencies, envs: vec![(s("linux"), environment(true))] }
}

fn dependency(name: &str, env_name: Option<&str>) -> Dependency {
    Dependency { name: s(name), env_name: env_name.map(s) }
}

#[test]
fn dependencies_are_resolved_first() {
    let config = ProfileConfig {
        profiles: vec![
            plain("a", Some(vec![dependency("b", None), dependency("c", Some("vpn"))])),
            plain("b", None),
            plain("c", None),
        ],
    };
    let map = config.transform_to_profile_map();
    let targets = config.get_profiles_to_action(&map, &s("a")).unwrap();
    let order: Vec<usize> = targets.iter().map(|t| t.profile).collect();
    assert_eq!(order, vec![1, 2, 0]);
    assert_eq!(targets[1].environment, Some(s("vpn")));
    assert_eq!(targets[2].environment, None);
}

#[test]
fn composition_profile_is_not_actioned() {
    let mut bundle = plain("bundle", Some(vec![dependency("b", None)]));
    bundle.envs = Vec::new();
    assert!(bundle.is_composition_profile());
    let config = ProfileConfig { profiles: vec![bundle, plain("b", None)] };
    let map = config.transform_to_profile_map();
    let targets = config.get_profiles_to_action(&map, &s("bundle")).unwrap();
    assert_eq!(targets.len(), 1);
    assert_eq!(targets[0].profile, 1);
}

#[test]
fn unknown_profile_lists_names() {
    let config = ProfileConfig { profiles: vec![wifi(true), plain("vpn", None)] };
    let map = config.transform_to_profile_map();
    assert_eq!(
        config.get_profiles_to_action(&map, &s("nonexistent")).err(),
        Some(Error::UnknownProfile { name: s("nonexistent"), known: vec![s("wifi"), s("vpn")] })
    );
}

#[test]
fn unknown_dependency_is_reported() {
    let config = ProfileConfig { profiles: vec![plain("a", Some(vec![dependency("b", None), dependency("zz", None)]))] };
    let map = config.transform_to_profile_map();
    assert_eq!(
        config.get_profiles_to_action(&map, &s("a")).err(),
        Some(Error::UnknownDependency { profile: s("a"), dependency: s("b") })
    );
    assert_eq!(config.is_valid(), Err(Error::UnknownDependency { profile: s("a"), dependency: s("b") }));
}

#[test]
fn duplicate_alias_is_invalid() {
    let mut other = plain("lan", None);
    other.aliases = Some(vec![s("w")]);
    let config = ProfileConfig { profiles: vec![wifi(true), other] };
    assert_eq!(config.is_valid(), Err(Error::DuplicateName { name: s("w") }));
}

#[test]
fn profile_map_holds_names_and_aliases() {
    let config = ProfileConfig { profiles: vec![wifi(true), plain("vpn", None)] };
    let map = config.transform_to_profile_map();
    assert_eq!(map, vec![(s("wifi"), 0), (s("w"), 0), (s("vpn"), 1)]);
}

fn prepare(template: &str) -> Result<String, Error> {
    cmd(template).prepare_with_args(Some(&vec![(s("a"), s("wifi"))]))
}

#[test]
fn unclosed_format_specs_are_format_errors() {
    for template in ["{a:+#", "{a:<0", "{a:+x", "{a:", "run {a:>4"] {
        assert!(matches!(prepare(template), Err(Error::Format { .. })), "{}", template);
    }
}

#[test]
fn overlong_widths_are_format_errors() {
    assert!(matches!(prepare("{a:>10000}"), Err(Error::Format { .. })));
    assert!(matches!(prepare("{a:.00001}"), Err(Error::Format { .. })));
}

#[test]
fn complete_format_specs_are_interpolated() {
    assert_eq!(prepare("[{a:>6}]"), Ok(s("[  wifi]")));
    assert_eq!(prepare("[{a:.2}]"), Ok(s("[wi]")));
    assert_eq!(prepare("awk -F: '{{print $1}}' {a}"), Ok(s("awk -F: '{print $1}' wifi")));
    assert_eq!(prepare("echo ${{HOME:-x}} {a}"), Ok(s("echo ${HOME:-x} wifi")));
}

#[test]
fn spec_completeness_check() {
    assert!(has_complete_specs("plain: text"));
    assert!(has_complete_specs("{a} {b:>9999}"));
    assert!(!has_complete_specs("{a:"));
    assert!(!has_complete_specs("{a:>10000}"));
    assert!(has_complete_specs(""));
}

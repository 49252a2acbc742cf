use django_starter::action::{Action, Invocation};
use django_starter::args::{CreateProject, ProjectCommand, ProjectSubCommand};
use django_starter::commands::{
    create_linux_project, create_project, create_windows_project, handle_project_command,
};
use django_starter::config::{is_valid_name, Config};
use django_starter::pipeline::{install_args, Failure, Provisioner, Stage, Warning};

fn config() -> Config {
    Config::with_resources("/opt/res".to_string())
}

fn request(name: &str) -> CreateProject {
    CreateProject { name: name.to_string() }
}

fn strs(v: &[&str]) -> Vec<String> {
    v.iter().map(|s| s.to_string()).collect()
}

/// Performs the run, answering each action with `answer`; returns every
/// action asked for and every warning raised.
fn drive(p: &mut Provisioner, answer: impl Fn(&Action) -> bool) -> (Vec<Action>, Vec<Warning>) {
    let mut actions = Vec::new();
    let mut warnings = Vec::new();
    for _ in 0..100 {
        let a = p.action();
        if a == Action::Finish {
            assert!(p.is_finished());
            return (actions, warnings);
        }
        let ok = answer(&a);
        actions.push(a);
        if let Some(w) = p.advance(ok) {
            warnings.push(w);
        }
    }
    panic!("the run did not finish");
}

/// A machine with every tool, no project directory, no environment; the
/// helper script and the generated settings file exist when probed.
fn happy(a: &Action) -> bool {
    match a {
        Action::Exists(p) => p != &strs(&["blog"]) && p != &strs(&["venv"]),
        _ => true,
    }
}

fn is_run_of(a: &Action, program: &str) -> bool {
    matches!(a, Action::Run(inv) if inv.program == program)
}

fn position(actions: &[Action], f: impl Fn(&Action) -> bool) -> Option<usize> {
    actions.iter().position(f)
}

#[test]
fn scenario_all_probes_succeed_reaches_done() {
    let mut p = create_project(request("blog"), config());
    let (actions, warnings) = drive(&mut p, happy);
    assert_eq!(p.stage, Stage::Done);
    assert!(warnings.is_empty());
    assert!(actions.contains(&Action::CreateDir(strs(&["blog"]))));
    for f in ["Dockerfile", "docker-compose.yml", "requirements.txt"] {
        assert!(actions.contains(&Action::Copy {
            from: strs(&["/opt/res", f]),
            to: strs(&["blog", f]),
        }));
    }
    assert!(actions.contains(&Action::EnterDir(strs(&["blog"]))));
    assert!(actions.contains(&Action::Run(Invocation {
        program: "python3".to_string(),
        args: strs(&["-m", "virtualenv", "venv"]),
        in_env: false,
    })));
    assert!(actions.contains(&Action::Run(Invocation {
        program: "django-admin".to_string(),
        args: strs(&["startproject", "blog", "."]),
        in_env: true,
    })));
    let remove = position(&actions, |a| *a == Action::RemoveFile(strs(&["blog", "settings.py"])));
    let copy = position(&actions, |a| {
        *a == Action::Copy {
            from: strs(&["/opt/res", "settings.py"]),
            to: strs(&["blog", "settings.py"]),
        }
    });
    assert!(remove.unwrap() < copy.unwrap());
    assert_eq!(copy.unwrap(), actions.len() - 1);
    assert!(actions.contains(&Action::RemoveFile(strs(&["activate_venv.sh"]))));
}

#[test]
fn scenario_existing_directory_is_reused() {
    let mut p = create_project(request("blog"), config());
    let (actions, _) = drive(&mut p, |a| match a {
        Action::Exists(path) => path != &strs(&["venv"]),
        _ => true,
    });
    assert_eq!(p.stage, Stage::Done);
    assert!(actions.contains(&Action::Exists(strs(&["blog"]))));
    assert!(!actions.iter().any(|a| matches!(a, Action::CreateDir(_))));
    assert!(!actions.iter().any(|a| *a == Action::RemoveFile(strs(&["blog"]))));
}

#[test]
fn scenario_missing_runtime_halts_after_probe() {
    let mut p = create_project(request("blog"), config());
    let (actions, _) = drive(&mut p, |a| !is_run_of(a, "which"));
    assert_eq!(p.failure(), Some(Failure::RuntimeMissing));
    assert_eq!(actions.len(), 2);
    assert_eq!(
        actions[1],
        Action::Run(Invocation {
            program: "which".to_string(),
            args: strs(&["python3"]),
            in_env: false,
        })
    );
    assert!(!actions.iter().any(|a| matches!(a, Action::CreateDir(_))));
    assert_eq!(
        Failure::RuntimeMissing.message(),
        "Install Python in your device to continue"
    );
}

#[test]
fn scenario_package_failure_halts_before_generator() {
    let mut p = create_project(request("blog"), config());
    let (actions, _) = drive(&mut p, |a| !is_run_of(a, "pip") && happy(a));
    assert_eq!(p.failure(), Some(Failure::PackagesFailed));
    assert!(is_run_of(actions.last().unwrap(), "pip"));
    assert!(!actions.iter().any(|a| is_run_of(a, "django-admin")));
    assert!(!actions.iter().any(|a| matches!(a, Action::RemoveFile(path) if path.len() == 2)));
    assert!(!actions
        .iter()
        .any(|a| matches!(a, Action::Copy { to, .. } if to == &strs(&["blog", "settings.py"]))));
}

#[test]
fn directory_step_twice_never_fails() {
    // first run: the directory is absent and gets created
    let mut first = create_linux_project(&request("blog"), config());
    first.stage = Stage::CheckProjectDir;
    assert_eq!(first.action(), Action::Exists(strs(&["blog"])));
    first.advance(false);
    assert_eq!(first.action(), Action::CreateDir(strs(&["blog"])));
    first.advance(true);
    // second run: it is there now; nothing is created, the run goes on
    let mut second = create_linux_project(&request("blog"), config());
    second.stage = Stage::CheckProjectDir;
    second.advance(true);
    assert_eq!(second.stage, first.stage);
    assert_eq!(second.stage, Stage::CopyDockerfile);
}

#[test]
fn packages_installed_only_after_env_creation() {
    let mut p = create_project(request("blog"), config());
    let (actions, _) = drive(&mut p, happy);
    let env = position(&actions, |a| {
        matches!(a, Action::Run(inv) if inv.program == "python3" && inv.args.contains(&"venv".to_string()))
    });
    let pip = position(&actions, |a| is_run_of(a, "pip"));
    assert!(env.unwrap() < pip.unwrap());
}

#[test]
fn failed_platform_check_spawns_nothing() {
    let mut p = create_project(request("blog"), config());
    let (actions, _) = drive(&mut p, |a| *a != Action::CheckPlatform);
    assert_eq!(actions, vec![Action::CheckPlatform]);
    assert_eq!(p.failure(), Some(Failure::PlatformUnsupported));
    assert_eq!(p.action(), Action::Finish);
}

#[test]
fn failed_env_tool_install_skips_installer_and_stager() {
    let mut p = create_linux_project(&request("blog"), config());
    let (actions, _) = drive(&mut p, |a| match a {
        Action::Run(inv) => inv.program == "which",
        _ => true,
    });
    assert_eq!(p.failure(), Some(Failure::EnvToolUnavailable));
    assert_eq!(actions.len(), 3);
    assert!(!actions.iter().any(|a| matches!(a, Action::Copy { .. })));
    assert!(!actions.iter().any(|a| is_run_of(a, "pip")));
}

#[test]
fn missing_env_tool_is_installed_first() {
    let mut p = create_linux_project(&request("blog"), config());
    let (actions, _) = drive(&mut p, |a| !is_run_of(a, "sh") && happy(a));
    assert_eq!(p.stage, Stage::Done);
    assert_eq!(
        actions[2],
        Action::Run(Invocation {
            program: "python3".to_string(),
            args: strs(&["-m", "pip", "install", "virtualenv"]),
            in_env: false,
        })
    );
}

#[test]
fn existing_environment_stops_the_run() {
    let mut p = create_project(request("blog"), config());
    let (actions, _) = drive(&mut p, |a| match a {
        Action::Exists(path) => path == &strs(&["venv"]),
        _ => true,
    });
    assert_eq!(p.failure(), Some(Failure::EnvAlreadyExists));
    assert_eq!(actions.last().unwrap(), &Action::Exists(strs(&["venv"])));
}

#[test]
fn failed_activation_removes_helper_and_stops() {
    let mut p = create_project(request("blog"), config());
    let (actions, _) = drive(&mut p, |a| !is_run_of(a, "bash") && happy(a));
    assert_eq!(p.failure(), Some(Failure::ActivationFailed));
    assert_eq!(actions.last().unwrap(), &Action::RemoveFile(strs(&["activate_venv.sh"])));
    assert!(actions.contains(&Action::WriteFile {
        path: strs(&["activate_venv.sh"]),
        contents: "source venv/bin/activate".to_string(),
    }));
}

#[test]
fn unwritable_activation_script_is_skipped_with_warning() {
    let mut p = create_project(request("blog"), config());
    let (actions, warnings) = drive(&mut p, |a| {
        *a != Action::MakeExecutable(strs(&["venv", "bin", "activate"])) && happy(a)
    });
    assert_eq!(p.stage, Stage::Done);
    assert_eq!(warnings, vec![Warning::ActivationSkipped]);
    assert!(!actions.iter().any(|a| is_run_of(a, "bash")));
}

#[test]
fn failed_copies_warn_and_continue() {
    let mut p = create_project(request("blog"), config());
    let (_, warnings) = drive(&mut p, |a| !matches!(a, Action::Copy { .. }) && happy(a));
    assert_eq!(p.stage, Stage::Done);
    assert_eq!(
        warnings,
        vec![
            Warning::DockerfileNotCopied,
            Warning::ComposeNotCopied,
            Warning::RequirementsNotCopied,
            Warning::SettingsNotCopied,
        ]
    );
}

#[test]
fn failed_generator_skips_settings_swap() {
    let mut p = create_project(request("blog"), config());
    let (actions, _) = drive(&mut p, |a| !is_run_of(a, "django-admin") && happy(a));
    assert_eq!(p.failure(), Some(Failure::GenerateFailed));
    assert!(is_run_of(actions.last().unwrap(), "django-admin"));
}

#[test]
fn failed_directory_creation_stops() {
    let mut p = create_project(request("blog"), config());
    let (_, _) = drive(&mut p, |a| !matches!(a, Action::CreateDir(_)) && happy(a));
    assert_eq!(p.failure(), Some(Failure::ProjectDirFailed));
}

#[test]
fn invalid_names_are_refused() {
    for name in ["", ".", "..", "a/b", "a\\b", "a\0b"] {
        assert!(!is_valid_name(name));
        let p = create_project(request(name), config());
        assert_eq!(p.failure(), Some(Failure::InvalidName));
        assert_eq!(p.action(), Action::Finish);
    }
    for name in ["blog", "a", "..b", ".x", "my_site"] {
        assert!(is_valid_name(name));
    }
}

#[test]
fn windows_run_is_abandoned() {
    let p = create_windows_project(&request("blog"), config());
    assert_eq!(p.failure(), Some(Failure::PlatformUnsupported));
    assert_eq!(p.name, "blog");
}

#[test]
fn project_command_starts_at_platform_check() {
    let cmd = ProjectCommand { command: ProjectSubCommand::Create(request("shop")) };
    let p = handle_project_command(cmd, config());
    assert_eq!(p.stage, Stage::CheckPlatform);
    assert_eq!(p.name, "shop");
    assert_eq!(p.action(), Action::CheckPlatform);
}

#[test]
fn package_install_arguments() {
    let c = config();
    let expected = strs(&[
        "install",
        "django",
        "djangorestframework",
        "django-cors-headers",
        "drf-spectacular",
        "django-filter",
        "django-environ",
        "djangorestframework-simplejwt",
    ]);
    assert_eq!(install_args(&c.packages), expected);
    let mut p = create_linux_project(&request("blog"), c);
    p.stage = Stage::InstallPackages;
    assert_eq!(
        p.action(),
        Action::Run(Invocation { program: "pip".to_string(), args: expected, in_env: true })
    );
    assert_eq!(install_args(&Vec::new()), strs(&["install"]));
}

#[test]
fn exit_codes_are_distinct() {
    let all = [
        Failure::InvalidName,
        Failure::PlatformUnsupported,
        Failure::RuntimeMissing,
        Failure::EnvToolUnavailable,
        Failure::ProjectDirFailed,
        Failure::EnterDirFailed,
        Failure::EnvAlreadyExists,
        Failure::EnvCreateFailed,
        Failure::ActivationFailed,
        Failure::PackagesFailed,
        Failure::GenerateFailed,
    ];
    let codes: Vec<u8> = all.iter().map(|f| f.exit_code()).collect();
    assert_eq!(codes, (2u8..=12).collect::<Vec<u8>>());
    assert_eq!(Failure::PlatformUnsupported.message(), "This command works on linux computers only");
    assert_eq!(
        Warning::SettingsNotCopied.message(),
        "Couldn't copy the django settings file to the project"
    );
}

#[test]
fn failed_enter_and_env_creation_stop() {
    let mut p = create_project(request("blog"), config());
    drive(&mut p, |a| !matches!(a, Action::EnterDir(_)) && happy(a));
    assert_eq!(p.failure(), Some(Failure::EnterDirFailed));
    assert_eq!(Failure::EnterDirFailed.exit_code(), 7);

    let mut p = create_project(request("blog"), config());
    drive(&mut p, |a| {
        !matches!(a, Action::Run(inv) if inv.args == strs(&["-m", "virtualenv", "venv"])) && happy(a)
    });
    assert_eq!(p.failure(), Some(Failure::EnvCreateFailed));
}

#[test]
fn failed_removals_warn() {
    let mut p = create_project(request("blog"), config());
    let (actions, warnings) = drive(&mut p, |a| !matches!(a, Action::RemoveFile(_)) && happy(a));
    assert_eq!(p.stage, Stage::Done);
    assert_eq!(warnings, vec![Warning::HelperNotRemoved, Warning::SettingsNotRemoved]);
    // the override is not copied over a generated file that could not be removed
    assert_eq!(actions.last().unwrap(), &Action::RemoveFile(strs(&["blog", "settings.py"])));
}

#[test]
fn absent_settings_file_is_copied_without_removal() {
    let mut p = create_linux_project(&request("blog"), config());
    p.stage = Stage::CheckSettings;
    assert_eq!(p.action(), Action::Exists(strs(&["blog", "settings.py"])));
    assert_eq!(p.advance(false), None);
    assert_eq!(p.stage, Stage::CopySettings);
    assert_eq!(p.advance(true), None);
    assert_eq!(p.stage, Stage::Done);
}

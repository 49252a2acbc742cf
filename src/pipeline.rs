//! The project-creation pipeline: its stages, how an outcome moves it from
//! one stage to the next, and the action that each stage asks for.
use vstd::prelude::*;
use crate::action::{path1, path2, path3, run, Action, ActionModel, Invocation};
use crate::config::{lemma_texts_push, texts, Config, ConfigModel};

verus! {

/// Why a pipeline run was abandoned. Nothing is rolled back: what was
/// created stays for the operator to inspect.
#[derive(Debug, Clone, Copy, PartialEq, Eq, Structural)]
pub enum Failure {
    /// The project name is not a single plain path segment.
    InvalidName,
    /// The platform is not Linux.
    PlatformUnsupported,
    /// No language runtime on the search path.
    RuntimeMissing,
    /// The environment tool was missing and could not be installed.
    EnvToolUnavailable,
    /// The project directory could not be created.
    ProjectDirFailed,
    /// The project directory could not be entered.
    EnterDirFailed,
    /// An environment directory already exists in the project.
    EnvAlreadyExists,
    /// The environment could not be created.
    EnvCreateFailed,
    /// The activation helper ran and failed.
    ActivationFailed,
    /// The package manager failed.
    PackagesFailed,
    /// The scaffolding executable failed.
    GenerateFailed,
}

/// A step that did not complete but does not stop the run.
#[derive(Debug, Clone, Copy, PartialEq, Eq, Structural)]
pub enum Warning {
    DockerfileNotCopied,
    ComposeNotCopied,
    RequirementsNotCopied,
    /// Activation was not tried to the end; the run goes on to the packages.
    ActivationSkipped,
    HelperNotRemoved,
    SettingsNotRemoved,
    SettingsNotCopied,
}

/// A stage of the pipeline. Each one but `Done` and `Aborted` asks for one
/// action (see [`stage_action`]).
#[derive(Debug, Clone, Copy, PartialEq, Eq, Structural)]
pub enum Stage {
    CheckPlatform,
    ProbeRuntime,
    ProbeEnvTool,
    InstallEnvTool,
    CheckProjectDir,
    CreateProjectDir,
    CopyDockerfile,
    CopyCompose,
    CopyRequirements,
    EnterProjectDir,
    CheckEnvDir,
    CreateEnv,
    GrantActivation,
    WriteHelper,
    MarkHelper,
    RunHelper,
    /// Probe for the helper script before removing it; `proceed` records
    /// whether the run goes on once the helper is gone.
    CheckHelper { proceed: bool },
    RemoveHelper { proceed: bool },
    InstallPackages,
    GenerateProject,
    CheckSettings,
    RemoveSettings,
    CopySettings,
    Done,
    Aborted(Failure),
}

/// The run has ended.
pub open spec fn is_terminal(s: Stage) -> bool {
    s is Done || s is Aborted
}

/// After the activation helper is gone: on to the packages, or stop.
pub open spec fn after_helper(proceed: bool) -> Stage {
    if proceed { Stage::InstallPackages } else { Stage::Aborted(Failure::ActivationFailed) }
}

/// The stage that follows `s` when its action had outcome `ok`.
pub open spec fn next_stage(s: Stage, ok: bool) -> Stage {
    match s {
        Stage::CheckPlatform => if ok { Stage::ProbeRuntime } else {
            Stage::Aborted(Failure::PlatformUnsupported)
        },
        Stage::ProbeRuntime => if ok { Stage::ProbeEnvTool } else {
            Stage::Aborted(Failure::RuntimeMissing)
        },
        Stage::ProbeEnvTool => if ok { Stage::CheckProjectDir } else { Stage::InstallEnvTool },
        Stage::InstallEnvTool => if ok { Stage::CheckProjectDir } else {
            Stage::Aborted(Failure::EnvToolUnavailable)
        },
        Stage::CheckProjectDir => if ok { Stage::CopyDockerfile } else { Stage::CreateProjectDir },
        Stage::CreateProjectDir => if ok { Stage::CopyDockerfile } else {
            Stage::Aborted(Failure::ProjectDirFailed)
        },
        Stage::CopyDockerfile => Stage::CopyCompose,
        Stage::CopyCompose => Stage::CopyRequirements,
        Stage::CopyRequirements => Stage::EnterProjectDir,
        Stage::EnterProjectDir => if ok { Stage::CheckEnvDir } else {
            Stage::Aborted(Failure::EnterDirFailed)
        },
        Stage::CheckEnvDir => if ok { Stage::Aborted(Failure::EnvAlreadyExists) } else {
            Stage::CreateEnv
        },
        Stage::CreateEnv => if ok { Stage::GrantActivation } else {
            Stage::Aborted(Failure::EnvCreateFailed)
        },
        Stage::GrantActivation => if ok { Stage::WriteHelper } else { Stage::InstallPackages },
        Stage::WriteHelper => if ok { Stage::MarkHelper } else {
            Stage::CheckHelper { proceed: true }
        },
        Stage::MarkHelper => if ok { Stage::RunHelper } else {
            Stage::CheckHelper { proceed: true }
        },
        Stage::RunHelper => Stage::CheckHelper { proceed: ok },
        Stage::CheckHelper { proceed } => if ok { Stage::RemoveHelper { proceed } } else {
            after_helper(proceed)
        },
        Stage::RemoveHelper { proceed } => after_helper(proceed),
        Stage::InstallPackages => if ok { Stage::GenerateProject } else {
            Stage::Aborted(Failure::PackagesFailed)
        },
        Stage::GenerateProject => if ok { Stage::CheckSettings } else {
            Stage::Aborted(Failure::GenerateFailed)
        },
        Stage::CheckSettings => if ok { Stage::RemoveSettings } else { Stage::CopySettings },
        Stage::RemoveSettings => if ok { Stage::CopySettings } else { Stage::Done },
        Stage::CopySettings => Stage::Done,
        Stage::Done => Stage::Done,
        Stage::Aborted(f) => Stage::Aborted(f),
    }
}

/// The warning, if any, that leaving `s` with outcome `ok` raises.
pub open spec fn stage_warning(s: Stage, ok: bool) -> Option<Warning> {
    if ok {
        None
    } else {
        match s {
            Stage::CopyDockerfile => Some(Warning::DockerfileNotCopied),
            Stage::CopyCompose => Some(Warning::ComposeNotCopied),
            Stage::CopyRequirements => Some(Warning::RequirementsNotCopied),
            Stage::GrantActivation => Some(Warning::ActivationSkipped),
            Stage::WriteHelper => Some(Warning::ActivationSkipped),
            Stage::MarkHelper => Some(Warning::ActivationSkipped),
            Stage::RemoveHelper { .. } => Some(Warning::HelperNotRemoved),
            Stage::RemoveSettings => Some(Warning::SettingsNotRemoved),
            Stage::CopySettings => Some(Warning::SettingsNotCopied),
            _ => None,
        }
    }
}

/// Name of the environment directory inside the project.
pub open spec fn env_dir() -> Seq<char> {
    "venv"@
}

/// Name of the throwaway activation helper.
pub open spec fn helper() -> Seq<char> {
    "activate_venv.sh"@
}

/// A child process, in the model.
pub open spec fn run_model(program: Seq<char>, args: Seq<Seq<char>>, in_env: bool) -> ActionModel {
    ActionModel::Run { program, args, in_env }
}

/// Copy of a bundled file to the same name inside the project directory.
pub open spec fn stage_file(name: Seq<char>, cfg: ConfigModel, file: Seq<char>) -> ActionModel {
    ActionModel::Copy { from: seq![cfg.resources, file], to: seq![name, file] }
}

/// The action that stage `s` asks for, for project `name`. Until the project
/// directory is entered, paths start at the directory the run began in;
/// after it, at the project directory.
pub open spec fn stage_action(s: Stage, name: Seq<char>, cfg: ConfigModel) -> ActionModel {
    match s {
        Stage::CheckPlatform => ActionModel::CheckPlatform,
        Stage::ProbeRuntime => run_model("which"@, seq!["python3"@], false),
        Stage::ProbeEnvTool => run_model("sh"@, seq!["-c"@, "command -v virtualenv"@], false),
        Stage::InstallEnvTool => run_model(
            "python3"@,
            seq!["-m"@, "pip"@, "install"@, "virtualenv"@],
            false,
        ),
        Stage::CheckProjectDir => ActionModel::Exists(seq![name]),
        Stage::CreateProjectDir => ActionModel::CreateDir(seq![name]),
        Stage::CopyDockerfile => stage_file(name, cfg, "Dockerfile"@),
        Stage::CopyCompose => stage_file(name, cfg, "docker-compose.yml"@),
        Stage::CopyRequirements => stage_file(name, cfg, "requirements.txt"@),
        Stage::EnterProjectDir => ActionModel::EnterDir(seq![name]),
        Stage::CheckEnvDir => ActionModel::Exists(seq![env_dir()]),
        Stage::CreateEnv => run_model("python3"@, seq!["-m"@, "virtualenv"@, env_dir()], false),
        Stage::GrantActivation => ActionModel::MakeExecutable(seq![env_dir(), "bin"@, "activate"@]),
        Stage::WriteHelper => ActionModel::WriteFile {
            path: seq![helper()],
            contents: "source venv/bin/activate"@,
        },
        Stage::MarkHelper => ActionModel::MakeExecutable(seq![helper()]),
        Stage::RunHelper => run_model("bash"@, seq![helper()], false),
        Stage::CheckHelper { .. } => ActionModel::Exists(seq![helper()]),
        Stage::RemoveHelper { .. } => ActionModel::RemoveFile(seq![helper()]),
        Stage::InstallPackages => run_model("pip"@, seq!["install"@] + cfg.packages, true),
        Stage::GenerateProject => run_model("django-admin"@, seq!["startproject"@, name, "."@], true),
        Stage::CheckSettings => ActionModel::Exists(seq![name, "settings.py"@]),
        Stage::RemoveSettings => ActionModel::RemoveFile(seq![name, "settings.py"@]),
        Stage::CopySettings => stage_file(name, cfg, "settings.py"@),
        Stage::Done => ActionModel::Finish,
        Stage::Aborted(_) => ActionModel::Finish,
    }
}

impl Stage {
    /// The stage that follows this one when its action had outcome `ok`.
    pub fn next(self, ok: bool) -> (r: Stage)
        ensures
            r == next_stage(self, ok),
    {
        match self {
            Stage::CheckPlatform => if ok { Stage::ProbeRuntime } else {
                Stage::Aborted(Failure::PlatformUnsupported)
            },
            Stage::ProbeRuntime => if ok { Stage::ProbeEnvTool } else {
                Stage::Aborted(Failure::RuntimeMissing)
            },
            Stage::ProbeEnvTool => if ok { Stage::CheckProjectDir } else { Stage::InstallEnvTool },
            Stage::InstallEnvTool => if ok { Stage::CheckProjectDir } else {
                Stage::Aborted(Failure::EnvToolUnavailable)
            },
            Stage::CheckProjectDir => if ok { Stage::CopyDockerfile } else {
                Stage::CreateProjectDir
            },
            Stage::CreateProjectDir => if ok { Stage::CopyDockerfile } else {
                Stage::Aborted(Failure::ProjectDirFailed)
            },
            Stage::CopyDockerfile => Stage::CopyCompose,
            Stage::CopyCompose => Stage::CopyRequirements,
            Stage::CopyRequirements => Stage::EnterProjectDir,
            Stage::EnterProjectDir => if ok { Stage::CheckEnvDir } else {
                Stage::Aborted(Failure::EnterDirFailed)
            },
            Stage::CheckEnvDir => if ok { Stage::Aborted(Failure::EnvAlreadyExists) } else {
                Stage::CreateEnv
            },
            Stage::CreateEnv => if ok { Stage::GrantActivation } else {
                Stage::Aborted(Failure::EnvCreateFailed)
            },
            Stage::GrantActivation => if ok { Stage::WriteHelper } else { Stage::InstallPackages },
            Stage::WriteHelper => if ok { Stage::MarkHelper } else {
                Stage::CheckHelper { proceed: true }
            },
            Stage::MarkHelper => if ok { Stage::RunHelper } else {
                Stage::CheckHelper { proceed: true }
            },
            Stage::RunHelper => Stage::CheckHelper { proceed: ok },
            Stage::CheckHelper { proceed } => if ok { Stage::RemoveHelper { proceed } } else {
                continue_after_helper(proceed)
            },
            Stage::RemoveHelper { proceed } => continue_after_helper(proceed),
            Stage::InstallPackages => if ok { Stage::GenerateProject } else {
                Stage::Aborted(Failure::PackagesFailed)
            },
            Stage::GenerateProject => if ok { Stage::CheckSettings } else {
                Stage::Aborted(Failure::GenerateFailed)
            },
            Stage::CheckSettings => if ok { Stage::RemoveSettings } else { Stage::CopySettings },
            Stage::RemoveSettings => if ok { Stage::CopySettings } else { Stage::Done },
            Stage::CopySettings => Stage::Done,
            Stage::Done => Stage::Done,
            Stage::Aborted(f) => Stage::Aborted(f),
        }
    }

    /// The warning, if any, that leaving this stage with outcome `ok` raises.
    pub fn warning(self, ok: bool) -> (r: Option<Warning>)
        ensures
            r == stage_warning(self, ok),
    {
        if ok {
            return None;
        }
        match self {
            Stage::CopyDockerfile => Some(Warning::DockerfileNotCopied),
            Stage::CopyCompose => Some(Warning::ComposeNotCopied),
            Stage::CopyRequirements => Some(Warning::RequirementsNotCopied),
            Stage::GrantActivation => Some(Warning::ActivationSkipped),
            Stage::WriteHelper => Some(Warning::ActivationSkipped),
            Stage::MarkHelper => Some(Warning::ActivationSkipped),
            Stage::RemoveHelper { .. } => Some(Warning::HelperNotRemoved),
            Stage::RemoveSettings => Some(Warning::SettingsNotRemoved),
            Stage::CopySettings => Some(Warning::SettingsNotCopied),
            _ => None,
        }
    }

    /// The run has ended.
    pub fn is_finished(self) -> (r: bool)
        ensures
            r == is_terminal(self),
    {
        matches!(self, Stage::Done | Stage::Aborted(_))
    }
}

fn continue_after_helper(proceed: bool) -> (r: Stage)
    ensures
        r == after_helper(proceed),
{
    if proceed { Stage::InstallPackages } else { Stage::Aborted(Failure::ActivationFailed) }
}

/// Arguments of the package manager: the install verb, then every package
/// in order.
pub fn install_args(packages: &Vec<String>) -> (r: Vec<String>)
    ensures
        texts(r@) == seq!["install"@] + texts(packages@),
{
    let mut r: Vec<String> = Vec::new();
    r.push(String::from_str("install"));
    let mut i: usize = 0;
    while i < packages.len()
        invariant
            i <= packages@.len(),
            texts(r@) == seq!["install"@] + texts(packages@.subrange(0, i as int)),
        decreases packages@.len() - i,
    {
        let ghost before = r@;
        r.push(packages[i].clone());
        proof {
            lemma_texts_push(before, packages@[i as int]);
            lemma_texts_push(packages@.subrange(0, i as int), packages@[i as int]);
            assert(packages@.subrange(0, i + 1) =~= packages@.subrange(0, i as int).push(
                packages@[i as int],
            ));
            assert(texts(r@) =~= seq!["install"@] + texts(packages@.subrange(0, i + 1)));
        }
        i = i + 1;
    }
    assert(packages@.subrange(0, packages@.len() as int) =~= packages@);
    r
}

/// Copy of the bundled file `file` to the same name in the project directory.
fn copy_bundled(name: &String, config: &Config, file: &str) -> (a: Action)
    ensures
        a@ == stage_file(name@, config@, file@),
{
    Action::Copy { from: path2(config.resources.as_str(), file), to: path2(name.as_str(), file) }
}

/// The action that `stage` asks for.
pub fn action_for(stage: Stage, name: &String, config: &Config) -> (a: Action)
    ensures
        a@ == stage_action(stage, name@, config@),
{
    match stage {
        Stage::CheckPlatform => Action::CheckPlatform,
        Stage::ProbeRuntime => run("which", path1("python3")),
        Stage::ProbeEnvTool => run("sh", path2("-c", "command -v virtualenv")),
        Stage::InstallEnvTool => {
            let mut args = path2("-m", "pip");
            let ghost a0 = args@;
            let install = String::from_str("install");
            args.push(install);
            let ghost a1 = args@;
            let tool = String::from_str("virtualenv");
            args.push(tool);
            proof {
                lemma_texts_push(a0, install);
                lemma_texts_push(a1, tool);
                assert(texts(args@) =~= seq!["-m"@, "pip"@, "install"@, "virtualenv"@]);
            }
            run("python3", args)
        },
        Stage::CheckProjectDir => Action::Exists(path1(name.as_str())),
        Stage::CreateProjectDir => Action::CreateDir(path1(name.as_str())),
        Stage::CopyDockerfile => copy_bundled(name, config, "Dockerfile"),
        Stage::CopyCompose => copy_bundled(name, config, "docker-compose.yml"),
        Stage::CopyRequirements => copy_bundled(name, config, "requirements.txt"),
        Stage::EnterProjectDir => Action::EnterDir(path1(name.as_str())),
        Stage::CheckEnvDir => Action::Exists(path1("venv")),
        Stage::CreateEnv => run("python3", path3("-m", "virtualenv", "venv")),
        Stage::GrantActivation => Action::MakeExecutable(path3("venv", "bin", "activate")),
        Stage::WriteHelper => Action::WriteFile {
            path: path1("activate_venv.sh"),
            contents: String::from_str("source venv/bin/activate"),
        },
        Stage::MarkHelper => Action::MakeExecutable(path1("activate_venv.sh")),
        Stage::RunHelper => run("bash", path1("activate_venv.sh")),
        Stage::CheckHelper { .. } => Action::Exists(path1("activate_venv.sh")),
        Stage::RemoveHelper { .. } => Action::RemoveFile(path1("activate_venv.sh")),
        Stage::InstallPackages => Action::Run(
            Invocation {
                program: String::from_str("pip"),
                args: install_args(&config.packages),
                in_env: true,
            },
        ),
        Stage::GenerateProject => Action::Run(
            Invocation {
                program: String::from_str("django-admin"),
                args: path3("startproject", name.as_str(), "."),
                in_env: true,
            },
        ),
        Stage::CheckSettings => Action::Exists(path2(name.as_str(), "settings.py")),
        Stage::RemoveSettings => Action::RemoveFile(path2(name.as_str(), "settings.py")),
        Stage::CopySettings => copy_bundled(name, config, "settings.py"),
        Stage::Done => Action::Finish,
        Stage::Aborted(_) => Action::Finish,
    }
}

/// One run of the pipeline for one project.
#[derive(Debug, Clone, PartialEq, Eq)]
pub struct Provisioner {
    /// Name of the project, and of its directory.
    pub name: String,
    pub config: Config,
    /// Where the run stands.
    pub stage: Stage,
}

impl Provisioner {
    /// A run for `name` that starts at `stage`.
    pub fn at_stage(name: String, config: Config, stage: Stage) -> (p: Provisioner)
        ensures
            p.name@ == name@,
            p.config@ == config@,
            p.stage == stage,
    {
        Provisioner { name, config, stage }
    }

    /// What the caller must do next.
    pub fn action(&self) -> (a: Action)
        ensures
            a@ == stage_action(self.stage, self.name@, self.config@),
    {
        action_for(self.stage, &self.name, &self.config)
    }

    /// Record the outcome of the current action and move on; returns the
    /// warning that the outcome raises, if any.
    pub fn advance(&mut self, ok: bool) -> (w: Option<Warning>)
        ensures
            final(self).stage == next_stage(old(self).stage, ok),
            final(self).name@ == old(self).name@,
            final(self).config@ == old(self).config@,
            w == stage_warning(old(self).stage, ok),
    {
        let w = self.stage.warning(ok);
        self.stage = self.stage.next(ok);
        w
    }

    /// The run has ended.
    pub fn is_finished(&self) -> (r: bool)
        ensures
            r == is_terminal(self.stage),
    {
        self.stage.is_finished()
    }

    /// Why the run was abandoned, if it was.
    pub fn failure(&self) -> (r: Option<Failure>)
        ensures
            r == (match self.stage {
                Stage::Aborted(f) => Some(f),
                _ => None,
            }),
    {
        match self.stage {
            Stage::Aborted(f) => Some(f),
            _ => None,
        }
    }
}

/// The diagnostic printed when a run is abandoned for `f`.
pub open spec fn failure_text(f: Failure) -> Seq<char> {
    match f {
        Failure::InvalidName => "The project name must be a single plain directory name"@,
        Failure::PlatformUnsupported => "This command works on linux computers only"@,
        Failure::RuntimeMissing => "Install Python in your device to continue"@,
        Failure::EnvToolUnavailable => "Something went wrong while installing virtualenv"@,
        Failure::ProjectDirFailed => "Failed to create the project directory"@,
        Failure::EnterDirFailed => "Couldn't change directory to the project"@,
        Failure::EnvAlreadyExists => "Virtual environment folder exists"@,
        Failure::EnvCreateFailed => "Something went wrong while creating virtual envs"@,
        Failure::ActivationFailed => "Something went wrong while activating virtual envs"@,
        Failure::PackagesFailed => "Something went wrong while installing django packages"@,
        Failure::GenerateFailed => "Something went wrong while creating the django project"@,
    }
}

/// The process exit status that reports `f`: one per kind, none of them 0.
pub open spec fn failure_code(f: Failure) -> u8 {
    match f {
        Failure::InvalidName => 2,
        Failure::PlatformUnsupported => 3,
        Failure::RuntimeMissing => 4,
        Failure::EnvToolUnavailable => 5,
        Failure::ProjectDirFailed => 6,
        Failure::EnterDirFailed => 7,
        Failure::EnvAlreadyExists => 8,
        Failure::EnvCreateFailed => 9,
        Failure::ActivationFailed => 10,
        Failure::PackagesFailed => 11,
        Failure::GenerateFailed => 12,
    }
}

impl Failure {
    /// The diagnostic for this failure.
    pub fn message(self) -> (r: String)
        ensures
            r@ == failure_text(self),
    {
        let s = match self {
            Failure::InvalidName => "The project name must be a single plain directory name",
            Failure::PlatformUnsupported => "This command works on linux computers only",
            Failure::RuntimeMissing => "Install Python in your device to continue",
            Failure::EnvToolUnavailable => "Something went wrong while installing virtualenv",
            Failure::ProjectDirFailed => "Failed to create the project directory",
            Failure::EnterDirFailed => "Couldn't change directory to the project",
            Failure::EnvAlreadyExists => "Virtual environment folder exists",
            Failure::EnvCreateFailed => "Something went wrong while creating virtual envs",
            Failure::ActivationFailed => "Something went wrong while activating virtual envs",
            Failure::PackagesFailed => "Something went wrong while installing django packages",
            Failure::GenerateFailed => "Something went wrong while creating the django project",
        };
        String::from_str(s)
    }

    /// The exit status for this failure.
    pub fn exit_code(self) -> (r: u8)
        ensures
            r == failure_code(self),
    {
        match self {
            Failure::InvalidName => 2,
            Failure::PlatformUnsupported => 3,
            Failure::RuntimeMissing => 4,
            Failure::EnvToolUnavailable => 5,
            Failure::ProjectDirFailed => 6,
            Failure::EnterDirFailed => 7,
            Failure::EnvAlreadyExists => 8,
            Failure::EnvCreateFailed => 9,
            Failure::ActivationFailed => 10,
            Failure::PackagesFailed => 11,
            Failure::GenerateFailed => 12,
        }
    }
}

/// The diagnostic printed for warning `w`; the run goes on.
pub open spec fn warning_text(w: Warning) -> Seq<char> {
    match w {
        Warning::DockerfileNotCopied => "Failed to copy the Dockerfile to the project"@,
        Warning::ComposeNotCopied => "Failed to copy the docker-compose.yml file to the project"@,
        Warning::RequirementsNotCopied => "Failed to copy the requirements.txt to the project"@,
        Warning::ActivationSkipped => "Could not prepare the activation script; continuing"@,
        Warning::HelperNotRemoved => "Failed to remove the activation helper"@,
        Warning::SettingsNotRemoved => "Failed to remove the generated settings file"@,
        Warning::SettingsNotCopied => "Couldn't copy the django settings file to the project"@,
    }
}

impl Warning {
    /// The diagnostic for this warning.
    pub fn message(self) -> (r: String)
        ensures
            r@ == warning_text(self),
    {
        let s = match self {
            Warning::DockerfileNotCopied => "Failed to copy the Dockerfile to the project",
            Warning::ComposeNotCopied => "Failed to copy the docker-compose.yml file to the project",
            Warning::RequirementsNotCopied => "Failed to copy the requirements.txt to the project",
            Warning::ActivationSkipped => "Could not prepare the activation script; continuing",
            Warning::HelperNotRemoved => "Failed to remove the activation helper",
            Warning::SettingsNotRemoved => "Failed to remove the generated settings file",
            Warning::SettingsNotCopied => "Couldn't copy the django settings file to the project",
        };
        String::from_str(s)
    }
}

} // verus!

//! Entry points: turn a `project` command into a pipeline run.
use vstd::prelude::*;
use crate::args::{CreateProject, ProjectCommand, ProjectSubCommand};
use crate::config::{is_valid_name, valid_name, Config};
use crate::pipeline::{Failure, Provisioner, Stage};

verus! {

/// Where a run for `name` starts: at the platform check, or abandoned at
/// once when the name is not a plain path segment.
pub open spec fn start_stage(name: Seq<char>) -> Stage {
    if valid_name(name) { Stage::CheckPlatform } else { Stage::Aborted(Failure::InvalidName) }
}

/// Where a run for `name` starts once the platform is known to be Linux.
pub open spec fn linux_start_stage(name: Seq<char>) -> Stage {
    if valid_name(name) { Stage::ProbeRuntime } else { Stage::Aborted(Failure::InvalidName) }
}

/// The run that a `project` command asks for.
pub fn handle_project_command(project: ProjectCommand, config: Config) -> (p: Provisioner)
    ensures
        ({
            let ProjectSubCommand::Create(c) = project.command;
            &&& p.name@ == c.name@
            &&& p.config@ == config@
            &&& p.stage == start_stage(c.name@)
        }),
{
    match project.command {
        ProjectSubCommand::Create(c) => create_project(c, config),
    }
}

/// A run that creates `project`, starting with the platform check.
pub fn create_project(project: CreateProject, config: Config) -> (p: Provisioner)
    ensures
        p.name@ == project.name@,
        p.config@ == config@,
        p.stage == start_stage(project.name@),
{
    let stage = if is_valid_name(project.name.as_str()) {
        Stage::CheckPlatform
    } else {
        Stage::Aborted(Failure::InvalidName)
    };
    Provisioner::at_stage(project.name, config, stage)
}

/// The run on a platform other than Linux: abandoned before any action.
pub fn create_windows_project(project: &CreateProject, config: Config) -> (p: Provisioner)
    ensures
        p.name@ == project.name@,
        p.config@ == config@,
        p.stage == Stage::Aborted(Failure::PlatformUnsupported),
{
    Provisioner::at_stage(project.name.clone(), config, Stage::Aborted(Failure::PlatformUnsupported))
}

/// The run on Linux: it starts with the runtime probe.
pub fn create_linux_project(project: &CreateProject, config: Config) -> (p: Provisioner)
    ensures
        p.name@ == project.name@,
        p.config@ == config@,
        p.stage == linux_start_stage(project.name@),
{
    let stage = if is_valid_name(project.name.as_str()) {
        Stage::ProbeRuntime
    } else {
        Stage::Aborted(Failure::InvalidName)
    };
    Provisioner::at_stage(project.name.clone(), config, stage)
}

} // verus!

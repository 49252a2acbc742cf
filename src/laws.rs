//! What holds of every run of the pipeline, whatever the outcomes of its
//! actions.
use vstd::prelude::*;
use crate::action::ActionModel;
use crate::commands::{linux_start_stage, start_stage};
use crate::config::{valid_name, ConfigModel};
use crate::pipeline::{next_stage, stage_action, Failure, Stage};

verus! {

/// The stages that a run passes through from `s`, when its actions have
/// `outcomes` one after the other: `s` first, then one stage per outcome.
pub open spec fn trace(s: Stage, outcomes: Seq<bool>) -> Seq<Stage>
    decreases outcomes.len(),
{
    if outcomes.len() == 0 {
        seq![s]
    } else {
        seq![s] + trace(next_stage(s, outcomes[0]), outcomes.drop_first())
    }
}

/// A trace holds one stage more than it has outcomes.
pub proof fn lemma_trace_len(s: Stage, outcomes: Seq<bool>)
    ensures
        trace(s, outcomes).len() == outcomes.len() + 1,
    decreases outcomes.len(),
{
    if outcomes.len() > 0 {
        lemma_trace_len(next_stage(s, outcomes[0]), outcomes.drop_first());
    }
}

/// Once a run is abandoned it stays abandoned, for the same reason.
pub proof fn lemma_aborted_stays(f: Failure, outcomes: Seq<bool>)
    ensures
        forall|i: int|
            0 <= i < trace(Stage::Aborted(f), outcomes).len() ==> #[trigger] trace(
                Stage::Aborted(f),
                outcomes,
            )[i] == Stage::Aborted(f),
    decreases outcomes.len(),
{
    if outcomes.len() > 0 {
        lemma_aborted_stays(f, outcomes.drop_first());
    }
}

/// Stages that come after the environment was created.
pub open spec fn after_env(s: Stage) -> bool {
    match s {
        Stage::GrantActivation | Stage::WriteHelper | Stage::MarkHelper | Stage::RunHelper
        | Stage::CheckHelper { .. } | Stage::RemoveHelper { .. } | Stage::InstallPackages
        | Stage::GenerateProject | Stage::CheckSettings | Stage::RemoveSettings
        | Stage::CopySettings | Stage::Done => true,
        _ => false,
    }
}

/// Stages that install packages or stage files into the project.
pub open spec fn installs_or_stages(s: Stage) -> bool {
    match s {
        Stage::CopyDockerfile | Stage::CopyCompose | Stage::CopyRequirements
        | Stage::InstallPackages | Stage::RemoveSettings | Stage::CopySettings => true,
        _ => false,
    }
}

proof fn lemma_env_precedes(s: Stage, outcomes: Seq<bool>)
    requires
        !after_env(s),
    ensures
        forall|i: int|
            0 <= i < trace(s, outcomes).len() && after_env(#[trigger] trace(s, outcomes)[i])
                ==> exists|j: int| 0 <= j < i && trace(s, outcomes)[j] == Stage::CreateEnv,
    decreases outcomes.len(),
{
    lemma_trace_len(s, outcomes);
    if outcomes.len() > 0 {
        let n = next_stage(s, outcomes[0]);
        let rest = outcomes.drop_first();
        let t = trace(s, outcomes);
        lemma_trace_len(n, rest);
        assert(t == seq![s] + trace(n, rest));
        if s == Stage::CreateEnv {
            assert forall|i: int| 0 <= i < t.len() && after_env(#[trigger] t[i]) implies exists|
                j: int,
            | 0 <= j < i && t[j] == Stage::CreateEnv by {
                assert(t[0] == Stage::CreateEnv);
            }
        } else {
            assert(!after_env(n));
            lemma_env_precedes(n, rest);
            assert forall|i: int| 0 <= i < t.len() && after_env(#[trigger] t[i]) implies exists|
                j: int,
            | 0 <= j < i && t[j] == Stage::CreateEnv by {
                let u = trace(n, rest);
                assert(t[i] == u[i - 1]);
                let k = choose|k: int| 0 <= k < i - 1 && u[k] == Stage::CreateEnv;
                assert(t[k + 1] == u[k]);
            }
        }
    }
}

/// The package manager never runs before the environment has been created:
/// in every run, from either way of starting one, each stage that installs
/// the packages comes after a stage that created the environment.
pub proof fn lemma_packages_after_env(name: Seq<char>, s: Stage, outcomes: Seq<bool>)
    requires
        s == start_stage(name) || s == linux_start_stage(name),
    ensures
        forall|i: int|
            0 <= i < trace(s, outcomes).len() && #[trigger] trace(s, outcomes)[i]
                == Stage::InstallPackages ==> exists|j: int|
                0 <= j < i && trace(s, outcomes)[j] == Stage::CreateEnv,
{
    lemma_env_precedes(s, outcomes);
    assert forall|i: int|
        0 <= i < trace(s, outcomes).len() && #[trigger] trace(s, outcomes)[i]
            == Stage::InstallPackages implies exists|j: int|
        0 <= j < i && trace(s, outcomes)[j] == Stage::CreateEnv by {
        assert(after_env(trace(s, outcomes)[i]));
    }
}

/// When the platform check fails, no child process is ever started: no
/// stage of the run asks for one.
pub proof fn lemma_platform_failure_spawns_nothing(
    name: Seq<char>,
    cfg: ConfigModel,
    outcomes: Seq<bool>,
)
    requires
        outcomes.len() > 0,
        !outcomes[0],
    ensures
        forall|i: int|
            0 <= i < trace(start_stage(name), outcomes).len() ==> !(#[trigger] stage_action(
                trace(start_stage(name), outcomes)[i],
                name,
                cfg,
            )).spawns(),
{
    let s = start_stage(name);
    let t = trace(s, outcomes);
    lemma_trace_len(s, outcomes);
    let f = if valid_name(name) { Failure::PlatformUnsupported } else { Failure::InvalidName };
    let rest = outcomes.drop_first();
    lemma_aborted_stays(f, rest);
    lemma_aborted_stays(f, outcomes);
    lemma_trace_len(Stage::Aborted(f), rest);
    assert forall|i: int| 0 <= i < t.len() implies !(#[trigger] stage_action(
        t[i],
        name,
        cfg,
    )).spawns() by {
        if valid_name(name) {
            assert(t == seq![s] + trace(Stage::Aborted(f), rest));
            if i > 0 {
                assert(t[i] == trace(Stage::Aborted(f), rest)[i - 1]);
            }
        }
    }
}

/// When the runtime probe fails, or the environment tool is missing and
/// cannot be installed, neither the package installer nor the file stager
/// is ever invoked in that run.
pub proof fn lemma_failed_probe_short_circuits(s: Stage, outcomes: Seq<bool>)
    requires
        s == Stage::ProbeRuntime || s == Stage::InstallEnvTool,
        outcomes.len() > 0,
        !outcomes[0],
    ensures
        forall|i: int|
            0 <= i < trace(s, outcomes).len() ==> !installs_or_stages(
                #[trigger] trace(s, outcomes)[i],
            ),
{
    let t = trace(s, outcomes);
    let f = if s == Stage::ProbeRuntime {
        Failure::RuntimeMissing
    } else {
        Failure::EnvToolUnavailable
    };
    let rest = outcomes.drop_first();
    lemma_trace_len(s, outcomes);
    lemma_trace_len(Stage::Aborted(f), rest);
    lemma_aborted_stays(f, rest);
    assert(t == seq![s] + trace(Stage::Aborted(f), rest));
    assert forall|i: int| 0 <= i < t.len() implies !installs_or_stages(#[trigger] t[i]) by {
        if i > 0 {
            assert(t[i] == trace(Stage::Aborted(f), rest)[i - 1]);
        }
    }
}

/// Creating the project directory is idempotent: when the directory is
/// already there the step only probes for it (nothing is created or
/// removed), it does not fail, and the run goes on exactly as after a fresh
/// creation.
pub proof fn lemma_directory_step_idempotent(name: Seq<char>, cfg: ConfigModel)
    ensures
        stage_action(Stage::CheckProjectDir, name, cfg) == ActionModel::Exists(seq![name]),
        next_stage(Stage::CheckProjectDir, true) == next_stage(Stage::CreateProjectDir, true),
        !(next_stage(Stage::CheckProjectDir, true) is Aborted),
        next_stage(Stage::CheckProjectDir, true) != Stage::CreateProjectDir,
{
}

/// Every copy the pipeline asks for takes a file straight out of the
/// resource directory and puts it under the same name directly inside the
/// project directory; the bytes themselves are moved by the caller.
pub proof fn lemma_copies_keep_file_names(s: Stage, name: Seq<char>, cfg: ConfigModel)
    ensures
        stage_action(s, name, cfg) matches ActionModel::Copy { from, to } ==> {
            &&& from.len() == 2
            &&& to.len() == 2
            &&& from[0] == cfg.resources
            &&& to[0] == name
            &&& from[1] == to[1]
        },
{
}

} // verus!

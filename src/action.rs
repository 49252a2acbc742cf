//! The actions that the caller performs on the pipeline's behalf.
use vstd::prelude::*;
use crate::config::texts;

verus! {

/// A child process to start: the program, its arguments as a pre-split
/// vector (never a shell string), and whether it runs with the project's
/// isolated environment first on the executable search path.
#[derive(Debug, Clone, PartialEq, Eq)]
pub struct Invocation {
    pub program: String,
    pub args: Vec<String>,
    pub in_env: bool,
}

/// One thing for the caller to do. Paths are lists of segments, relative to
/// the current directory, except those that start with the resource
/// directory. The caller answers each action with one `bool`:
/// - `CheckPlatform`: the platform is Linux;
/// - `Run`: the child started, was waited for and exited with status zero;
/// - `Exists`: the path exists;
/// - `CreateDir`, `Copy`, `EnterDir`, `MakeExecutable`, `WriteFile`,
///   `RemoveFile`: the operation succeeded (`MakeExecutable` sets mode 0o755);
/// - `Finish`: nothing is left to do.
#[derive(Debug, Clone, PartialEq, Eq)]
pub enum Action {
    CheckPlatform,
    Run(Invocation),
    Exists(Vec<String>),
    CreateDir(Vec<String>),
    Copy { from: Vec<String>, to: Vec<String> },
    EnterDir(Vec<String>),
    MakeExecutable(Vec<String>),
    WriteFile { path: Vec<String>, contents: String },
    RemoveFile(Vec<String>),
    Finish,
}

/// Mathematical model of an [`Action`]: strings become character sequences.
pub enum ActionModel {
    CheckPlatform,
    Run { program: Seq<char>, args: Seq<Seq<char>>, in_env: bool },
    Exists(Seq<Seq<char>>),
    CreateDir(Seq<Seq<char>>),
    Copy { from: Seq<Seq<char>>, to: Seq<Seq<char>> },
    EnterDir(Seq<Seq<char>>),
    MakeExecutable(Seq<Seq<char>>),
    WriteFile { path: Seq<Seq<char>>, contents: Seq<char> },
    RemoveFile(Seq<Seq<char>>),
    Finish,
}

impl View for Action {
    type V = ActionModel;

    open spec fn view(&self) -> ActionModel {
        match self {
            Action::CheckPlatform => ActionModel::CheckPlatform,
            Action::Run(inv) => ActionModel::Run {
                program: inv.program@,
                args: texts(inv.args@),
                in_env: inv.in_env,
            },
            Action::Exists(p) => ActionModel::Exists(texts(p@)),
            Action::CreateDir(p) => ActionModel::CreateDir(texts(p@)),
            Action::Copy { from, to } => ActionModel::Copy { from: texts(from@), to: texts(to@) },
            Action::EnterDir(p) => ActionModel::EnterDir(texts(p@)),
            Action::MakeExecutable(p) => ActionModel::MakeExecutable(texts(p@)),
            Action::WriteFile { path, contents } => ActionModel::WriteFile {
                path: texts(path@),
                contents: contents@,
            },
            Action::RemoveFile(p) => ActionModel::RemoveFile(texts(p@)),
            Action::Finish => ActionModel::Finish,
        }
    }
}

impl ActionModel {
    /// The action starts a child process.
    pub open spec fn spawns(self) -> bool {
        self is Run
    }
}

/// A path of one segment.
pub fn path1(a: &str) -> (p: Vec<String>)
    ensures
        texts(p@) == seq![a@],
{
    let mut p: Vec<String> = Vec::new();
    p.push(String::from_str(a));
    assert(texts(p@) =~= seq![a@]);
    p
}

/// A path of two segments.
pub fn path2(a: &str, b: &str) -> (p: Vec<String>)
    ensures
        texts(p@) == seq![a@, b@],
{
    let mut p: Vec<String> = Vec::new();
    p.push(String::from_str(a));
    p.push(String::from_str(b));
    assert(texts(p@) =~= seq![a@, b@]);
    p
}

/// A path of three segments.
pub fn path3(a: &str, b: &str, c: &str) -> (p: Vec<String>)
    ensures
        texts(p@) == seq![a@, b@, c@],
{
    let mut p: Vec<String> = Vec::new();
    p.push(String::from_str(a));
    p.push(String::from_str(b));
    p.push(String::from_str(c));
    assert(texts(p@) =~= seq![a@, b@, c@]);
    p
}

/// A child process run outside the isolated environment.
pub fn run(program: &str, args: Vec<String>) -> (a: Action)
    ensures
        a@ == (ActionModel::Run { program: program@, args: texts(args@), in_env: false }),
{
    Action::Run(Invocation { program: String::from_str(program), args, in_env: false })
}

} // verus!

//! The command-line surface, as plain data.
use vstd::prelude::*;

verus! {

/// The parsed command line: which kind of document to build.
#[derive(Debug, Clone, PartialEq, Eq)]
pub struct DjangoArgs {
    pub document_type: DocumentType,
}

/// Kind of document to build.
#[derive(Debug, Clone, PartialEq, Eq)]
pub enum DocumentType {
    /// Project commands.
    Project(ProjectCommand),
    /// App commands (reserved, nothing to do yet).
    App,
    /// Environment-file commands (reserved, nothing to do yet).
    EnvFile,
}

/// The `project` command family.
#[derive(Debug, Clone, PartialEq, Eq)]
pub struct ProjectCommand {
    pub command: ProjectSubCommand,
}

/// Subcommands of `project`.
#[derive(Debug, Clone, PartialEq, Eq)]
pub enum ProjectSubCommand {
    /// Create a project.
    Create(CreateProject),
}

/// Request to create a project under the given name.
#[derive(Debug, Clone, PartialEq, Eq)]
pub struct CreateProject {
    /// The name of the project, also the name of its directory.
    pub name: String,
}

} // verus!

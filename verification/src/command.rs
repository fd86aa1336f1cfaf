use vstd::prelude::*;

use crate::text::{clone_string, texts};

verus! {

/// A request to the Workon application.
#[derive(Debug, Clone, PartialEq, Eq)]
pub enum Command {
    ListWorks,
    InstallShell,
    InstallDevShell { manifest_path: String },
    OpenOrCreate { input: String, intent_id: Option<String> },
    CreateWork { goal: String, intent_id: String },
    OpenWork { query: String },
    ArchiveWork { query: String },
    ListIntents,
    ShowIntent { intent_id: String },
    SwitchWorkIntent { query: String, intent_id: String },
    ListWorkRepositories { query: String },
    ListRepositoryCandidates { query: String },
    ListRepositoryCandidatePaths { query: String },
    InspectRepositoryCandidate { path: String, refresh: bool },
    LinkWorkRepositories { query: String, paths: Vec<String> },
    AddWorkRepositories { query: String, repositories: Vec<String>, workspace: Option<String> },
    RemoveWorkRepositories { query: String, repositories: Vec<String>, force: bool },
    ListRepositoryWorkspaces,
    AddRepositoryWorkspaces { paths: Vec<String> },
    RemoveRepositoryWorkspace { path: String },
    ListGitHubRepositories,
}

/// The mathematical value of a [`Command`]: texts in place of strings.
pub enum SpecCommand {
    ListWorks,
    InstallShell,
    InstallDevShell { manifest_path: Seq<char> },
    OpenOrCreate { input: Seq<char>, intent_id: Option<Seq<char>> },
    CreateWork { goal: Seq<char>, intent_id: Seq<char> },
    OpenWork { query: Seq<char> },
    ArchiveWork { query: Seq<char> },
    ListIntents,
    ShowIntent { intent_id: Seq<char> },
    SwitchWorkIntent { query: Seq<char>, intent_id: Seq<char> },
    ListWorkRepositories { query: Seq<char> },
    ListRepositoryCandidates { query: Seq<char> },
    ListRepositoryCandidatePaths { query: Seq<char> },
    InspectRepositoryCandidate { path: Seq<char>, refresh: bool },
    LinkWorkRepositories { query: Seq<char>, paths: Seq<Seq<char>> },
    AddWorkRepositories {
        query: Seq<char>,
        repositories: Seq<Seq<char>>,
        workspace: Option<Seq<char>>,
    },
    RemoveWorkRepositories { query: Seq<char>, repositories: Seq<Seq<char>>, force: bool },
    ListRepositoryWorkspaces,
    AddRepositoryWorkspaces { paths: Seq<Seq<char>> },
    RemoveRepositoryWorkspace { path: Seq<char> },
    ListGitHubRepositories,
}

/// The text of an optional string.
pub open spec fn opt_text(o: Option<String>) -> Option<Seq<char>> {
    match o {
        Some(s) => Some(s@),
        None => None,
    }
}

impl View for Command {
    type V = SpecCommand;

    open spec fn view(&self) -> SpecCommand {
        match self {
            Command::ListWorks => SpecCommand::ListWorks,
            Command::InstallShell => SpecCommand::InstallShell,
            Command::InstallDevShell { manifest_path } => SpecCommand::InstallDevShell {
                manifest_path: manifest_path@,
            },
            Command::OpenOrCreate { input, intent_id } => SpecCommand::OpenOrCreate {
                input: input@,
                intent_id: opt_text(*intent_id),
            },
            Command::CreateWork { goal, intent_id } => SpecCommand::CreateWork {
                goal: goal@,
                intent_id: intent_id@,
            },
            Command::OpenWork { query } => SpecCommand::OpenWork { query: query@ },
            Command::ArchiveWork { query } => SpecCommand::ArchiveWork { query: query@ },
            Command::ListIntents => SpecCommand::ListIntents,
            Command::ShowIntent { intent_id } => SpecCommand::ShowIntent { intent_id: intent_id@ },
            Command::SwitchWorkIntent { query, intent_id } => SpecCommand::SwitchWorkIntent {
                query: query@,
                intent_id: intent_id@,
            },
            Command::ListWorkRepositories { query } => SpecCommand::ListWorkRepositories {
                query: query@,
            },
            Command::ListRepositoryCandidates { query } => SpecCommand::ListRepositoryCandidates {
                query: query@,
            },
            Command::ListRepositoryCandidatePaths { query } =>
                SpecCommand::ListRepositoryCandidatePaths { query: query@ },
            Command::InspectRepositoryCandidate { path, refresh } =>
                SpecCommand::InspectRepositoryCandidate { path: path@, refresh: *refresh },
            Command::LinkWorkRepositories { query, paths } => SpecCommand::LinkWorkRepositories {
                query: query@,
                paths: texts(paths@),
            },
            Command::AddWorkRepositories { query, repositories, workspace } =>
                SpecCommand::AddWorkRepositories {
                query: query@,
                repositories: texts(repositories@),
                workspace: opt_text(*workspace),
            },
            Command::RemoveWorkRepositories { query, repositories, force } =>
                SpecCommand::RemoveWorkRepositories {
                query: query@,
                repositories: texts(repositories@),
                force: *force,
            },
            Command::ListRepositoryWorkspaces => SpecCommand::ListRepositoryWorkspaces,
            Command::AddRepositoryWorkspaces { paths } => SpecCommand::AddRepositoryWorkspaces {
                paths: texts(paths@),
            },
            Command::RemoveRepositoryWorkspace { path } => SpecCommand::RemoveRepositoryWorkspace {
                path: path@,
            },
            Command::ListGitHubRepositories => SpecCommand::ListGitHubRepositories,
        }
    }
}

/// The text of an optional string, as an executable clone.
pub fn clone_opt(o: &Option<String>) -> (r: Option<String>)
    ensures
        r == *o,
        opt_text(r) == opt_text(*o),
{
    match o {
        Some(s) => Some(clone_string(s)),
        None => None,
    }
}

/// The command that the interactive shell prompt installs: the development hook
/// when a development manifest is known, the production hook otherwise.
pub fn shell_install_command_for_prompt(dev_manifest: Option<String>) -> (c: Command)
    ensures
        c@ == (match opt_text(dev_manifest) {
            Some(p) => SpecCommand::InstallDevShell { manifest_path: p },
            None => SpecCommand::InstallShell,
        }),
{
    match dev_manifest {
        Some(manifest_path) => Command::InstallDevShell { manifest_path },
        None => Command::InstallShell,
    }
}

} // verus!

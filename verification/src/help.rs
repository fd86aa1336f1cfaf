use vstd::prelude::*;

use crate::cli_args::CliRequest;

verus! {

/// The general usage text.
pub const GENERAL_HELP: &'static str = "wo - start, open, and archive work folders

Usage:
  wo                         list active work
  wo list                    list active work
  wo <work-query>            open matching work
  wo archive <work-query>    archive matching work
  wo intent list             list reusable intent profiles
  wo intent switch <work> <intent>
                             switch current intent for matching Work
  wo intent new <id> --name <name> --summary <summary>
                             create a reusable custom intent
  wo intent edit <id>        update a custom intent
  wo intent                  show intent workflow help
  wo repos list <work-query>
                             list attached repositories
  wo repos discover <work-query>
                             discover repo candidates from configured workspaces
  wo repos add [--workspace <path>] <work> <owner/repo>...
                             create/link GitHub repos from a configured workspace
  wo repos link <work> <path>...
                             link existing repo worktrees or checkouts
  wo repos workspace add <path>...
                             configure repo workspaces for discovery and creation
  wo repos workspace list|remove
                             manage configured repo workspaces
  wo repos remove [--force] <work> <owner/repo>...
                             remove attached repo links
  wo repos                   show GitHub repo context help
  wo --intent <id> \"<goal>\"  create work
  wo install-shell           install folder switching
  wo version                 print version

Options:
  -i, --intent <id>          intent for new work
  --machine                  emit shell switch signals
  -h, --help                 show this help
  -V, --version              print version

Env:
  WORKON_ROOT=/path          override the default ~/.workon root
";

/// The usage text of the intent commands.
pub const INTENT_HELP: &'static str = "wo intent - define and switch reusable Work intentions

Usage:
  wo intent list
      List built-in and custom intent profiles.

  wo intent show <intent-id>
      Show one intent profile.

  wo intent switch <work-query> <intent-id>
      Set the current intent for the matching Work and rewrite agent files.

  wo intent new <intent-id> --name <name> --summary <summary>
      Create a custom reusable intent.

  wo intent edit <intent-id> [--name <name>] [--summary <summary>]
      Edit a custom intent. Built-in intents are read-only.

  wo intent duplicate <source-intent-id> <new-intent-id> [--name <name>]
      Copy a built-in or custom intent into an editable custom intent.

  wo intent archive <intent-id>
      Hide a custom intent from the active catalog. Built-ins cannot be archived.

List fields:
  --skill <skill>            Add one preferred skill. Repeat as needed.
  --mcp <mcp>                Add one preferred MCP. Repeat as needed.
  --instruction <text>       Add one instruction. Repeat as needed.

Edit clearing:
  --clear-skills
  --clear-mcps
  --clear-instructions

TUI:
  wo
      Highlight a Work, press /i, filter intents, then press enter to switch.
";

/// The usage text of the repository commands.
pub const REPOS_HELP: &'static str = "wo repos - link repositories to a Work

Usage:
  wo repos list <work-query>
      List repositories attached to the matching Work.

  wo repos discover <work-query>
      Discover Git working trees under configured repo workspaces.

  wo repos add [--workspace <path>] <work-query> <owner/repo>...
      Create one or more GitHub repositories in a configured repo workspace,
      then expose them under <work>/repos/ with symlinks.

  wo repos link <work-query> <path>...
      Link existing Git working trees or worktrees to the matching Work.

  wo repos workspace list
      List folders Workon may scan and create repos in.

  wo repos workspace add <path>...
      Add one or more repo workspaces. Workon creates repos only inside configured workspaces.

  wo repos workspace remove <path>
      Remove a repo workspace from discovery and creation.

  wo repos remove [--force] <work-query> <owner/repo>...
      Remove one or more attached repository links.
      The underlying checkout or worktree is kept.

TUI:
  wo
      Highlight a Work, press /r, select GitHub or local repositories, tab to
      choose the creation path when multiple workspaces exist, then press enter.

Requires:
  gh auth login
";

/// The usage text a help request asks for, if it is one.
pub fn help_text(request: &CliRequest) -> (r: Option<&'static str>)
    ensures
        r == match *request {
            CliRequest::Help => Some(GENERAL_HELP),
            CliRequest::IntentHelp => Some(INTENT_HELP),
            CliRequest::ReposHelp => Some(REPOS_HELP),
            _ => None::<&'static str>,
        },
{
    match request {
        CliRequest::Help => Some(GENERAL_HELP),
        CliRequest::IntentHelp => Some(INTENT_HELP),
        CliRequest::ReposHelp => Some(REPOS_HELP),
        _ => None,
    }
}

} // verus!

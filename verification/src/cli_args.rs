use vstd::prelude::*;

use crate::command::{opt_text, Command, SpecCommand};
use crate::error::{missing, WorkonError};
use crate::seqs::{find_from, lemma_texts_push, strings_before, strings_contain, strings_without, sub_strings, without};
use crate::text::{lemma_trim_end_prefix, lemma_trim_start_noop, chars_of, clone_string, concat2, concat3, has_prefix, is_blank, join, join_strings, owned, push_str, starts_with, starts_with_char, str_eq, string_from_range, texts, trim, trim_exec};

verus! {

/// What the command line asks for.
#[derive(Debug, Clone, PartialEq, Eq)]
pub enum CliRequest {
    Command { command: Command, machine: bool, allow_tui: bool },
    Help,
    IntentHelp,
    ReposHelp,
    Version,
}

/// The mathematical value of a [`CliRequest`].
pub enum SpecRequest {
    Command { command: SpecCommand, machine: bool, allow_tui: bool },
    Help,
    IntentHelp,
    ReposHelp,
    Version,
}

impl View for CliRequest {
    type V = SpecRequest;

    open spec fn view(&self) -> SpecRequest {
        match self {
            CliRequest::Command { command, machine, allow_tui } => SpecRequest::Command {
                command: command@,
                machine: *machine,
                allow_tui: *allow_tui,
            },
            CliRequest::Help => SpecRequest::Help,
            CliRequest::IntentHelp => SpecRequest::IntentHelp,
            CliRequest::ReposHelp => SpecRequest::ReposHelp,
            CliRequest::Version => SpecRequest::Version,
        }
    }
}

/// Parse outcomes: a request, or the message of a missing-argument error.
pub open spec fn outcome<T: View>(r: Result<T, WorkonError>) -> Result<T::V, Seq<char>> {
    match r {
        Ok(v) => Ok(v@),
        Err(WorkonError::MissingArgument { message }) => Err(message@),
        Err(_) => Err(Seq::empty()),
    }
}

/// The message of a missing-argument error.
pub open spec fn usage_message(e: WorkonError) -> Seq<char> {
    match e {
        WorkonError::MissingArgument { message } => message@,
        _ => Seq::empty(),
    }
}

/// Only missing-argument errors come out of parsing.
pub open spec fn is_usage_error<T>(r: Result<T, WorkonError>) -> bool {
    r matches Err(e) ==> e is MissingArgument
}

// ---------------------------------------------------------------------------
// The grammar of the command line.
// ---------------------------------------------------------------------------

/// A command request; it never opens the interactive view.
pub open spec fn cmd_req(c: SpecCommand, machine: bool) -> SpecRequest {
    SpecRequest::Command { command: c, machine, allow_tui: false }
}

/// A request to list the active Works.
pub open spec fn list_req(machine: bool, allow_tui: bool) -> SpecRequest {
    SpecRequest::Command { command: SpecCommand::ListWorks, machine, allow_tui }
}

/// `repos add|link|remove ...` takes a `--` of its own.
pub open spec fn is_local_terminator(parts: Seq<Seq<char>>) -> bool {
    parts.len() >= 2 && parts[0] == "repos"@ && (parts[1] == "add"@ || parts[1] == "link"@
        || parts[1] == "remove"@)
}

/// `repos`, `repos --help|-h|help`, `help repos`.
pub open spec fn is_repos_help_args(a: Seq<Seq<char>>) -> bool {
    ||| (a.len() == 1 && a[0] == "repos"@)
    ||| (a.len() == 2 && a[0] == "repos"@ && (a[1] == "--help"@ || a[1] == "-h"@ || a[1]
        == "help"@))
    ||| (a.len() == 2 && a[0] == "help"@ && a[1] == "repos"@)
}

/// `intent`, `intent --help|-h|help`, `help intent`.
pub open spec fn is_intent_help_args(a: Seq<Seq<char>>) -> bool {
    ||| (a.len() == 1 && a[0] == "intent"@)
    ||| (a.len() == 2 && a[0] == "intent"@ && (a[1] == "--help"@ || a[1] == "-h"@ || a[1]
        == "help"@))
    ||| (a.len() == 2 && a[0] == "help"@ && a[1] == "intent"@)
}

/// `version`, `--version` or `-V` alone.
pub open spec fn is_version_args(a: Seq<Seq<char>>) -> bool {
    a.len() == 1 && (a[0] == "version"@ || a[0] == "--version"@ || a[0] == "-V"@)
}

/// The arguments before the first `--`, without `--machine`.
pub open spec fn flag_zone(a: Seq<Seq<char>>) -> Seq<Seq<char>> {
    without(a.take(find_from(a, "--"@, 0)), "--machine"@)
}

/// Which help a `--help`/`-h` flag asks for.
pub open spec fn help_flag_request(b: Seq<Seq<char>>) -> SpecRequest {
    if b.len() > 0 && b[0] == "repos"@ {
        SpecRequest::ReposHelp
    } else if b.len() > 0 && b[0] == "intent"@ {
        SpecRequest::IntentHelp
    } else {
        SpecRequest::Help
    }
}

/// `help ...` as a command.
pub open spec fn help_command(a: Seq<Seq<char>>) -> Result<Option<SpecRequest>, Seq<char>> {
    if a.len() == 0 || a[0] != "help"@ {
        Ok(None)
    } else if a.len() == 1 {
        Ok(Some(SpecRequest::Help))
    } else if a.len() == 2 && a[1] == "repos"@ {
        Ok(Some(SpecRequest::ReposHelp))
    } else if a.len() == 2 && a[1] == "intent"@ {
        Ok(Some(SpecRequest::IntentHelp))
    } else if a[1] == "repos"@ || a[1] == "intent"@ {
        Err("help "@ + a[1] + " does not accept extra arguments"@)
    } else {
        Err("unknown help topic `"@ + a[1]
            + "`. Use `wo help`, `wo help repos`, or `wo help intent`."@)
    }
}

/// The message for a reserved command given extra arguments.
pub open spec fn reserved_extra_message(command: Seq<char>) -> Seq<char> {
    command + " does not accept extra arguments. Use `wo \""@ + command
        + " ...\"` to create a Work goal that starts with "@ + command + "."@
}

/// A reserved command followed by more arguments.
pub open spec fn has_reserved_extra(a: Seq<Seq<char>>, command: Seq<char>) -> bool {
    a.len() > 1 && a[0] == command
}

/// The first part names a command of Workon.
pub open spec fn is_reserved_command(parts: Seq<Seq<char>>) -> bool {
    parts.len() > 0 && {
        let p = parts[0];
        p == "archive"@ || p == "help"@ || p == "install-dev-shell"@ || p == "install-shell"@
            || p == "intent"@ || p == "list"@ || p == "repos"@ || p == "version"@
    }
}

/// The state of the scan over the arguments.
pub struct Scan {
    pub machine: bool,
    pub intent: Option<Seq<char>>,
    pub parts: Seq<Seq<char>>,
    pub terminated: bool,
}

/// The message for an option that is not known.
pub open spec fn unknown_option_message(v: Seq<char>) -> Seq<char> {
    "unknown option `"@ + v + "`. Use `--` before a work goal that starts with `-`."@
}

/// Scans the arguments from position `i`, collecting options and work input.
pub open spec fn scan(a: Seq<Seq<char>>, i: int, st: Scan) -> Result<Scan, Seq<char>>
    decreases a.len() - i,
{
    if i >= a.len() || i < 0 {
        Ok(st)
    } else if a[i] == "--"@ {
        if is_local_terminator(st.parts) {
            scan(a, i + 1, st)
        } else {
            Ok(Scan { parts: st.parts + a.subrange(i + 1, a.len() as int), terminated: true, ..st })
        }
    } else if a[i] == "--machine"@ {
        scan(a, i + 1, Scan { machine: true, ..st })
    } else if a[i] == "--intent"@ || a[i] == "-i"@ {
        if i + 1 >= a.len() {
            Err("--intent requires an intent id"@)
        } else {
            scan(a, i + 2, Scan { intent: Some(a[i + 1]), ..st })
        }
    } else if st.parts.len() == 0 && a[i].len() > 0 && a[i][0] == '-' {
        Err(unknown_option_message(a[i]))
    } else {
        scan(a, i + 1, Scan { parts: st.parts.push(a[i]), ..st })
    }
}

/// The scan state at the start.
pub open spec fn scan_start() -> Scan {
    Scan { machine: false, intent: None, parts: Seq::empty(), terminated: false }
}

/// A part that starts with `-`.
pub open spec fn is_dashed(v: Seq<char>) -> bool {
    v.len() > 0 && v[0] == '-'
}

/// Rejects a leading option of a `repos` sub-command.
pub open spec fn leading_option_error(parts: Seq<Seq<char>>, command: Seq<char>) -> Option<
    Seq<char>,
> {
    if parts.len() > 2 && is_dashed(parts[2]) {
        Some("unknown "@ + command + " option `"@ + parts[2] + "`"@)
    } else {
        None
    }
}

/// The first position at or after `i` of an option that is not `allowed`.
pub open spec fn first_unknown_option(parts: Seq<Seq<char>>, allowed: Seq<char>, i: int) -> int
    decreases parts.len() - i,
{
    if i >= parts.len() {
        parts.len() as int
    } else if is_dashed(parts[i]) && parts[i] != allowed {
        i
    } else {
        first_unknown_option(parts, allowed, i + 1)
    }
}

/// A `owner/repo` name: exactly one `/`, with text on both sides.
pub open spec fn looks_like_repository(v: Seq<char>) -> bool {
    exists|i: int|
        0 < i < v.len() - 1 && v[i] == '/' && (forall|j: int|
            0 <= j < v.len() && j != i ==> v[j] != '/')
}

/// A file system path written as such.
pub open spec fn looks_like_path(v: Seq<char>) -> bool {
    has_prefix(v, "/"@) || has_prefix(v, "./"@) || has_prefix(v, "../"@) || has_prefix(
        v,
        "~/"@,
    ) || v.contains('\\')
}

/// The first position at or after `i` that looks like a repository.
pub open spec fn first_repository(parts: Seq<Seq<char>>, i: int) -> int
    decreases parts.len() - i,
{
    if i >= parts.len() {
        parts.len() as int
    } else if looks_like_repository(parts[i]) {
        i
    } else {
        first_repository(parts, i + 1)
    }
}

/// The first position at or after `i` that looks like a path.
pub open spec fn first_path(parts: Seq<Seq<char>>, i: int) -> int
    decreases parts.len() - i,
{
    if i >= parts.len() {
        parts.len() as int
    } else if looks_like_path(parts[i]) {
        i
    } else {
        first_path(parts, i + 1)
    }
}

/// Splits positional arguments at `start` into a work query and the rest.
pub open spec fn split_query(
    pos: Seq<Seq<char>>,
    start: int,
    command: Seq<char>,
    what: Seq<char>,
) -> Result<(Seq<char>, Seq<Seq<char>>), Seq<char>> {
    if pos.len() == 0 {
        Err(command + " requires a work query and at least one "@ + what)
    } else if start >= pos.len() {
        if pos.len() == 1 {
            Err(command + " requires at least one "@ + what)
        } else {
            Ok((pos[0], pos.subrange(1, pos.len() as int)))
        }
    } else if start == 0 {
        Err(command + " requires a work query and at least one "@ + what)
    } else {
        Ok((join(pos.subrange(0, start), " "@), pos.subrange(start, pos.len() as int)))
    }
}

/// `<work-query> <owner/repo>...`.
pub open spec fn query_and_repositories(pos: Seq<Seq<char>>, command: Seq<char>) -> Result<
    (Seq<char>, Seq<Seq<char>>),
    Seq<char>,
> {
    split_query(pos, first_repository(pos, 0), command, "repository"@)
}

/// `<work-query> <path>...`.
pub open spec fn query_and_paths(pos: Seq<Seq<char>>, command: Seq<char>) -> Result<
    (Seq<char>, Seq<Seq<char>>),
    Seq<char>,
> {
    split_query(pos, first_path(pos, 0), command, "path"@)
}

/// `[--workspace <path>] positional...` for `repos add`, scanned from `i`.
pub open spec fn workspace_option(
    parts: Seq<Seq<char>>,
    i: int,
    workspace: Option<Seq<char>>,
    positional: Seq<Seq<char>>,
) -> Result<(Option<Seq<char>>, Seq<Seq<char>>), Seq<char>>
    decreases parts.len() - i,
{
    if i >= parts.len() || i < 0 {
        Ok((workspace, positional))
    } else if parts[i] == "--workspace"@ {
        if i + 1 >= parts.len() {
            Err("--workspace requires a path"@)
        } else {
            workspace_option(parts, i + 2, Some(parts[i + 1]), positional)
        }
    } else if is_dashed(parts[i]) {
        Err("unknown repos add option `"@ + parts[i]
            + "`. Use `--workspace <path>` before the work query."@)
    } else {
        workspace_option(parts, i + 1, workspace, positional.push(parts[i]))
    }
}

/// The query of a sub-command that takes one: the rest of the parts.
pub open spec fn rest_query(parts: Seq<Seq<char>>) -> Seq<char> {
    join(parts.subrange(2, parts.len() as int), " "@)
}

/// A sub-command that takes a work query and nothing else.
pub open spec fn query_command(
    parts: Seq<Seq<char>>,
    name: Seq<char>,
    c: SpecCommand,
    machine: bool,
) -> Result<SpecRequest, Seq<char>> {
    match leading_option_error(parts, name) {
        Some(m) => Err(m),
        None => if trim(rest_query(parts)).len() == 0 {
            Err(name + " requires a work query"@)
        } else {
            Ok(cmd_req(c, machine))
        },
    }
}

/// `repos workspace ...`.
pub open spec fn repos_workspace_command(parts: Seq<Seq<char>>, machine: bool) -> Result<
    SpecRequest,
    Seq<char>,
> {
    if parts.len() <= 2 {
        Ok(cmd_req(SpecCommand::ListRepositoryWorkspaces, machine))
    } else if parts[2] == "list"@ {
        if parts.len() > 3 {
            Err("repos workspace list does not accept extra arguments"@)
        } else {
            Ok(cmd_req(SpecCommand::ListRepositoryWorkspaces, machine))
        }
    } else if parts[2] == "add"@ {
        if parts.len() <= 3 {
            Err("repos workspace add requires at least one path"@)
        } else {
            Ok(
                cmd_req(
                    SpecCommand::AddRepositoryWorkspaces {
                        paths: parts.subrange(3, parts.len() as int),
                    },
                    machine,
                ),
            )
        }
    } else if parts[2] == "remove"@ {
        if parts.len() <= 3 {
            Err("repos workspace remove requires a path"@)
        } else if parts.len() > 4 {
            Err("repos workspace remove accepts exactly one path"@)
        } else {
            Ok(cmd_req(SpecCommand::RemoveRepositoryWorkspace { path: parts[3] }, machine))
        }
    } else {
        Err("repos workspace requires list, add, or remove"@)
    }
}

/// `repos ...`.
pub open spec fn repos_command(parts: Seq<Seq<char>>, machine: bool) -> Result<
    SpecRequest,
    Seq<char>,
> {
    let sub = if parts.len() > 1 {
        parts[1]
    } else {
        Seq::empty()
    };
    if parts.len() <= 1 {
        Err("repos requires list, add, link, discover, candidate-paths, workspace, or remove"@)
    } else if sub == "help"@ {
        if parts.len() > 2 {
            Err("repos help does not accept extra arguments"@)
        } else {
            Ok(SpecRequest::ReposHelp)
        }
    } else if sub == "workspace"@ || sub == "workspaces"@ {
        repos_workspace_command(parts, machine)
    } else if sub == "discover"@ {
        query_command(
            parts,
            "repos discover"@,
            SpecCommand::ListRepositoryCandidates { query: rest_query(parts) },
            machine,
        )
    } else if sub == "candidate-paths"@ {
        query_command(
            parts,
            "repos candidate-paths"@,
            SpecCommand::ListRepositoryCandidatePaths { query: rest_query(parts) },
            machine,
        )
    } else if sub == "link"@ {
        match leading_option_error(parts, "repos link"@) {
            Some(m) => Err(m),
            None => match query_and_paths(parts.subrange(2, parts.len() as int), "repos link"@) {
                Err(m) => Err(m),
                Ok((query, paths)) => Ok(
                    cmd_req(SpecCommand::LinkWorkRepositories { query, paths }, machine),
                ),
            },
        }
    } else if sub == "list"@ {
        query_command(
            parts,
            "repos list"@,
            SpecCommand::ListWorkRepositories { query: rest_query(parts) },
            machine,
        )
    } else if sub == "add"@ {
        match workspace_option(parts.subrange(2, parts.len() as int), 0, None, Seq::empty()) {
            Err(m) => Err(m),
            Ok((workspace, positional)) => match query_and_repositories(
                positional,
                "repos add"@,
            ) {
                Err(m) => Err(m),
                Ok((query, repositories)) => Ok(
                    cmd_req(
                        SpecCommand::AddWorkRepositories { query, repositories, workspace },
                        machine,
                    ),
                ),
            },
        }
    } else if sub == "remove"@ {
        let rest = parts.subrange(2, parts.len() as int);
        let bad = first_unknown_option(rest, "--force"@, 0);
        if bad < rest.len() {
            Err("unknown repos remove option `"@ + rest[bad] + "`"@)
        } else {
            match query_and_repositories(without(rest, "--force"@), "repos remove"@) {
                Err(m) => Err(m),
                Ok((query, repositories)) => Ok(
                    cmd_req(
                        SpecCommand::RemoveWorkRepositories {
                            query,
                            repositories,
                            force: rest.contains("--force"@),
                        },
                        machine,
                    ),
                ),
            }
        }
    } else {
        Err("repos requires list, add, link, discover, candidate-paths, workspace, or remove"@)
    }
}

/// `intent ...`.
pub open spec fn intent_command(parts: Seq<Seq<char>>, machine: bool) -> Result<
    SpecRequest,
    Seq<char>,
> {
    let sub = if parts.len() > 1 {
        parts[1]
    } else {
        Seq::empty()
    };
    if parts.len() <= 1 {
        Err("intent requires list, show, or switch"@)
    } else if sub == "help"@ {
        if parts.len() > 2 {
            Err("intent help does not accept extra arguments"@)
        } else {
            Ok(SpecRequest::IntentHelp)
        }
    } else if sub == "list"@ {
        if parts.len() > 2 {
            Err("intent list does not accept extra arguments"@)
        } else {
            Ok(cmd_req(SpecCommand::ListIntents, machine))
        }
    } else if sub == "show"@ {
        if parts.len() <= 2 {
            Err("intent show requires an intent id"@)
        } else if parts.len() > 3 {
            Err("intent show accepts exactly one intent id"@)
        } else {
            Ok(cmd_req(SpecCommand::ShowIntent { intent_id: parts[2] }, machine))
        }
    } else if sub == "switch"@ {
        if parts.len() < 4 {
            Err("intent switch requires a work query and intent id"@)
        } else {
            Ok(
                cmd_req(
                    SpecCommand::SwitchWorkIntent {
                        query: join(parts.subrange(2, parts.len() - 1), " "@),
                        intent_id: parts.last(),
                    },
                    machine,
                ),
            )
        }
    } else {
        Err("intent requires list, show, or switch"@)
    }
}

/// What the collected parts of the command line ask for.
pub open spec fn finish(st: Scan, lone_terminator: bool) -> Result<SpecRequest, Seq<char>> {
    let input = join(st.parts, " "@);
    let machine = st.machine;
    if trim(input).len() == 0 && st.intent is None {
        Ok(list_req(machine, lone_terminator && !machine))
    } else if trim(input).len() == 0 {
        Err("--intent requires a work goal. Use `wo --intent "@ + st.intent->0
            + " \"<goal>\"`."@)
    } else if st.terminated {
        Ok(cmd_req(SpecCommand::OpenOrCreate { input, intent_id: st.intent }, machine))
    } else if st.intent is Some && is_reserved_command(st.parts) {
        Err(
            "--intent can only be used when creating or opening Work. Use `--` before a Work goal that starts with a command name."@,
        )
    } else if st.parts == seq!["repos"@] {
        Ok(SpecRequest::ReposHelp)
    } else if st.parts == seq!["intent"@] {
        Ok(SpecRequest::IntentHelp)
    } else if st.parts[0] == "repos"@ {
        repos_command(st.parts, machine)
    } else if st.parts[0] == "intent"@ {
        intent_command(st.parts, machine)
    } else if st.parts[0] == "list"@ && st.parts.len() > 1 {
        Err(
            "list does not accept extra arguments. Use `wo \"list ...\"` to create a Work goal that starts with list."@,
        )
    } else if input == "list"@ {
        Ok(list_req(machine, false))
    } else if has_prefix(input, "archive "@) {
        let query = trim(input.subrange(8, input.len() as int));
        if query.len() == 0 {
            Err("archive requires a work query"@)
        } else {
            Ok(cmd_req(SpecCommand::ArchiveWork { query }, machine))
        }
    } else if input == "archive"@ {
        Err("archive requires a work query"@)
    } else {
        Ok(cmd_req(SpecCommand::OpenOrCreate { input, intent_id: st.intent }, machine))
    }
}

/// What a whole command line asks for; `dev` is the development manifest
/// (`WORKON_DEV_MANIFEST`) when one is set.
pub open spec fn parse(a: Seq<Seq<char>>, dev: Option<Seq<char>>) -> Result<
    SpecRequest,
    Seq<char>,
> {
    if a.len() == 0 {
        Ok(list_req(false, true))
    } else if is_repos_help_args(a) {
        Ok(SpecRequest::ReposHelp)
    } else if is_intent_help_args(a) {
        Ok(SpecRequest::IntentHelp)
    } else if flag_zone(a).contains("--help"@) || flag_zone(a).contains("-h"@) {
        Ok(help_flag_request(flag_zone(a)))
    } else {
        let c = without(a, "--machine"@);
        match help_command(c) {
            Err(m) => Err(m),
            Ok(Some(r)) => Ok(r),
            Ok(None) => if is_version_args(c) {
                Ok(SpecRequest::Version)
            } else if has_reserved_extra(c, "version"@) {
                Err(reserved_extra_message("version"@))
            } else if has_reserved_extra(c, "install-shell"@) {
                Err(reserved_extra_message("install-shell"@))
            } else if has_reserved_extra(c, "install-dev-shell"@) {
                Err(reserved_extra_message("install-dev-shell"@))
            } else if c == seq!["install-shell"@] {
                Ok(cmd_req(SpecCommand::InstallShell, false))
            } else if c == seq!["install-dev-shell"@] {
                match dev {
                    None => Err("WORKON_DEV_MANIFEST is required for install-dev-shell"@),
                    Some(p) => Ok(cmd_req(SpecCommand::InstallDevShell { manifest_path: p }, false)),
                }
            } else {
                match scan(a, 0, scan_start()) {
                    Err(m) => Err(m),
                    Ok(st) => finish(st, a.len() == 1 && a[0] == "--"@),
                }
            },
        }
    }
}

// ---------------------------------------------------------------------------
// Laws of the parser.
// ---------------------------------------------------------------------------

/// Scanning arguments none of which starts with `-` collects them all as
/// parts, in order, and changes nothing else.
proof fn lemma_scan_plain(a: Seq<Seq<char>>, i: int, st: Scan)
    requires
        0 <= i <= a.len(),
        forall|k: int| i <= k < a.len() ==> !is_dashed(#[trigger] a[k]),
    ensures
        scan(a, i, st) == Ok::<Scan, Seq<char>>(Scan { parts: st.parts + a.subrange(i, a.len() as int), ..st }),
    decreases a.len() - i,
{
    reveal_strlit("--");
    reveal_strlit("--machine");
    reveal_strlit("--intent");
    reveal_strlit("-i");
    if i < a.len() {
        assert(!is_dashed(a[i]));
        assert(a[i] != "--"@ && a[i] != "--machine"@ && a[i] != "--intent"@ && a[i] != "-i"@) by {
            if a[i].len() > 0 {
                assert("--"@[0] == '-');
            }
        }
        let next = Scan { parts: st.parts.push(a[i]), ..st };
        lemma_scan_plain(a, i + 1, next);
        assert(next.parts + a.subrange(i + 1, a.len() as int) =~= st.parts + a.subrange(i, a.len() as int));
    } else {
        assert(st.parts + a.subrange(i, a.len() as int) =~= st.parts);
    }
}

/// A sequence holding no `w` is found to hold none.
proof fn lemma_absent_not_found(s: Seq<Seq<char>>, w: Seq<char>, i: int)
    requires
        0 <= i <= s.len(),
        forall|k: int| 0 <= k < s.len() ==> #[trigger] s[k] != w,
    ensures
        find_from(s, w, i) == s.len(),
    decreases s.len() - i,
{
    if i < s.len() {
        lemma_absent_not_found(s, w, i + 1);
    }
}

/// Removing `w` from a sequence holding none loses nothing.
proof fn lemma_absent_kept(s: Seq<Seq<char>>, w: Seq<char>)
    requires
        forall|k: int| 0 <= k < s.len() ==> #[trigger] s[k] != w,
    ensures
        without(s, w) == s,
    decreases s.len(),
{
    if s.len() > 0 {
        assert forall|k: int| 0 <= k < s.drop_last().len() implies #[trigger] s.drop_last()[k] != w by {
            assert(s.drop_last()[k] == s[k]);
        }
        lemma_absent_kept(s.drop_last(), w);
        assert(s.drop_last().push(s.last()) =~= s);
    }
}

/// The joined text begins with the first part.
proof fn lemma_join_starts_with_first(parts: Seq<Seq<char>>, sep: Seq<char>)
    requires
        parts.len() >= 1,
    ensures
        join(parts, sep).len() >= parts[0].len(),
        join(parts, sep).subrange(0, parts[0].len() as int) == parts[0],
    decreases parts.len(),
{
    if parts.len() > 1 {
        lemma_join_starts_with_first(parts.drop_last(), sep);
        let j = join(parts.drop_last(), sep);
        assert((j + sep + parts.last()).subrange(0, parts[0].len() as int) =~= j.subrange(0, parts[0].len() as int));
    } else {
        assert(parts[0].subrange(0, parts[0].len() as int) =~= parts[0]);
    }
}

/// A `repos` command line of at least three arguments, none of which reads
/// as an option, goes straight to the `repos` sub-command parser.
proof fn lemma_plain_repos_line(a: Seq<Seq<char>>, dev: Option<Seq<char>>)
    requires
        a.len() >= 3,
        a[0] == "repos"@,
        forall|k: int| 0 <= k < a.len() ==> !is_dashed(#[trigger] a[k]),
    ensures
        parse(a, dev) == repos_command(a, false),
{
    reveal_strlit("repos");
    reveal_strlit("--");
    reveal_strlit("--machine");
    reveal_strlit("--help");
    reveal_strlit("-h");
    reveal_strlit("help");
    reveal_strlit("intent");
    reveal_strlit("list");
    reveal_strlit("version");
    reveal_strlit("install-shell");
    reveal_strlit("install-dev-shell");
    assert forall|w: Seq<char>| is_dashed(w) implies forall|k: int| 0 <= k < a.len() ==> #[trigger] a[k] != w by {
    }
    assert(is_dashed("--"@) && is_dashed("--machine"@) && is_dashed("--help"@) && is_dashed("-h"@));
    lemma_absent_not_found(a, "--"@, 0);
    lemma_absent_kept(a, "--machine"@);
    assert(a.take(a.len() as int) =~= a);
    let zone = flag_zone(a);
    assert(zone == a);
    assert(!zone.contains("--help"@) && !zone.contains("-h"@));
    assert(without(a, "--machine"@) == a);
    lemma_scan_plain(a, 0, scan_start());
    let st = Scan { parts: a, ..scan_start() };
    assert(Seq::<Seq<char>>::empty() + a.subrange(0, a.len() as int) =~= a);
    assert(scan(a, 0, scan_start()) == Ok::<Scan, Seq<char>>(st));
    lemma_join_starts_with_first(a, " "@);
    let input = join(a, " "@);
    assert(input[0] == 'r') by {
        assert(input.subrange(0, 5)[0] == input[0]);
    }
    lemma_trim_start_noop(input);
    lemma_trim_end_prefix(input);
    assert(trim(input).len() > 0);
    assert(a != seq!["repos"@]);
    assert(a != seq!["intent"@]);
}

/// `wo repos workspace add p1 ... pn` asks to add exactly the paths given,
/// all of them, in the order given, whatever their number, as long as none
/// of them reads as an option.
pub proof fn law_workspace_add_keeps_every_path(paths: Seq<Seq<char>>, dev: Option<Seq<char>>)
    requires
        paths.len() >= 1,
        forall|k: int| 0 <= k < paths.len() ==> !is_dashed(#[trigger] paths[k]),
    ensures
        parse(seq!["repos"@, "workspace"@, "add"@] + paths, dev) == Ok::<SpecRequest, Seq<char>>(
            SpecRequest::Command {
                command: SpecCommand::AddRepositoryWorkspaces { paths },
                machine: false,
                allow_tui: false,
            },
        ),
{
    reveal_strlit("repos");
    reveal_strlit("workspace");
    reveal_strlit("help");
    reveal_strlit("add");
    let a = seq!["repos"@, "workspace"@, "add"@] + paths;
    assert(a[0] == "repos"@ && a[1] == "workspace"@ && a[2] == "add"@);
    assert forall|k: int| 0 <= k < a.len() implies !is_dashed(#[trigger] a[k]) by {
        if k >= 3 {
            assert(a[k] == paths[k - 3]);
        }
    }
    lemma_plain_repos_line(a, dev);
    reveal_strlit("list");
    assert("workspace"@.len() == 9 && "help"@.len() == 4 && "add"@.len() == 3 && "list"@.len() == 4);
    assert(a[1] != "help"@ && a[2] != "list"@);
    assert(repos_command(a, false) == repos_workspace_command(a, false));
    assert(a.subrange(3, a.len() as int) =~= paths);
}

/// `wo repos workspace remove p` asks to remove exactly that path.
pub proof fn law_workspace_remove_takes_its_path(path: Seq<char>, dev: Option<Seq<char>>)
    requires
        !is_dashed(path),
    ensures
        parse(seq!["repos"@, "workspace"@, "remove"@, path], dev) == Ok::<SpecRequest, Seq<char>>(
            SpecRequest::Command {
                command: SpecCommand::RemoveRepositoryWorkspace { path },
                machine: false,
                allow_tui: false,
            },
        ),
{
    reveal_strlit("repos");
    reveal_strlit("workspace");
    reveal_strlit("help");
    reveal_strlit("remove");
    reveal_strlit("add");
    reveal_strlit("list");
    let a = seq!["repos"@, "workspace"@, "remove"@, path];
    lemma_plain_repos_line(a, dev);
    assert("workspace"@.len() == 9 && "help"@.len() == 4 && "add"@.len() == 3 && "list"@.len() == 4
        && "remove"@.len() == 6);
    assert(a[1] != "help"@ && a[2] != "list"@ && a[2] != "add"@);
    assert(repos_command(a, false) == repos_workspace_command(a, false));
}

/// `wo repos workspace list` asks for the configured workspaces.
pub proof fn law_workspace_list_lists(dev: Option<Seq<char>>)
    ensures
        parse(seq!["repos"@, "workspace"@, "list"@], dev) == Ok::<SpecRequest, Seq<char>>(
            SpecRequest::Command {
                command: SpecCommand::ListRepositoryWorkspaces,
                machine: false,
                allow_tui: false,
            },
        ),
{
    reveal_strlit("repos");
    reveal_strlit("workspace");
    reveal_strlit("help");
    reveal_strlit("list");
    let a = seq!["repos"@, "workspace"@, "list"@];
    lemma_plain_repos_line(a, dev);
    assert(a[1] == "workspace"@);
    assert("workspace"@.len() == 9 && "help"@.len() == 4);
    assert(a[1] != "help"@);
    assert(repos_command(a, false) == repos_workspace_command(a, false));
    assert(a[2] == "list"@);
    assert(repos_workspace_command(a, false) == Ok::<SpecRequest, Seq<char>>(cmd_req(SpecCommand::ListRepositoryWorkspaces, false)));
}

// ---------------------------------------------------------------------------
// Executable parser.
// ---------------------------------------------------------------------------

fn arg_is(v: &Vec<String>, i: usize, lit: &str) -> (r: bool)
    requires
        i < v.len(),
    ensures
        r == (texts(v@)[i as int] == lit@),
{
    str_eq(v[i].as_str(), lit)
}

fn is_repos_command_local_terminator(parts: &Vec<String>) -> (r: bool)
    ensures
        r == is_local_terminator(texts(parts@)),
{
    parts.len() >= 2 && arg_is(parts, 0, "repos") && (arg_is(parts, 1, "add") || arg_is(
        parts,
        1,
        "link",
    ) || arg_is(parts, 1, "remove"))
}

fn is_repos_help_request(a: &Vec<String>) -> (r: bool)
    ensures
        r == is_repos_help_args(texts(a@)),
{
    (a.len() == 1 && arg_is(a, 0, "repos")) || (a.len() == 2 && arg_is(a, 0, "repos") && (arg_is(
        a,
        1,
        "--help",
    ) || arg_is(a, 1, "-h") || arg_is(a, 1, "help"))) || (a.len() == 2 && arg_is(a, 0, "help")
        && arg_is(a, 1, "repos"))
}

fn is_intent_help_request(a: &Vec<String>) -> (r: bool)
    ensures
        r == is_intent_help_args(texts(a@)),
{
    (a.len() == 1 && arg_is(a, 0, "intent")) || (a.len() == 2 && arg_is(a, 0, "intent") && (
    arg_is(a, 1, "--help") || arg_is(a, 1, "-h") || arg_is(a, 1, "help"))) || (a.len() == 2
        && arg_is(a, 0, "help") && arg_is(a, 1, "intent"))
}

fn is_version_request(a: &Vec<String>) -> (r: bool)
    ensures
        r == is_version_args(texts(a@)),
{
    a.len() == 1 && (arg_is(a, 0, "version") || arg_is(a, 0, "--version") || arg_is(a, 0, "-V"))
}

fn command_request(command: Command, machine: bool) -> (r: CliRequest)
    ensures
        r@ == cmd_req(command@, machine),
{
    CliRequest::Command { command, machine, allow_tui: false }
}

fn list_request(machine: bool, allow_tui: bool) -> (r: CliRequest)
    ensures
        r@ == list_req(machine, allow_tui),
{
    CliRequest::Command { command: Command::ListWorks, machine, allow_tui }
}

fn parse_help_command(a: &Vec<String>) -> (r: Result<Option<CliRequest>, WorkonError>)
    ensures
        is_usage_error(r),
        match r {
            Ok(None) => help_command(texts(a@)) == Ok::<Option<SpecRequest>, Seq<char>>(None),
            Ok(Some(q)) => help_command(texts(a@)) == Ok::<Option<SpecRequest>, Seq<char>>(
                Some(q@),
            ),
            Err(WorkonError::MissingArgument { message }) => help_command(texts(a@)) == Err::<
                Option<SpecRequest>,
                Seq<char>,
            >(message@),
            Err(_) => false,
        },
{
    if a.len() == 0 || !arg_is(a, 0, "help") {
        return Ok(None);
    }
    if a.len() == 1 {
        return Ok(Some(CliRequest::Help));
    }
    if a.len() == 2 && arg_is(a, 1, "repos") {
        return Ok(Some(CliRequest::ReposHelp));
    }
    if a.len() == 2 && arg_is(a, 1, "intent") {
        return Ok(Some(CliRequest::IntentHelp));
    }
    if arg_is(a, 1, "repos") || arg_is(a, 1, "intent") {
        return Err(missing(concat3("help ", a[1].as_str(), " does not accept extra arguments")));
    }
    Err(
        missing(
            concat3(
                "unknown help topic `",
                a[1].as_str(),
                "`. Use `wo help`, `wo help repos`, or `wo help intent`.",
            ),
        ),
    )
}

fn reject_reserved_top_level_extras(a: &Vec<String>, command: &str) -> (r: Result<(), WorkonError>)
    ensures
        match r {
            Ok(()) => !has_reserved_extra(texts(a@), command@),
            Err(e) => has_reserved_extra(texts(a@), command@) && e is MissingArgument
                && usage_message(e) == reserved_extra_message(command@),
        },
{
    if a.len() > 1 && arg_is(a, 0, command) {
        let mut m = concat2(command, " does not accept extra arguments. Use `wo \"");
        push_str(&mut m, command);
        push_str(&mut m, " ...\"` to create a Work goal that starts with ");
        push_str(&mut m, command);
        push_str(&mut m, ".");
        return Err(missing(m));
    }
    Ok(())
}

fn is_reserved_command_invocation(parts: &Vec<String>) -> (r: bool)
    ensures
        r == is_reserved_command(texts(parts@)),
{
    parts.len() > 0 && (arg_is(parts, 0, "archive") || arg_is(parts, 0, "help") || arg_is(
        parts,
        0,
        "install-dev-shell",
    ) || arg_is(parts, 0, "install-shell") || arg_is(parts, 0, "intent") || arg_is(
        parts,
        0,
        "list",
    ) || arg_is(parts, 0, "repos") || arg_is(parts, 0, "version"))
}

fn reject_extra_arguments(parts: &Vec<String>, expected_len: usize, message: &str) -> (r: Result<
    (),
    WorkonError,
>)
    ensures
        match r {
            Ok(()) => parts.len() <= expected_len,
            Err(e) => parts.len() > expected_len && e is MissingArgument && usage_message(e)
                == message@,
        },
{
    if parts.len() > expected_len {
        return Err(missing(owned(message)));
    }
    Ok(())
}

fn reject_unknown_leading_option(parts: &Vec<String>, command: &str) -> (r: Result<(), WorkonError>)
    ensures
        match r {
            Ok(()) => leading_option_error(texts(parts@), command@) is None,
            Err(e) => e is MissingArgument && leading_option_error(texts(parts@), command@) == Some(
                usage_message(e),
            ),
        },
{
    if parts.len() > 2 && starts_with_char(parts[2].as_str(), '-') {
        let mut m = concat3("unknown ", command, " option `");
        push_str(&mut m, parts[2].as_str());
        push_str(&mut m, "`");
        return Err(missing(m));
    }
    Ok(())
}

fn looks_like_repository_exec(value: &str) -> (r: bool)
    ensures
        r == looks_like_repository(value@),
{
    let v = chars_of(value);
    let mut count: usize = 0;
    let mut at: usize = 0;
    let mut i: usize = 0;
    while i < v.len()
        invariant
            v@ == value@,
            i <= v.len(),
            count <= i,
            count == 0 ==> forall|j: int| 0 <= j < i ==> v@[j] != '/',
            count >= 1 ==> at < i && v@[at as int] == '/',
            count == 1 ==> forall|j: int| 0 <= j < i && j != at ==> v@[j] != '/',
            count >= 2 ==> exists|j: int| 0 <= j < i && j != at && v@[j] == '/',
        decreases v.len() - i,
    {
        if v[i] == '/' {
            if count == 0 {
                at = i;
            } else {
                assert(v@[i as int] == '/');
            }
            count = count + 1;
        }
        i = i + 1;
    }
    let r = count == 1 && at > 0 && at + 1 < v.len();
    proof {
        if r {
            assert(0 < at < v@.len() - 1 && v@[at as int] == '/');
        } else if looks_like_repository(value@) {
            let k = choose|k: int|
                0 < k < v@.len() - 1 && v@[k] == '/' && (forall|j: int|
                    0 <= j < v@.len() && j != k ==> v@[j] != '/');
            if count == 0 {
                assert(v@[k] == '/');
            } else if count == 1 {
                if k != at {
                    assert(v@[k] == '/');
                }
            } else {
                let j = choose|j: int| 0 <= j < v@.len() && j != at && v@[j] == '/';
                if j != k {
                } else {
                    assert(v@[at as int] == '/');
                }
            }
        }
    }
    r
}

fn looks_like_path_exec(value: &str) -> (r: bool)
    ensures
        r == looks_like_path(value@),
{
    starts_with(value, "/") || starts_with(value, "./") || starts_with(value, "../")
        || starts_with(value, "~/") || crate::text::has_char(value, '\\')
}

fn first_repository_exec(pos: &Vec<String>) -> (r: usize)
    ensures
        r == first_repository(texts(pos@), 0),
{
    let mut i: usize = 0;
    while i < pos.len() && !looks_like_repository_exec(pos[i].as_str())
        invariant
            i <= pos.len(),
            first_repository(texts(pos@), 0) == first_repository(texts(pos@), i as int),
        decreases pos.len() - i,
    {
        i = i + 1;
    }
    i
}

fn first_path_exec(pos: &Vec<String>) -> (r: usize)
    ensures
        r == first_path(texts(pos@), 0),
{
    let mut i: usize = 0;
    while i < pos.len() && !looks_like_path_exec(pos[i].as_str())
        invariant
            i <= pos.len(),
            first_path(texts(pos@), 0) == first_path(texts(pos@), i as int),
        decreases pos.len() - i,
    {
        i = i + 1;
    }
    i
}

fn split_query_exec(pos: &Vec<String>, start: usize, command: &str, what: &str) -> (r: Result<
    (String, Vec<String>),
    WorkonError,
>)
    requires
        start <= pos.len(),
    ensures
        match r {
            Ok((q, rest)) => split_query(texts(pos@), start as int, command@, what@) == Ok::<
                (Seq<char>, Seq<Seq<char>>),
                Seq<char>,
            >((q@, texts(rest@))),
            Err(e) => e is MissingArgument && split_query(
                texts(pos@),
                start as int,
                command@,
                what@,
            ) == Err::<(Seq<char>, Seq<Seq<char>>), Seq<char>>(usage_message(e)),
        },
{
    if pos.len() == 0 || (start == 0 && pos.len() > 0 && start < pos.len()) {
        return Err(missing(concat3(command, " requires a work query and at least one ", what)));
    }
    if start >= pos.len() {
        if pos.len() == 1 {
            return Err(missing(concat3(command, " requires at least one ", what)));
        }
        let query = clone_string(&pos[0]);
        let rest = sub_strings(pos, 1, pos.len());
        return Ok((query, rest));
    }
    let head = sub_strings(pos, 0, start);
    let query = join_strings(head.as_slice(), " ");
    let rest = sub_strings(pos, start, pos.len());
    Ok((query, rest))
}

fn parse_work_query_and_repositories(pos: &Vec<String>, command: &str) -> (r: Result<
    (String, Vec<String>),
    WorkonError,
>)
    ensures
        match r {
            Ok((q, rest)) => query_and_repositories(texts(pos@), command@) == Ok::<
                (Seq<char>, Seq<Seq<char>>),
                Seq<char>,
            >((q@, texts(rest@))),
            Err(e) => e is MissingArgument && query_and_repositories(texts(pos@), command@)
                == Err::<(Seq<char>, Seq<Seq<char>>), Seq<char>>(usage_message(e)),
        },
{
    let start = first_repository_exec(pos);
    proof {
        lemma_first_repository_bound(texts(pos@), 0);
    }
    split_query_exec(pos, start, command, "repository")
}

fn parse_work_query_and_paths(pos: &Vec<String>, command: &str) -> (r: Result<
    (String, Vec<String>),
    WorkonError,
>)
    ensures
        match r {
            Ok((q, rest)) => query_and_paths(texts(pos@), command@) == Ok::<
                (Seq<char>, Seq<Seq<char>>),
                Seq<char>,
            >((q@, texts(rest@))),
            Err(e) => e is MissingArgument && query_and_paths(texts(pos@), command@) == Err::<
                (Seq<char>, Seq<Seq<char>>),
                Seq<char>,
            >(usage_message(e)),
        },
{
    let start = first_path_exec(pos);
    proof {
        lemma_first_path_bound(texts(pos@), 0);
    }
    split_query_exec(pos, start, command, "path")
}

proof fn lemma_first_repository_bound(p: Seq<Seq<char>>, i: int)
    requires
        0 <= i <= p.len(),
    ensures
        i <= first_repository(p, i) <= p.len(),
    decreases p.len() - i,
{
    if i < p.len() && !looks_like_repository(p[i]) {
        lemma_first_repository_bound(p, i + 1);
    }
}

proof fn lemma_first_path_bound(p: Seq<Seq<char>>, i: int)
    requires
        0 <= i <= p.len(),
    ensures
        i <= first_path(p, i) <= p.len(),
    decreases p.len() - i,
{
    if i < p.len() && !looks_like_path(p[i]) {
        lemma_first_path_bound(p, i + 1);
    }
}

fn parse_workspace_option(parts: &Vec<String>) -> (r: Result<
    (Option<String>, Vec<String>),
    WorkonError,
>)
    ensures
        match r {
            Ok((w, pos)) => workspace_option(texts(parts@), 0, None, Seq::empty()) == Ok::<
                (Option<Seq<char>>, Seq<Seq<char>>),
                Seq<char>,
            >((opt_text(w), texts(pos@))),
            Err(e) => e is MissingArgument && workspace_option(
                texts(parts@),
                0,
                None,
                Seq::empty(),
            ) == Err::<(Option<Seq<char>>, Seq<Seq<char>>), Seq<char>>(usage_message(e)),
        },
{
    let ghost a = texts(parts@);
    let mut workspace: Option<String> = None;
    let mut positional: Vec<String> = Vec::new();
    let mut index: usize = 0;
    assert(texts(positional@) =~= Seq::<Seq<char>>::empty());
    while index < parts.len()
        invariant
            a == texts(parts@),
            index <= parts.len(),
            workspace_option(a, 0, None, Seq::empty()) == workspace_option(
                a,
                index as int,
                opt_text(workspace),
                texts(positional@),
            ),
        decreases parts.len() - index,
    {
        if arg_is(parts, index, "--workspace") {
            if index + 1 >= parts.len() {
                return Err(missing(owned("--workspace requires a path")));
            }
            workspace = Some(clone_string(&parts[index + 1]));
            index = index + 2;
        } else if starts_with_char(parts[index].as_str(), '-') {
            let mut m = concat2("unknown repos add option `", parts[index].as_str());
            push_str(&mut m, "`. Use `--workspace <path>` before the work query.");
            return Err(missing(m));
        } else {
            let s = clone_string(&parts[index]);
            proof {
                lemma_texts_push(positional@, s);
            }
            positional.push(s);
            index = index + 1;
        }
    }
    Ok((workspace, positional))
}

fn parse_repos_workspace_command(parts: &Vec<String>, machine: bool) -> (r: Result<
    CliRequest,
    WorkonError,
>)
    requires
        parts.len() >= 2,
    ensures
        is_usage_error(r),
        outcome(r) == repos_workspace_command(texts(parts@), machine),
{
    if parts.len() <= 2 {
        return Ok(command_request(Command::ListRepositoryWorkspaces, machine));
    }
    if arg_is(parts, 2, "list") {
        if parts.len() > 3 {
            return Err(missing(owned("repos workspace list does not accept extra arguments")));
        }
        return Ok(command_request(Command::ListRepositoryWorkspaces, machine));
    }
    if arg_is(parts, 2, "add") {
        if parts.len() <= 3 {
            return Err(missing(owned("repos workspace add requires at least one path")));
        }
        let paths = sub_strings(parts, 3, parts.len());
        return Ok(command_request(Command::AddRepositoryWorkspaces { paths }, machine));
    }
    if arg_is(parts, 2, "remove") {
        if parts.len() <= 3 {
            return Err(missing(owned("repos workspace remove requires a path")));
        }
        if parts.len() > 4 {
            return Err(missing(owned("repos workspace remove accepts exactly one path")));
        }
        let path = clone_string(&parts[3]);
        return Ok(command_request(Command::RemoveRepositoryWorkspace { path }, machine));
    }
    Err(missing(owned("repos workspace requires list, add, or remove")))
}

fn rest_query_exec(parts: &Vec<String>) -> (q: String)
    requires
        parts.len() >= 2,
    ensures
        q@ == rest_query(texts(parts@)),
{
    let rest = sub_strings(parts, 2, parts.len());
    join_strings(rest.as_slice(), " ")
}

fn parse_query_command(parts: &Vec<String>, name: &str, c: Command, machine: bool) -> (r: Result<
    CliRequest,
    WorkonError,
>)
    requires
        parts.len() >= 2,
    ensures
        is_usage_error(r),
        outcome(r) == query_command(texts(parts@), name@, c@, machine),
{
    reject_unknown_leading_option(parts, name)?;
    let query = rest_query_exec(parts);
    if is_blank(query.as_str()) {
        return Err(missing(concat2(name, " requires a work query")));
    }
    Ok(command_request(c, machine))
}

fn first_unknown_option_exec(parts: &Vec<String>, allowed: &str) -> (r: usize)
    ensures
        r == first_unknown_option(texts(parts@), allowed@, 0),
        r <= parts.len(),
{
    let mut i: usize = 0;
    while i < parts.len() && !(starts_with_char(parts[i].as_str(), '-') && !str_eq(
        parts[i].as_str(),
        allowed,
    ))
        invariant
            i <= parts.len(),
            first_unknown_option(texts(parts@), allowed@, 0) == first_unknown_option(
                texts(parts@),
                allowed@,
                i as int,
            ),
        decreases parts.len() - i,
    {
        i = i + 1;
    }
    i
}

fn parse_repos_command(parts: &Vec<String>, machine: bool) -> (r: Result<CliRequest, WorkonError>)
    ensures
        is_usage_error(r),
        outcome(r) == repos_command(texts(parts@), machine),
{
    if parts.len() <= 1 {
        return Err(
            missing(
                owned(
                    "repos requires list, add, link, discover, candidate-paths, workspace, or remove",
                ),
            ),
        );
    }
    if arg_is(parts, 1, "help") {
        reject_extra_arguments(parts, 2, "repos help does not accept extra arguments")?;
        return Ok(CliRequest::ReposHelp);
    }
    if arg_is(parts, 1, "workspace") || arg_is(parts, 1, "workspaces") {
        return parse_repos_workspace_command(parts, machine);
    }
    if arg_is(parts, 1, "discover") {
        let query = rest_query_exec(parts);
        return parse_query_command(
            parts,
            "repos discover",
            Command::ListRepositoryCandidates { query },
            machine,
        );
    }
    if arg_is(parts, 1, "candidate-paths") {
        let query = rest_query_exec(parts);
        return parse_query_command(
            parts,
            "repos candidate-paths",
            Command::ListRepositoryCandidatePaths { query },
            machine,
        );
    }
    if arg_is(parts, 1, "link") {
        reject_unknown_leading_option(parts, "repos link")?;
        let rest = sub_strings(parts, 2, parts.len());
        let (query, paths) = parse_work_query_and_paths(&rest, "repos link")?;
        return Ok(command_request(Command::LinkWorkRepositories { query, paths }, machine));
    }
    if arg_is(parts, 1, "list") {
        let query = rest_query_exec(parts);
        return parse_query_command(
            parts,
            "repos list",
            Command::ListWorkRepositories { query },
            machine,
        );
    }
    if arg_is(parts, 1, "add") {
        let rest = sub_strings(parts, 2, parts.len());
        let (workspace, positional) = parse_workspace_option(&rest)?;
        let (query, repositories) = parse_work_query_and_repositories(&positional, "repos add")?;
        return Ok(
            command_request(
                Command::AddWorkRepositories { query, repositories, workspace },
                machine,
            ),
        );
    }
    if arg_is(parts, 1, "remove") {
        let rest = sub_strings(parts, 2, parts.len());
        let bad = first_unknown_option_exec(&rest, "--force");
        if bad < rest.len() {
            let mut m = concat2("unknown repos remove option `", rest[bad].as_str());
            push_str(&mut m, "`");
            return Err(missing(m));
        }
        let force = strings_contain(&rest, "--force");
        let kept = strings_without(&rest, "--force");
        let (query, repositories) = parse_work_query_and_repositories(&kept, "repos remove")?;
        return Ok(
            command_request(
                Command::RemoveWorkRepositories { query, repositories, force },
                machine,
            ),
        );
    }
    Err(
        missing(
            owned(
                "repos requires list, add, link, discover, candidate-paths, workspace, or remove",
            ),
        ),
    )
}

fn parse_intent_command(parts: &Vec<String>, machine: bool) -> (r: Result<CliRequest, WorkonError>)
    ensures
        is_usage_error(r),
        outcome(r) == intent_command(texts(parts@), machine),
{
    if parts.len() <= 1 {
        return Err(missing(owned("intent requires list, show, or switch")));
    }
    if arg_is(parts, 1, "help") {
        reject_extra_arguments(parts, 2, "intent help does not accept extra arguments")?;
        return Ok(CliRequest::IntentHelp);
    }
    if arg_is(parts, 1, "list") {
        reject_extra_arguments(parts, 2, "intent list does not accept extra arguments")?;
        return Ok(command_request(Command::ListIntents, machine));
    }
    if arg_is(parts, 1, "show") {
        if parts.len() <= 2 {
            return Err(missing(owned("intent show requires an intent id")));
        }
        reject_extra_arguments(parts, 3, "intent show accepts exactly one intent id")?;
        let intent_id = clone_string(&parts[2]);
        return Ok(command_request(Command::ShowIntent { intent_id }, machine));
    }
    if arg_is(parts, 1, "switch") {
        if parts.len() < 4 {
            return Err(missing(owned("intent switch requires a work query and intent id")));
        }
        let intent_id = clone_string(&parts[parts.len() - 1]);
        let middle = sub_strings(parts, 2, parts.len() - 1);
        let query = join_strings(middle.as_slice(), " ");
        return Ok(command_request(Command::SwitchWorkIntent { query, intent_id }, machine));
    }
    Err(missing(owned("intent requires list, show, or switch")))
}

/// Parses a command line (without the program name). `dev_manifest` is the
/// development manifest path from `WORKON_DEV_MANIFEST`, when that is set.
pub fn parse_args(args: Vec<String>, dev_manifest: Option<String>) -> (r: Result<
    CliRequest,
    WorkonError,
>)
    ensures
        is_usage_error(r),
        outcome(r) == parse(texts(args@), opt_text(dev_manifest)),
{
    let ghost a = texts(args@);
    let ghost dev = opt_text(dev_manifest);
    if args.len() == 0 {
        return Ok(list_request(false, true));
    }
    if is_repos_help_request(&args) {
        return Ok(CliRequest::ReposHelp);
    }
    if is_intent_help_request(&args) {
        return Ok(CliRequest::IntentHelp);
    }
    let before = strings_before(&args, "--");
    let zone = strings_without(&before, "--machine");
    if strings_contain(&zone, "--help") || strings_contain(&zone, "-h") {
        if zone.len() > 0 && arg_is(&zone, 0, "repos") {
            return Ok(CliRequest::ReposHelp);
        }
        if zone.len() > 0 && arg_is(&zone, 0, "intent") {
            return Ok(CliRequest::IntentHelp);
        }
        return Ok(CliRequest::Help);
    }
    let lone_option_terminator = args.len() == 1 && arg_is(&args, 0, "--");
    let command_args = strings_without(&args, "--machine");
    if let Some(request) = parse_help_command(&command_args)? {
        return Ok(request);
    }
    if is_version_request(&command_args) {
        return Ok(CliRequest::Version);
    }
    reject_reserved_top_level_extras(&command_args, "version")?;
    reject_reserved_top_level_extras(&command_args, "install-shell")?;
    reject_reserved_top_level_extras(&command_args, "install-dev-shell")?;
    if command_args.len() == 1 && arg_is(&command_args, 0, "install-shell") {
        proof {
            assert(texts(command_args@) =~= seq![texts(command_args@)[0]]);
        }
        return Ok(command_request(Command::InstallShell, false));
    }
    if command_args.len() == 1 && arg_is(&command_args, 0, "install-dev-shell") {
        proof {
            assert(texts(command_args@) =~= seq![texts(command_args@)[0]]);
        }
        match dev_manifest {
            Some(manifest_path) => {
                return Ok(command_request(Command::InstallDevShell { manifest_path }, false));
            },
            None => {
                return Err(
                    missing(owned("WORKON_DEV_MANIFEST is required for install-dev-shell")),
                );
            },
        }
    }
    proof {
        let c = texts(command_args@);
        if c == seq!["install-shell"@] {
            assert(c.len() == 1);
            assert(c[0] == "install-shell"@);
        }
        if c == seq!["install-dev-shell"@] {
            assert(c.len() == 1);
            assert(c[0] == "install-dev-shell"@);
        }
    }
    let mut machine = false;
    let mut intent_id: Option<String> = None;
    let mut input_parts: Vec<String> = Vec::new();
    let mut index: usize = 0;
    assert(texts(input_parts@) =~= Seq::<Seq<char>>::empty());
    while index < args.len()
        invariant
            a == texts(args@),
            dev == opt_text(dev_manifest),
            index <= args.len(),
            parse(a, dev) == match scan(a, 0, scan_start()) {
                Err(m) => Err(m),
                Ok(st) => finish(st, lone_option_terminator),
            },
            scan(a, 0, scan_start()) == scan(
                a,
                index as int,
                Scan {
                    machine,
                    intent: opt_text(intent_id),
                    parts: texts(input_parts@),
                    terminated: false,
                },
            ),
        decreases args.len() - index,
    {
        if arg_is(&args, index, "--") {
            if is_repos_command_local_terminator(&input_parts) {
                index = index + 1;
            } else {
                let rest = sub_strings(&args, index + 1, args.len());
                let parts = concat_strings(&input_parts, &rest);
                return finish_parse(&parts, machine, intent_id, true, lone_option_terminator);
            }
        } else if arg_is(&args, index, "--machine") {
            machine = true;
            index = index + 1;
        } else if arg_is(&args, index, "--intent") || arg_is(&args, index, "-i") {
            if index + 1 >= args.len() {
                return Err(missing(owned("--intent requires an intent id")));
            }
            intent_id = Some(clone_string(&args[index + 1]));
            index = index + 2;
        } else if input_parts.len() == 0 && starts_with_char(args[index].as_str(), '-') {
            let m = concat3(
                "unknown option `",
                args[index].as_str(),
                "`. Use `--` before a work goal that starts with `-`.",
            );
            return Err(missing(m));
        } else {
            let s = clone_string(&args[index]);
            proof {
                lemma_texts_push(input_parts@, s);
            }
            input_parts.push(s);
            index = index + 1;
        }
    }
    finish_parse(&input_parts, machine, intent_id, false, lone_option_terminator)
}

fn concat_strings(x: &Vec<String>, y: &Vec<String>) -> (r: Vec<String>)
    ensures
        texts(r@) == texts(x@) + texts(y@),
{
    let mut r = sub_strings(x, 0, x.len());
    assert(texts(x@).subrange(0, x@.len() as int) =~= texts(x@));
    let mut k: usize = 0;
    while k < y.len()
        invariant
            k <= y.len(),
            texts(r@) == texts(x@) + texts(y@).take(k as int),
        decreases y.len() - k,
    {
        let s = clone_string(&y[k]);
        proof {
            lemma_texts_push(r@, s);
            assert(texts(y@).take(k + 1) =~= texts(y@).take(k as int).push(y@[k as int]@));
        }
        r.push(s);
        k = k + 1;
    }
    assert(texts(y@).take(y@.len() as int) =~= texts(y@));
    r
}

fn finish_parse(
    parts: &Vec<String>,
    machine: bool,
    intent_id: Option<String>,
    terminated: bool,
    lone: bool,
) -> (r: Result<CliRequest, WorkonError>)
    ensures
        is_usage_error(r),
        outcome(r) == finish(
            Scan { machine, intent: opt_text(intent_id), parts: texts(parts@), terminated },
            lone,
        ),
{
    let ghost p = texts(parts@);
    let input = join_strings(parts.as_slice(), " ");
    if is_blank(input.as_str()) {
        match intent_id {
            None => {
                return Ok(list_request(machine, lone && !machine));
            },
            Some(id) => {
                let m = concat3(
                    "--intent requires a work goal. Use `wo --intent ",
                    id.as_str(),
                    " \"<goal>\"`.",
                );
                return Err(missing(m));
            },
        }
    }
    if terminated {
        return Ok(command_request(Command::OpenOrCreate { input, intent_id }, machine));
    }
    if intent_id.is_some() && is_reserved_command_invocation(parts) {
        return Err(
            missing(
                owned(
                    "--intent can only be used when creating or opening Work. Use `--` before a Work goal that starts with a command name.",
                ),
            ),
        );
    }
    proof {
        if p.len() == 0 {
            assert(join(p, " "@) == Seq::<char>::empty());
            crate::text::lemma_trim_empty();
        }
        if p.len() == 1 {
            assert(p =~= seq![p[0]]);
        }
        if p == seq!["repos"@] || p == seq!["intent"@] {
            assert(p.len() == 1);
        }
    }
    if parts.len() == 1 && arg_is(parts, 0, "repos") {
        return Ok(CliRequest::ReposHelp);
    }
    if parts.len() == 1 && arg_is(parts, 0, "intent") {
        return Ok(CliRequest::IntentHelp);
    }
    if arg_is(parts, 0, "repos") {
        return parse_repos_command(parts, machine);
    }
    if arg_is(parts, 0, "intent") {
        return parse_intent_command(parts, machine);
    }
    if arg_is(parts, 0, "list") && parts.len() > 1 {
        return Err(
            missing(
                owned(
                    "list does not accept extra arguments. Use `wo \"list ...\"` to create a Work goal that starts with list.",
                ),
            ),
        );
    }
    if str_eq(input.as_str(), "list") {
        return Ok(list_request(machine, false));
    }
    if starts_with(input.as_str(), "archive ") {
        proof {
            reveal_strlit("archive ");
        }
        let v = chars_of(input.as_str());
        let tail = string_from_range(&v, 8, v.len());
        let query = trim_exec(tail.as_str());
        if query.as_str().is_empty() {
            return Err(missing(owned("archive requires a work query")));
        }
        return Ok(command_request(Command::ArchiveWork { query }, machine));
    }
    if str_eq(input.as_str(), "archive") {
        return Err(missing(owned("archive requires a work query")));
    }
    Ok(command_request(Command::OpenOrCreate { input, intent_id }, machine))
}

} // verus!

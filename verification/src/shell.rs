use vstd::prelude::*;

use crate::error::{missing, WorkonError};
use crate::text::{chars_of, concat2, concat3, contains, contains_text, occurs_at, owned, push_char, push_str};

verus! {

// The fixed parts of the generated shell functions.
pub const POSIX_PART_0: &'static str = "# Workon shell integration.\n";

pub const POSIX_PART_1: &'static str = "\n_workon_current_root() {\n  if [ -n \"${WORKON_ROOT:-}\" ]; then\n    printf '%s\\n' \"$WORKON_ROOT\"\n  else\n    printf '%s\\n' \"$HOME\"\n  fi\n}\n\n_workon_run() {\n  local workon_output workon_status workon_cd workon_root workon_title workon_next_root workon_signal_file\n  workon_root=\"$(_workon_current_root)\"\n\n  if [ \"$#\" -eq 0 ]; then\n    workon_signal_file=\"$(mktemp \"${TMPDIR:-/tmp}/workon-signals.XXXXXX\")\" || return\n    WORKON_HOOK_ACTIVE=1 WORKON_ROOT=\"$workon_root\" WORKON_SIGNAL_FILE=\"$workon_signal_file\" ";

pub const POSIX_PART_2: &'static str = " \"$@\"\n    workon_status=$?\n    workon_output=\"$(cat \"$workon_signal_file\" 2>/dev/null)\"\n    rm -f \"$workon_signal_file\"\n  else\n    workon_output=\"$(WORKON_HOOK_ACTIVE=1 WORKON_ROOT=\"$workon_root\" ";

pub const POSIX_PART_3: &'static str = " --machine \"$@\" 2>&1)\"\n    workon_status=$?\n    printf '%s\\n' \"$workon_output\" | sed '/^__WORKON_/d'\n  fi\n\n  workon_cd=\"$(printf '%s\\n' \"$workon_output\" | sed -n 's/^__WORKON_CD=//p' | tail -n 1)\"\n  workon_next_root=\"$(printf '%s\\n' \"$workon_output\" | sed -n 's/^__WORKON_ROOT=//p' | tail -n 1)\"\n  workon_title=\"$(printf '%s\\n' \"$workon_output\" | sed -n 's/^__WORKON_TITLE=//p' | tail -n 1)\"\n\n  if [ \"$workon_status\" -eq 0 ] && [ -n \"$workon_cd\" ]; then\n    cd \"$workon_cd\" || return\n    export WORKON_ROOT=\"${workon_next_root:-$workon_root}\"\n    export WORKON_WORK=\"$workon_cd\"\n    export WORKON_TITLE=\"$workon_title\"\n  fi\n\n  return \"$workon_status\"\n}\n\nwo() {\n  _workon_run \"$@\"\n}\n";

pub const FISH_PART_0: &'static str = "# Workon shell integration.\n";

pub const FISH_PART_1: &'static str = "\nfunction _workon_current_root\n  if test -n \"$WORKON_ROOT\"\n    printf '%s\\n' \"$WORKON_ROOT\"\n  else\n    printf '%s\\n' \"$HOME\"\n  end\nend\n\nfunction _workon_run\n  set -l workon_root (_workon_current_root)\n  set -l workon_output\n  set -l workon_status\n\n  if test (count $argv) -eq 0\n    set -l workon_tmpdir /tmp\n    if test -n \"$TMPDIR\"\n      set workon_tmpdir \"$TMPDIR\"\n    end\n    set -l workon_signal_file (mktemp \"$workon_tmpdir/workon-signals.XXXXXX\")\n    or return\n    env WORKON_HOOK_ACTIVE=1 WORKON_ROOT=\"$workon_root\" WORKON_SIGNAL_FILE=\"$workon_signal_file\" ";

pub const FISH_PART_2: &'static str = " $argv\n    set workon_status $status\n    set workon_output (cat \"$workon_signal_file\" 2>/dev/null)\n    rm -f \"$workon_signal_file\"\n  else\n    set workon_output (env WORKON_HOOK_ACTIVE=1 WORKON_ROOT=\"$workon_root\" ";

pub const FISH_PART_3: &'static str = " --machine $argv 2>&1)\n    set workon_status $status\n    printf '%s\\n' $workon_output | sed '/^__WORKON_/d'\n  end\n\n  set -l workon_cd (printf '%s\\n' $workon_output | sed -n 's/^__WORKON_CD=//p' | tail -n 1)\n  set -l workon_next_root (printf '%s\\n' $workon_output | sed -n 's/^__WORKON_ROOT=//p' | tail -n 1)\n  set -l workon_title (printf '%s\\n' $workon_output | sed -n 's/^__WORKON_TITLE=//p' | tail -n 1)\n\n  if test \"$workon_status\" -eq 0; and test -n \"$workon_cd\"\n    cd \"$workon_cd\"\n    or return\n    if test -n \"$workon_next_root\"\n      set -gx WORKON_ROOT \"$workon_next_root\"\n    else\n      set -gx WORKON_ROOT \"$workon_root\"\n    end\n    set -gx WORKON_WORK \"$workon_cd\"\n    set -gx WORKON_TITLE \"$workon_title\"\n  end\n\n  return \"$workon_status\"\nend\n\nfunction wo\n  _workon_run $argv\nend\n";

pub const POSIX_JUST: &'static str = "\njust() {\n  if [ \"${1:-}\" = \"wo\" ] && [ -n \"${WORKON_DEV_ROOT:-}\" ] && { [ \"$PWD\" = \"$WORKON_DEV_ROOT\" ] || [[ \"$PWD\" == \"$WORKON_DEV_ROOT\"/* ]]; }; then\n    shift\n    wo \"$@\"\n    return $?\n  fi\n\n  command just \"$@\"\n}\n";

pub const FISH_JUST: &'static str = "\nfunction just\n  if test (count $argv) -ge 1; and test \"$argv[1]\" = \"wo\"; and test -n \"$WORKON_DEV_ROOT\"; and begin; test \"$PWD\" = \"$WORKON_DEV_ROOT\"; or string match -q \"$WORKON_DEV_ROOT/*\" \"$PWD\"; end\n    set -e argv[1]\n    wo $argv\n    return $status\n  end\n\n  command just $argv\nend\n";

/// The shell syntax of a startup file.
#[derive(Debug, Clone, Copy, PartialEq, Eq)]
pub enum ShellSyntax {
    Posix,
    Fish,
}

/// Where shell integration is installed and in which syntax.
#[derive(Debug, Clone, PartialEq, Eq)]
pub struct ShellTarget {
    pub startup_path: String,
    pub syntax: ShellSyntax,
}

/// A single-quote inside single quotes: close, escaped quote, reopen.
pub open spec fn quote_char(c: char) -> Seq<char> {
    if c == '\'' {
        seq!['\'', '\\', '\'', '\'']
    } else {
        seq![c]
    }
}

/// The body of a single-quoted shell word.
pub open spec fn quote_body(s: Seq<char>) -> Seq<char>
    decreases s.len(),
{
    if s.len() == 0 {
        Seq::empty()
    } else {
        quote_char(s[0]) + quote_body(s.drop_first())
    }
}

/// A value as one single-quoted shell word.
pub open spec fn quoted(s: Seq<char>) -> Seq<char> {
    "'"@ + quote_body(s) + "'"@
}

/// Quotes a value as one shell word.
pub fn shell_quote(value: &str) -> (r: String)
    ensures
        r@ == quoted(value@),
{
    let v = chars_of(value);
    let mut out = owned("'");
    let ghost head = out@;
    let mut i: usize = 0;
    assert(v@.subrange(0, v@.len() as int) =~= v@);
    assert(out@ + quote_body(v@) =~= head + quote_body(v@));
    while i < v.len()
        invariant
            i <= v.len(),
            out@ + quote_body(v@.subrange(i as int, v@.len() as int)) == head + quote_body(v@),
        decreases v.len() - i,
    {
        proof {
            let rest = v@.subrange(i as int, v@.len() as int);
            assert(rest.drop_first() =~= v@.subrange(i + 1, v@.len() as int));
            assert(rest[0] == v@[i as int]);
        }
        if v[i] == '\'' {
            push_char(&mut out, '\'');
            push_char(&mut out, '\\');
            push_char(&mut out, '\'');
            push_char(&mut out, '\'');
        } else {
            push_char(&mut out, v[i]);
        }
        i = i + 1;
        assert(out@ + quote_body(v@.subrange(i as int, v@.len() as int)) =~= head + quote_body(
            v@,
        ));
    }
    assert(v@.subrange(i as int, v@.len() as int) =~= Seq::<char>::empty());
    push_str(&mut out, "'");
    out
}

/// The startup-file line that loads the script.
pub open spec fn source_line_text(script: Seq<char>, syntax: ShellSyntax) -> Seq<char> {
    match syntax {
        ShellSyntax::Posix => "[ -f "@ + quoted(script) + " ] && source "@ + quoted(script),
        ShellSyntax::Fish => "test -f "@ + quoted(script) + "; and source "@ + quoted(script),
    }
}

/// The startup-file line that loads the script at `script_path`.
pub fn source_line(script_path: &str, syntax: ShellSyntax) -> (r: String)
    ensures
        r@ == source_line_text(script_path@, syntax),
{
    let script = shell_quote(script_path);
    let mut r = match syntax {
        ShellSyntax::Posix => concat2("[ -f ", script.as_str()),
        ShellSyntax::Fish => concat2("test -f ", script.as_str()),
    };
    match syntax {
        ShellSyntax::Posix => push_str(&mut r, " ] && source "),
        ShellSyntax::Fish => push_str(&mut r, "; and source "),
    }
    push_str(&mut r, script.as_str());
    r
}

/// How the development hook runs Workon.
pub open spec fn dev_runner_text(manifest_path: Seq<char>) -> Seq<char> {
    "cargo run --manifest-path "@ + quoted(manifest_path) + " --"@
}

/// How the development hook runs Workon from the manifest at `manifest_path`.
pub fn dev_runner(manifest_path: &str) -> (r: String)
    ensures
        r@ == dev_runner_text(manifest_path@),
{
    let q = shell_quote(manifest_path);
    concat3("cargo run --manifest-path ", q.as_str(), " --")
}

/// The shell integration script in POSIX syntax.
pub open spec fn posix_script(runner: Seq<char>, dev_root: Option<Seq<char>>) -> Seq<char> {
    let export = match dev_root {
        Some(root) => "export WORKON_DEV_ROOT="@ + quoted(root) + "\n"@,
        None => Seq::empty(),
    };
    let just = match dev_root {
        Some(_) => POSIX_JUST@,
        None => Seq::empty(),
    };
    POSIX_PART_0@ + export + POSIX_PART_1@ + runner + POSIX_PART_2@ + runner + POSIX_PART_3@ + just
}

/// The shell integration script in fish syntax.
pub open spec fn fish_script(runner: Seq<char>, dev_root: Option<Seq<char>>) -> Seq<char> {
    let export = match dev_root {
        Some(root) => "set -gx WORKON_DEV_ROOT "@ + quoted(root) + "\n"@,
        None => Seq::empty(),
    };
    let just = match dev_root {
        Some(_) => FISH_JUST@,
        None => Seq::empty(),
    };
    FISH_PART_0@ + export + FISH_PART_1@ + runner + FISH_PART_2@ + runner + FISH_PART_3@ + just
}

/// The shell integration script for a syntax.
pub open spec fn script_text(runner: Seq<char>, dev_root: Option<Seq<char>>, syntax: ShellSyntax) -> Seq<char> {
    match syntax {
        ShellSyntax::Posix => posix_script(runner, dev_root),
        ShellSyntax::Fish => fish_script(runner, dev_root),
    }
}

/// The text of an optional string slice.
pub open spec fn opt_str(o: Option<&str>) -> Option<Seq<char>> {
    match o {
        Some(s) => Some(s@),
        None => None,
    }
}

/// The POSIX (bash, zsh) shell integration: a `wo` function that runs
/// `runner` and follows its switch signals; with a development root, also a
/// `just wo` interceptor.
pub fn render_posix_shell_integration(runner: &str, dev_root: Option<&str>) -> (r: String)
    ensures
        r@ == posix_script(runner@, opt_str(dev_root)),
{
    let mut r = owned(POSIX_PART_0);
    match dev_root {
        Some(root) => {
            push_str(&mut r, "export WORKON_DEV_ROOT=");
            push_str(&mut r, shell_quote(root).as_str());
            push_str(&mut r, "\n");
        },
        None => {},
    }
    push_str(&mut r, POSIX_PART_1);
    push_str(&mut r, runner);
    push_str(&mut r, POSIX_PART_2);
    push_str(&mut r, runner);
    push_str(&mut r, POSIX_PART_3);
    if dev_root.is_some() {
        push_str(&mut r, POSIX_JUST);
    }
    assert(r@ =~= posix_script(runner@, opt_str(dev_root)));
    r
}

/// The fish shell integration: a `wo` function that runs `runner` and
/// follows its switch signals; with a development root, also a `just wo`
/// interceptor.
pub fn render_fish_shell_integration(runner: &str, dev_root: Option<&str>) -> (r: String)
    ensures
        r@ == fish_script(runner@, opt_str(dev_root)),
{
    let mut r = owned(FISH_PART_0);
    match dev_root {
        Some(root) => {
            push_str(&mut r, "set -gx WORKON_DEV_ROOT ");
            push_str(&mut r, shell_quote(root).as_str());
            push_str(&mut r, "\n");
        },
        None => {},
    }
    push_str(&mut r, FISH_PART_1);
    push_str(&mut r, runner);
    push_str(&mut r, FISH_PART_2);
    push_str(&mut r, runner);
    push_str(&mut r, FISH_PART_3);
    if dev_root.is_some() {
        push_str(&mut r, FISH_JUST);
    }
    assert(r@ =~= fish_script(runner@, opt_str(dev_root)));
    r
}

/// The shell integration script in the given syntax.
pub fn render_shell_integration(runner: &str, dev_root: Option<&str>, syntax: ShellSyntax) -> (r: String)
    ensures
        r@ == script_text(runner@, opt_str(dev_root), syntax),
{
    match syntax {
        ShellSyntax::Posix => render_posix_shell_integration(runner, dev_root),
        ShellSyntax::Fish => render_fish_shell_integration(runner, dev_root),
    }
}

/// The production script: the quoted binary as runner, no development hook.
pub fn production_script(binary_path: &str, syntax: ShellSyntax) -> (r: String)
    ensures
        r@ == script_text(quoted(binary_path@), None, syntax),
{
    let runner = shell_quote(binary_path);
    render_shell_integration(runner.as_str(), None, syntax)
}

/// The development script: `cargo run` on the manifest, with the repository
/// root for the `just wo` interceptor.
pub fn development_script(manifest_path: &str, repo_root: &str, syntax: ShellSyntax) -> (r: String)
    ensures
        r@ == script_text(dev_runner_text(manifest_path@), Some(repo_root@), syntax),
{
    let runner = dev_runner(manifest_path);
    render_shell_integration(runner.as_str(), Some(repo_root), syntax)
}

/// The startup file text after adding the source line, or `None` when the
/// line is already there.
pub open spec fn startup_update(existing: Seq<char>, line: Seq<char>) -> Option<Seq<char>> {
    if contains_text(existing, line) {
        None
    } else {
        let sep = if existing.len() > 0 && existing.last() != '\n' {
            seq!['\n']
        } else {
            Seq::empty()
        };
        Some(existing + sep + "\n# Workon shell integration\n"@ + line + "\n"@)
    }
}

/// The startup file text with the source line added, or `None` when the
/// existing text already holds it.
pub fn updated_startup_text(existing: &str, line: &str) -> (r: Option<String>)
    ensures
        opt_str_owned(r) == startup_update(existing@, line@),
{
    if contains(existing, line) {
        return None;
    }
    let mut next = owned(existing);
    let v = chars_of(existing);
    if v.len() > 0 && v[v.len() - 1] != '\n' {
        push_char(&mut next, '\n');
    }
    push_str(&mut next, "\n# Workon shell integration\n");
    push_str(&mut next, line);
    push_str(&mut next, "\n");
    Some(next)
}

/// The text of an optional string.
pub open spec fn opt_str_owned(o: Option<String>) -> Option<Seq<char>> {
    match o {
        Some(s) => Some(s@),
        None => None,
    }
}

/// Adding the source line is idempotent: once added, a second update finds
/// it and changes nothing.
pub proof fn law_startup_update_idempotent(existing: Seq<char>, line: Seq<char>)
    ensures
        startup_update(existing, line) matches Some(next) ==> startup_update(next, line) is None,
{
    if let Some(next) = startup_update(existing, line) {
        reveal_strlit("\n# Workon shell integration\n");
        reveal_strlit("\n");
        let sep = if existing.len() > 0 && existing.last() != '\n' {
            seq!['\n']
        } else {
            Seq::<char>::empty()
        };
        let at: int = (existing.len() + sep.len() + "\n# Workon shell integration\n"@.len()) as int;
        assert(next.subrange(at, at + line.len()) =~= line);
        assert(crate::text::occurs_at(next, line, at));
    }
}

/// No character of the integration marker breaks a line or starts a
/// comment.
proof fn lemma_marker_chars(k: int)
    requires
        0 <= k < "Workon shell integration"@.len(),
    ensures
        "Workon shell integration"@[k] != '\n',
        "Workon shell integration"@[k] != '#',
        "Workon shell integration"@[k] != ' ' || k > 0,
{
    reveal_strlit("Workon shell integration");
}

/// Adding the source line to a startup file that holds neither the marker
/// text nor a line holding it leaves the marker in the file exactly once:
/// in the block that was added, after its line break and comment sign. An
/// absent startup file counts as empty, so there only the line matters.
pub proof fn law_marker_added_once(existing: Seq<char>, line: Seq<char>)
    requires
        !contains_text(existing, "Workon shell integration"@),
        !contains_text(line, "Workon shell integration"@),
    ensures
        startup_update(existing, line) matches Some(next) ==> {
            let sep_len: int = if existing.len() > 0 && existing.last() != '\n' {
                1
            } else {
                0
            };
            forall|i: int| #[trigger] occurs_at(next, "Workon shell integration"@, i) <==> i
                == existing.len() + sep_len + 3
        },
{
    if let Some(next) = startup_update(existing, line) {
        reveal_strlit("\n# Workon shell integration\n");
        reveal_strlit("Workon shell integration");
        reveal_strlit("\n");
        let m = "Workon shell integration"@;
        let block = "\n# Workon shell integration\n"@;
        let sep = if existing.len() > 0 && existing.last() != '\n' {
            seq!['\n']
        } else {
            Seq::<char>::empty()
        };
        let e = existing.len() as int;
        let m0 = e + sep.len() + 3;
        let p = m0 + m.len();
        let q = p + 1 + line.len();
        assert(next == existing + sep + block + line + "\n"@);
        assert(next.len() == q + 1);
        assert(block.subrange(3, 27) =~= m);
        assert(next.subrange(m0, m0 + m.len()) =~= m);
        assert(next[p] == '\n');
        assert(next[q] == '\n');
        assert forall|i: int| #[trigger] occurs_at(next, m, i) implies i == m0 by {
            let w = next.subrange(i, i + m.len());
            if i + m.len() <= e {
                assert(w =~= existing.subrange(i, i + m.len()));
                assert(occurs_at(existing, m, i));
            } else if i < e {
                assert(next[e] == '\n');
                assert(w[e - i] == next[e]);
                lemma_marker_chars(e - i);
            } else if i < m0 {
                assert(w[0] == next[i]);
                assert(next[i] == '\n' || next[i] == '#' || next[i] == ' ');
                lemma_marker_chars(0);
            } else if i > m0 {
                if i <= p {
                    assert(w[p - i] == next[p]);
                    lemma_marker_chars(p - i);
                } else if i + m.len() <= q {
                    assert(w =~= line.subrange(i - p - 1, i - p - 1 + m.len()));
                    assert(occurs_at(line, m, i - p - 1));
                } else {
                    assert(w[q - i] == next[q]);
                    lemma_marker_chars(q - i);
                }
            }
        }
        assert(occurs_at(next, m, m0));
    }
}

/// The startup file and syntax for a shell name (`bash`, `zsh` or `fish`)
/// under the home folder `home`.
pub open spec fn shell_target_for(home: Seq<char>, shell: Option<Seq<char>>) -> Result<(Seq<char>, ShellSyntax), Seq<char>> {
    match shell {
        None => Err(
            "SHELL is required to install shell integration. Supported shells: bash, zsh, fish."@,
        ),
        Some(name) => if name == "bash"@ {
            Ok((crate::storage::path_join(home, ".bashrc"@), ShellSyntax::Posix))
        } else if name == "zsh"@ {
            Ok((crate::storage::path_join(home, ".zshrc"@), ShellSyntax::Posix))
        } else if name == "fish"@ {
            Ok((crate::storage::path_join(home, ".config/fish/config.fish"@), ShellSyntax::Fish))
        } else {
            Err("unsupported shell integration target: "@ + name
                + ". Supported shells: bash, zsh, fish."@)
        },
    }
}

/// The startup file and syntax for the user's shell; `shell` is the file
/// name of `$SHELL`.
pub fn shell_target(home: &str, shell: Option<String>) -> (r: Result<ShellTarget, WorkonError>)
    ensures
        match r {
            Ok(t) => shell_target_for(home@, crate::command::opt_text(shell)) == Ok::<
                (Seq<char>, ShellSyntax),
                Seq<char>,
            >((t.startup_path@, t.syntax)),
            Err(e) => e is MissingArgument && shell_target_for(
                home@,
                crate::command::opt_text(shell),
            ) == Err::<(Seq<char>, ShellSyntax), Seq<char>>(crate::cli_args::usage_message(e)),
        },
{
    match shell {
        None => Err(
            missing(
                owned(
                    "SHELL is required to install shell integration. Supported shells: bash, zsh, fish.",
                ),
            ),
        ),
        Some(name) => {
            if crate::text::str_eq(name.as_str(), "bash") {
                Ok(
                    ShellTarget {
                        startup_path: crate::storage::join_path(home, ".bashrc"),
                        syntax: ShellSyntax::Posix,
                    },
                )
            } else if crate::text::str_eq(name.as_str(), "zsh") {
                Ok(
                    ShellTarget {
                        startup_path: crate::storage::join_path(home, ".zshrc"),
                        syntax: ShellSyntax::Posix,
                    },
                )
            } else if crate::text::str_eq(name.as_str(), "fish") {
                Ok(
                    ShellTarget {
                        startup_path: crate::storage::join_path(home, ".config/fish/config.fish"),
                        syntax: ShellSyntax::Fish,
                    },
                )
            } else {
                Err(
                    missing(
                        concat3(
                            "unsupported shell integration target: ",
                            name.as_str(),
                            ". Supported shells: bash, zsh, fish.",
                        ),
                    ),
                )
            }
        },
    }
}

/// The Workon root: `WORKON_ROOT` when set and non-empty, else `HOME` when
/// set and non-empty.
pub open spec fn root_choice(workon_root: Option<Seq<char>>, home: Option<Seq<char>>) -> Option<Seq<char>> {
    match workon_root {
        Some(r) if r.len() > 0 => Some(r),
        _ => match home {
            Some(h) if h.len() > 0 => Some(h),
            _ => None,
        },
    }
}

/// The Workon root from the values of `WORKON_ROOT` and `HOME`.
pub fn root_from_env(workon_root: Option<String>, home: Option<String>) -> (r: Option<String>)
    ensures
        opt_str_owned(r) == root_choice(
            crate::command::opt_text(workon_root),
            crate::command::opt_text(home),
        ),
{
    match workon_root {
        Some(root) => {
            if !root.as_str().is_empty() {
                return Some(root);
            }
        },
        None => {},
    }
    match home {
        Some(h) => {
            if !h.as_str().is_empty() {
                return Some(h);
            }
            None
        },
        None => None,
    }
}

} // verus!

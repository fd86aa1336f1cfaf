use vstd::prelude::*;

use vstd::utf8::encode_utf8;

use crate::domain::{
    ArchivedWork, AttachedRepository, AvailableRepository, CreatedWork, IntentList,
    IntentProfileChange, IntentSource, IntentSummary, OpenedWork, RepositoryCandidate,
    RepositoryCandidateList, RepositoryCatalog, RepositoryContextChange, RepositoryWorkspace,
    RepositoryWorkspaceList, WorkIntentSwitch, WorkList, WorkRepositoryList, WorkSummary,
};
use crate::text::{chars_of, join, join_strings, owned, push_char, push_str, texts};
use crate::paths::{opt_text_of, path_below, path_strip_prefix};

verus! {

/// What a command produced, to be shown to the user.
#[derive(Debug, Clone, PartialEq, Eq)]
pub enum CommandOutput {
    WorkArchived(ArchivedWork),
    IntentArchived(IntentProfileChange),
    IntentCreated(IntentProfileChange),
    IntentDuplicated(IntentProfileChange),
    IntentList(IntentList),
    IntentShown(IntentProfileChange),
    IntentUpdated(IntentProfileChange),
    RepositoryCatalog(RepositoryCatalog),
    RepositoryCandidates(RepositoryCandidateList),
    RepositoryWorkspaces(RepositoryWorkspaceList),
    ShellInstalled { label: String, script_path: String, zshrc_path: String },
    WorkCreated(CreatedWork),
    WorkList(WorkList),
    WorkOpened(OpenedWork),
    WorkRepositories(WorkRepositoryList),
    WorkRepositoriesAdded(RepositoryContextChange),
    WorkRepositoriesRemoved(RepositoryContextChange),
    WorkIntentSwitched(WorkIntentSwitch),
}

/// The text shown for a command's output, and the shell switch lines to
/// append to the signal file, when one is set.
#[derive(Debug, Clone, PartialEq, Eq)]
pub struct RenderedOutput {
    pub text: String,
    pub signal_file_text: Option<String>,
}

/// A line of output.
pub open spec fn line(s: Seq<char>) -> Seq<char> {
    s.push('\n')
}

/// How an intent's source is shown.
pub open spec fn source_text(source: IntentSource) -> Seq<char> {
    match source {
        IntentSource::BuiltIn => "built-in"@,
        IntentSource::Custom => "custom"@,
    }
}

/// A list of values: `none`, or the values joined by ` | `.
pub open spec fn list_text(values: Seq<String>) -> Seq<char> {
    if values.len() == 0 {
        "none"@
    } else {
        join(texts(values), " | "@)
    }
}

/// The lines describing an intent profile.
pub open spec fn profile_text(c: IntentProfileChange) -> Seq<char> {
    line("id: "@ + c.intent.id@) + line("source: "@ + source_text(c.source)) + line(
        "name: "@ + c.intent.name@,
    ) + line("summary: "@ + c.intent.summary@) + line(
        "skills: "@ + list_text(c.intent.skill_weights@),
    ) + line("mcps: "@ + list_text(c.intent.mcp_weights@)) + line(
        "instructions: "@ + list_text(c.intent.instructions@),
    )
}

/// One line of the intent catalog.
pub open spec fn intent_row(i: IntentSummary) -> Seq<char> {
    i.id@ + "  "@ + source_text(i.source) + "  "@ + i.name@ + "  "@ + i.summary@
}

/// The lines of the intent catalog.
pub open spec fn intent_rows(v: Seq<IntentSummary>) -> Seq<char>
    decreases v.len(),
{
    if v.len() == 0 {
        Seq::empty()
    } else {
        intent_rows(v.drop_last()) + line(intent_row(v.last()))
    }
}

/// The lines of the GitHub catalog.
pub open spec fn catalog_rows(v: Seq<AvailableRepository>) -> Seq<char>
    decreases v.len(),
{
    if v.len() == 0 {
        Seq::empty()
    } else {
        catalog_rows(v.drop_last()) + line(
            v.last().name_with_owner@ + "  "@ + v.last().default_branch@ + "  "@ + v.last().url@,
        )
    }
}

/// The lines of local candidates.
pub open spec fn candidate_rows(v: Seq<RepositoryCandidate>) -> Seq<char>
    decreases v.len(),
{
    if v.len() == 0 {
        Seq::empty()
    } else {
        candidate_rows(v.drop_last()) + line(
            v.last().name_with_owner@ + "  "@ + v.last().branch@ + "  "@ + v.last().path@,
        )
    }
}

/// The lines of attached repositories.
pub open spec fn attached_rows(v: Seq<AttachedRepository>) -> Seq<char>
    decreases v.len(),
{
    if v.len() == 0 {
        Seq::empty()
    } else {
        attached_rows(v.drop_last()) + line(
            v.last().name_with_owner@ + "  "@ + v.last().branch@ + "  "@ + v.last().path@,
        )
    }
}

/// The lines of workspace paths.
pub open spec fn workspace_rows(v: Seq<RepositoryWorkspace>) -> Seq<char>
    decreases v.len(),
{
    if v.len() == 0 {
        Seq::empty()
    } else {
        workspace_rows(v.drop_last()) + line(v.last().path@)
    }
}

/// A folder shown relative to the root, given the part of its path below
/// the root if there is one: that part, else the path itself.
pub open spec fn folder_shown(path: Seq<char>, below: Option<Seq<char>>) -> Seq<char> {
    match below {
        Some(rel) => rel,
        None => path,
    }
}

/// A folder shown relative to the root when it lies within it, as std's
/// `Path::strip_prefix` gives the part below the root.
pub open spec fn folder_text(path: Seq<char>, root: Seq<char>) -> Seq<char> {
    folder_shown(path, path_strip_prefix(path, root))
}

/// The width of a column value: its length in UTF-8 bytes.
pub open spec fn byte_width(s: Seq<char>) -> usize {
    encode_utf8(s).len() as usize
}

/// The widest of `init` and the widths of the values.
pub open spec fn widest(init: usize, v: Seq<Seq<char>>) -> usize
    decreases v.len(),
{
    if v.len() == 0 {
        init
    } else {
        let m = widest(init, v.drop_last());
        if byte_width(v.last()) > m {
            byte_width(v.last())
        } else {
            m
        }
    }
}

/// Spaces.
pub open spec fn spaces(n: nat) -> Seq<char> {
    Seq::new(n, |i: int| ' ')
}

/// A value padded with spaces to `w` characters.
pub open spec fn padded(s: Seq<char>, w: usize) -> Seq<char> {
    if s.len() >= w {
        s
    } else {
        s + spaces((w - s.len()) as nat)
    }
}

/// The column widths of the Work table: title, intent, slug, path.
pub open spec fn table_widths(ws: Seq<WorkSummary>, root: Seq<char>) -> (usize, usize, usize, usize) {
    (
        widest(4, ws.map_values(|w: WorkSummary| w.title@)),
        widest(6, ws.map_values(|w: WorkSummary| w.intent_id@)),
        widest(4, ws.map_values(|w: WorkSummary| w.slug@)),
        widest(4, ws.map_values(|w: WorkSummary| folder_text(w.path@, root))),
    )
}

/// One row of the Work table.
pub open spec fn table_row(
    cols: (Seq<char>, Seq<char>, Seq<char>, Seq<char>),
    last: Seq<char>,
    widths: (usize, usize, usize, usize),
) -> Seq<char> {
    "  "@ + padded(cols.0, widths.0) + "  "@ + padded(cols.1, widths.1) + "  "@ + padded(
        cols.2,
        widths.2,
    ) + "  "@ + padded(cols.3, widths.3) + "  "@ + last
}

/// The rows of the Work table.
pub open spec fn table_rows(ws: Seq<WorkSummary>, root: Seq<char>, widths: (usize, usize, usize, usize)) -> Seq<char>
    decreases ws.len(),
{
    if ws.len() == 0 {
        Seq::empty()
    } else {
        let w = ws.last();
        table_rows(ws.drop_last(), root, widths) + line(
            table_row(
                (w.title@, w.intent_id@, w.slug@, folder_text(w.path@, root)),
                w.goal@,
                widths,
            ),
        )
    }
}

/// The Work list: a table of the active Works, or a hint when there are none.
pub open spec fn work_list_text(ws: Seq<WorkSummary>, root: Seq<char>) -> Seq<char> {
    if ws.len() == 0 {
        line("No active work."@) + line("Next: wo --intent <intent-id> \"<goal>\""@) + line(
            "Try:  wo --help"@,
        )
    } else {
        let widths = table_widths(ws, root);
        line(table_row(("Work"@, "Intent"@, "Slug"@, "Path"@), "Goal"@, widths)) + table_rows(
            ws,
            root,
            widths,
        )
    }
}

/// A text without line breaks.
pub open spec fn no_break(s: Seq<char>) -> bool {
    forall|c: int| 0 <= c < s.len() ==> s[c] != '\n'
}

/// One printed line: a text without line breaks, then a line break.
pub open spec fn is_printed_line(r: Seq<char>) -> bool {
    r.len() > 0 && r.last() == '\n' && no_break(r.drop_last())
}

/// Texts printed one after another.
pub open spec fn printed(rows: Seq<Seq<char>>) -> Seq<char>
    decreases rows.len(),
{
    if rows.len() == 0 {
        Seq::empty()
    } else {
        printed(rows.drop_last()) + rows.last()
    }
}

/// Two texts without line breaks make one.
proof fn lemma_no_break_concat(a: Seq<char>, b: Seq<char>)
    requires
        no_break(a),
        no_break(b),
    ensures
        no_break(a + b),
{
    assert forall|c: int| 0 <= c < (a + b).len() implies (a + b)[c] != '\n' by {
        if c >= a.len() {
            assert((a + b)[c] == b[c - a.len()]);
        }
    }
}

/// A padded value keeps the value first and adds no line break.
proof fn lemma_padded(s: Seq<char>, w: usize)
    requires
        no_break(s),
    ensures
        no_break(padded(s, w)),
        padded(s, w).len() >= s.len(),
        padded(s, w).subrange(0, s.len() as int) == s,
{
    if s.len() < w {
        let sp = spaces((w - s.len()) as nat);
        assert(no_break(sp));
        lemma_no_break_concat(s, sp);
        assert((s + sp).subrange(0, s.len() as int) =~= s);
    } else {
        assert(s.subrange(0, s.len() as int) =~= s);
    }
}

/// A table row of values without line breaks has none, and begins with two
/// spaces and its first value.
proof fn lemma_table_row(
    cols: (Seq<char>, Seq<char>, Seq<char>, Seq<char>),
    last: Seq<char>,
    widths: (usize, usize, usize, usize),
)
    requires
        no_break(cols.0),
        no_break(cols.1),
        no_break(cols.2),
        no_break(cols.3),
        no_break(last),
    ensures
        is_printed_line(line(table_row(cols, last, widths))),
        line(table_row(cols, last, widths)).len() >= 2 + cols.0.len(),
        line(table_row(cols, last, widths)).subrange(0, 2 + cols.0.len() as int) == "  "@ + cols.0,
        line(table_row(cols, last, widths)).len() >= last.len() + 1,
        line(table_row(cols, last, widths)).subrange(
            line(table_row(cols, last, widths)).len() - 1 - last.len(),
            line(table_row(cols, last, widths)).len() - 1,
        ) == last,
{
    reveal_strlit("  ");
    let gap = "  "@;
    assert(no_break(gap));
    lemma_padded(cols.0, widths.0);
    lemma_padded(cols.1, widths.1);
    lemma_padded(cols.2, widths.2);
    lemma_padded(cols.3, widths.3);
    let p0 = padded(cols.0, widths.0);
    let p1 = padded(cols.1, widths.1);
    let p2 = padded(cols.2, widths.2);
    let p3 = padded(cols.3, widths.3);
    lemma_no_break_concat(gap, p0);
    lemma_no_break_concat(gap + p0, gap);
    lemma_no_break_concat(gap + p0 + gap, p1);
    lemma_no_break_concat(gap + p0 + gap + p1, gap);
    lemma_no_break_concat(gap + p0 + gap + p1 + gap, p2);
    lemma_no_break_concat(gap + p0 + gap + p1 + gap + p2, gap);
    lemma_no_break_concat(gap + p0 + gap + p1 + gap + p2 + gap, p3);
    lemma_no_break_concat(gap + p0 + gap + p1 + gap + p2 + gap + p3, gap);
    lemma_no_break_concat(gap + p0 + gap + p1 + gap + p2 + gap + p3 + gap, last);
    let r = table_row(cols, last, widths);
    assert(r == gap + p0 + gap + p1 + gap + p2 + gap + p3 + gap + last);
    assert(line(r).drop_last() =~= r);
    assert(line(r).subrange(line(r).len() - 1 - last.len(), line(r).len() - 1) =~= last);
    assert(line(r).subrange(0, 2 + cols.0.len() as int) =~= gap + cols.0) by {
        assert(line(r).subrange(0, 2 + cols.0.len() as int) =~= (gap + p0).subrange(0, 2 + cols.0.len() as int));
        assert((gap + p0).subrange(2, 2 + cols.0.len() as int) =~= p0.subrange(0, cols.0.len() as int));
    }
}

/// The table rows of the first Works are their lines printed in order.
proof fn lemma_table_rows_printed(
    ws: Seq<WorkSummary>,
    root: Seq<char>,
    widths: (usize, usize, usize, usize),
    rows: Seq<Seq<char>>,
    m: int,
)
    requires
        0 <= m <= ws.len(),
        rows.len() == ws.len(),
        forall|k: int| 0 <= k < ws.len() ==> #[trigger] rows[k] == line(
            table_row(
                (ws[k].title@, ws[k].intent_id@, ws[k].slug@, folder_text(ws[k].path@, root)),
                ws[k].goal@,
                widths,
            ),
        ),
    ensures
        table_rows(ws.take(m), root, widths) == printed(rows.take(m)),
    decreases m,
{
    if m > 0 {
        lemma_table_rows_printed(ws, root, widths, rows, m - 1);
        assert(ws.take(m).drop_last() =~= ws.take(m - 1));
        assert(rows.take(m).drop_last() =~= rows.take(m - 1));
        assert(ws.take(m).last() == ws[m - 1]);
        assert(rows.take(m).last() == rows[m - 1]);
    } else {
        assert(ws.take(0) =~= Seq::<WorkSummary>::empty());
        assert(rows.take(0) =~= Seq::<Seq<char>>::empty());
    }
}

/// Printing a line before others.
proof fn lemma_printed_front(h: Seq<char>, rows: Seq<Seq<char>>)
    ensures
        printed(seq![h] + rows) == h + printed(rows),
    decreases rows.len(),
{
    if rows.len() == 0 {
        assert(seq![h] + rows =~= seq![h]);
        assert(seq![h].drop_last() =~= Seq::<Seq<char>>::empty());
        assert(seq![h].last() == h);
        assert(printed(Seq::<Seq<char>>::empty()) == Seq::<char>::empty());
        assert(printed(seq![h].drop_last()) == Seq::<char>::empty());
        assert(printed(seq![h]) == Seq::<char>::empty() + h);
        assert(Seq::<char>::empty() + h =~= h);
        assert(h + Seq::<char>::empty() =~= h);
    } else {
        lemma_printed_front(h, rows.drop_last());
        assert((seq![h] + rows).drop_last() =~= seq![h] + rows.drop_last());
        assert((seq![h] + rows).last() == rows.last());
        assert(h + printed(rows.drop_last()) + rows.last() =~= h + (printed(rows.drop_last()) + rows.last()));
    }
}

/// `wo list` with active Works prints a header line and then exactly one
/// line per Work, in the order listed, each beginning with two spaces and
/// that Work's title and ending with its goal; nothing else is printed. (The values of a Work are
/// taken to hold no line break, so that lines can be counted.)
pub proof fn law_work_table_prints_a_line_per_work(ws: Seq<WorkSummary>, root: Seq<char>)
    requires
        ws.len() > 0,
        forall|k: int| 0 <= k < ws.len() ==> {
            &&& no_break((#[trigger] ws[k]).title@)
            &&& no_break(ws[k].intent_id@)
            &&& no_break(ws[k].slug@)
            &&& no_break(ws[k].goal@)
            &&& no_break(folder_text(ws[k].path@, root))
        },
    ensures
        exists|rows: Seq<Seq<char>>| {
            &&& rows.len() == ws.len() + 1
            &&& work_list_text(ws, root) == printed(rows)
            &&& forall|k: int| 0 <= k < rows.len() ==> is_printed_line(#[trigger] rows[k])
            &&& rows[0].len() >= 6 && rows[0].subrange(0, 6) == "  Work"@
            &&& forall|k: int| 0 <= k < ws.len() ==> {
                let r = #[trigger] rows[k + 1];
                &&& r.len() >= 2 + ws[k].title@.len() + ws[k].goal@.len() + 1
                &&& r.subrange(0, 2 + ws[k].title@.len() as int) == "  "@ + ws[k].title@
                &&& r.subrange(r.len() - 1 - ws[k].goal@.len(), r.len() - 1) == ws[k].goal@
            }
        },
{
    reveal_strlit("Work");
    reveal_strlit("Intent");
    reveal_strlit("Slug");
    reveal_strlit("Path");
    reveal_strlit("Goal");
    reveal_strlit("  Work");
    reveal_strlit("  ");
    let widths = table_widths(ws, root);
    let body = Seq::new(ws.len(), |k: int| line(
        table_row(
            (ws[k].title@, ws[k].intent_id@, ws[k].slug@, folder_text(ws[k].path@, root)),
            ws[k].goal@,
            widths,
        ),
    ));
    let header = line(table_row(("Work"@, "Intent"@, "Slug"@, "Path"@), "Goal"@, widths));
    assert(no_break("Work"@) && no_break("Intent"@) && no_break("Slug"@) && no_break("Path"@) && no_break("Goal"@));
    lemma_table_row(("Work"@, "Intent"@, "Slug"@, "Path"@), "Goal"@, widths);
    lemma_table_rows_printed(ws, root, widths, body, ws.len() as int);
    assert(ws.take(ws.len() as int) =~= ws);
    assert(body.take(ws.len() as int) =~= body);
    let rows = seq![header] + body;
    lemma_printed_front(header, body);
    assert forall|k: int| 0 <= k < rows.len() implies is_printed_line(#[trigger] rows[k]) by {
        if k > 0 {
            assert(rows[k] == body[k - 1]);
            let w = ws[k - 1];
            lemma_table_row((w.title@, w.intent_id@, w.slug@, folder_text(w.path@, root)), w.goal@, widths);
        }
    }
    assert forall|k: int| 0 <= k < ws.len() implies {
        let r = #[trigger] rows[k + 1];
        &&& r.len() >= 2 + ws[k].title@.len() + ws[k].goal@.len() + 1
        &&& r.subrange(0, 2 + ws[k].title@.len() as int) == "  "@ + ws[k].title@
        &&& r.subrange(r.len() - 1 - ws[k].goal@.len(), r.len() - 1) == ws[k].goal@
    } by {
        assert(rows[k + 1] == body[k]);
        let w = ws[k];
        lemma_table_row((w.title@, w.intent_id@, w.slug@, folder_text(w.path@, root)), w.goal@, widths);
    }
    assert(rows[0] == header);
    assert(header.subrange(0, 6) =~= "  Work"@);
}

/// The shell switch lines for a Work folder.
pub open spec fn switch_text(path: Seq<char>, title: Seq<char>, root: Seq<char>) -> Seq<char> {
    line("__WORKON_CD="@ + path) + line("__WORKON_ROOT="@ + root) + line("__WORKON_TITLE="@ + title)
}

/// The text shown for an output, without switch lines.
pub open spec fn output_text(o: CommandOutput, root: Seq<char>) -> Seq<char> {
    match o {
        CommandOutput::WorkArchived(w) => line("work archived: "@ + w.title@) + line(
            "slug: "@ + w.slug@,
        ) + line("from: "@ + w.path@) + line("to: "@ + w.archive_path@) + line("next: wo list"@),
        CommandOutput::IntentArchived(c) => line("intent archived: "@ + c.intent.id@) + line(
            "next: wo intent list"@,
        ),
        CommandOutput::IntentCreated(c) => line("intent created: "@ + c.intent.id@) + profile_text(
            c,
        ),
        CommandOutput::IntentDuplicated(c) => line("intent duplicated: "@ + c.intent.id@)
            + profile_text(c),
        CommandOutput::IntentList(l) => line("intents:"@) + intent_rows(l.intents@),
        CommandOutput::IntentShown(c) => profile_text(c),
        CommandOutput::IntentUpdated(c) => line("intent updated: "@ + c.intent.id@) + profile_text(
            c,
        ),
        CommandOutput::RepositoryCatalog(c) => catalog_rows(c.repositories@),
        CommandOutput::RepositoryCandidates(c) => line(
            "repository candidates for work: "@ + c.work.title@,
        ) + if c.candidates@.len() == 0 {
            line("No repository candidates found in configured workspaces."@)
        } else {
            candidate_rows(c.candidates@)
        },
        CommandOutput::RepositoryWorkspaces(l) => if l.workspaces@.len() == 0 {
            line("No repository workspaces configured."@) + line(
                "Add one with: wo repos workspace add <path>..."@,
            )
        } else {
            line("repository workspaces:"@) + workspace_rows(l.workspaces@)
        },
        CommandOutput::ShellInstalled { label, script_path, zshrc_path } => line(
            label@ + ": "@ + script_path@,
        ) + line("zshrc updated: "@ + zshrc_path@) + line("restart your shell or run:"@) + line(
            "  source "@ + script_path@,
        ),
        CommandOutput::WorkCreated(w) => line("work created: "@ + w.title@) + line(
            "intent: "@ + w.intent_id@,
        ) + line("slug: "@ + w.slug@) + line("folder created: "@ + w.path@) + line(
            "files: "@ + join(texts(w.instruction_files@), ", "@),
        ) + line("next: work from the folder"@),
        CommandOutput::WorkList(l) => work_list_text(l.works@, root),
        CommandOutput::WorkOpened(w) => line("work opened: "@ + w.title@) + line(
            "slug: "@ + w.slug@,
        ) + line("path: "@ + w.path@) + line("next: work from the folder"@),
        CommandOutput::WorkRepositories(l) => line("repositories for work: "@ + l.work.title@)
            + if l.repositories@.len() == 0 {
            line("No repositories attached."@)
        } else {
            attached_rows(l.repositories@)
        },
        CommandOutput::WorkRepositoriesAdded(c) => line("repositories added: "@ + c.work.title@)
            + if c.repositories@.len() == 0 {
            line("No repository changes. Requested repositories were already attached."@)
        } else {
            attached_rows(c.repositories@)
        },
        CommandOutput::WorkRepositoriesRemoved(c) => line("repositories removed: "@ + c.work.title@)
            + if c.repositories@.len() == 0 {
            line("No repository changes."@)
        } else {
            attached_rows(c.repositories@)
        },
        CommandOutput::WorkIntentSwitched(c) => line("work intent switched: "@ + c.work.title@)
            + line("from: "@ + c.previous_intent_id@) + line("to: "@ + c.intent.id@) + line(
            "files: "@ + join(texts(c.instruction_files@), ", "@),
        ),
    }
}

/// The shell switch lines of an output that enters a Work folder.
pub open spec fn output_switch(o: CommandOutput, root: Seq<char>) -> Option<Seq<char>> {
    match o {
        CommandOutput::WorkCreated(w) => Some(switch_text(w.path@, w.title@, root)),
        CommandOutput::WorkOpened(w) => Some(switch_text(w.path@, w.title@, root)),
        _ => None,
    }
}

/// What is shown and what goes to the signal file: switch lines go to the
/// signal file when one is set, else to the output in machine mode.
pub open spec fn rendered(o: CommandOutput, machine: bool, signal_file_set: bool, root: Seq<char>) -> (Seq<char>, Option<Seq<char>>) {
    let text = output_text(o, root);
    match output_switch(o, root) {
        Some(sw) => if signal_file_set {
            (text, Some(sw))
        } else if machine {
            (text + sw, None)
        } else {
            (text, None)
        },
        None => (text, None),
    }
}

/// Appends a line.
fn push_line(out: &mut String, s: &str)
    ensures
        final(out)@ == old(out)@ + line(s@),
{
    push_str(out, s);
    push_char(out, '\n');
    assert(final(out)@ =~= old(out)@ + line(s@));
}

/// Appends a labelled line.
fn push_labeled(out: &mut String, label: &str, value: &str)
    ensures
        final(out)@ == old(out)@ + line(label@ + value@),
{
    push_str(out, label);
    push_str(out, value);
    push_char(out, '\n');
    assert(final(out)@ =~= old(out)@ + line(label@ + value@));
}

/// How an intent's source is shown.
pub fn source_label(source: IntentSource) -> (r: &'static str)
    ensures
        r@ == source_text(source),
{
    match source {
        IntentSource::BuiltIn => "built-in",
        IntentSource::Custom => "custom",
    }
}

/// A list of values: `none`, or the values joined by ` | `.
pub fn list_label(values: &Vec<String>) -> (r: String)
    ensures
        r@ == list_text(values@),
{
    if values.len() == 0 {
        owned("none")
    } else {
        join_strings(values.as_slice(), " | ")
    }
}

fn push_profile(out: &mut String, c: &IntentProfileChange)
    ensures
        final(out)@ == old(out)@ + profile_text(*c),
{
    push_labeled(out, "id: ", c.intent.id.as_str());
    push_labeled(out, "source: ", source_label(c.source));
    push_labeled(out, "name: ", c.intent.name.as_str());
    push_labeled(out, "summary: ", c.intent.summary.as_str());
    let skills = list_label(&c.intent.skill_weights);
    push_labeled(out, "skills: ", skills.as_str());
    let mcps = list_label(&c.intent.mcp_weights);
    push_labeled(out, "mcps: ", mcps.as_str());
    let instructions = list_label(&c.intent.instructions);
    push_labeled(out, "instructions: ", instructions.as_str());
    assert(final(out)@ =~= old(out)@ + profile_text(*c));
}

fn push_three(out: &mut String, a: &str, b: &str, c: &str)
    ensures
        final(out)@ == old(out)@ + line(a@ + "  "@ + b@ + "  "@ + c@),
{
    push_str(out, a);
    push_str(out, "  ");
    push_str(out, b);
    push_str(out, "  ");
    push_str(out, c);
    push_char(out, '\n');
    assert(final(out)@ =~= old(out)@ + line(a@ + "  "@ + b@ + "  "@ + c@));
}

fn push_intent_rows(out: &mut String, v: &Vec<IntentSummary>)
    ensures
        final(out)@ == old(out)@ + intent_rows(v@),
{
    let mut i: usize = 0;
    assert(v@.take(0) =~= Seq::<IntentSummary>::empty());
    while i < v.len()
        invariant
            i <= v@.len(),
            out@ == old(out)@ + intent_rows(v@.take(i as int)),
        decreases v@.len() - i,
    {
        proof {
            assert(v@.take(i + 1).drop_last() =~= v@.take(i as int));
        }
        let x = &v[i];
        push_str(out, x.id.as_str());
        push_str(out, "  ");
        push_str(out, source_label(x.source));
        push_str(out, "  ");
        push_str(out, x.name.as_str());
        push_str(out, "  ");
        push_str(out, x.summary.as_str());
        push_char(out, '\n');
        i = i + 1;
        assert(out@ =~= old(out)@ + intent_rows(v@.take(i as int)));
    }
    assert(v@.take(v@.len() as int) =~= v@);
}

fn push_catalog_rows(out: &mut String, v: &Vec<AvailableRepository>)
    ensures
        final(out)@ == old(out)@ + catalog_rows(v@),
{
    let mut i: usize = 0;
    assert(v@.take(0) =~= Seq::<AvailableRepository>::empty());
    while i < v.len()
        invariant
            i <= v@.len(),
            out@ == old(out)@ + catalog_rows(v@.take(i as int)),
        decreases v@.len() - i,
    {
        proof {
            assert(v@.take(i + 1).drop_last() =~= v@.take(i as int));
        }
        push_three(
            out,
            v[i].name_with_owner.as_str(),
            v[i].default_branch.as_str(),
            v[i].url.as_str(),
        );
        i = i + 1;
        assert(out@ =~= old(out)@ + catalog_rows(v@.take(i as int)));
    }
    assert(v@.take(v@.len() as int) =~= v@);
}

fn push_candidate_rows(out: &mut String, v: &Vec<RepositoryCandidate>)
    ensures
        final(out)@ == old(out)@ + candidate_rows(v@),
{
    let mut i: usize = 0;
    assert(v@.take(0) =~= Seq::<RepositoryCandidate>::empty());
    while i < v.len()
        invariant
            i <= v@.len(),
            out@ == old(out)@ + candidate_rows(v@.take(i as int)),
        decreases v@.len() - i,
    {
        proof {
            assert(v@.take(i + 1).drop_last() =~= v@.take(i as int));
        }
        push_three(out, v[i].name_with_owner.as_str(), v[i].branch.as_str(), v[i].path.as_str());
        i = i + 1;
        assert(out@ =~= old(out)@ + candidate_rows(v@.take(i as int)));
    }
    assert(v@.take(v@.len() as int) =~= v@);
}

fn push_attached_rows(out: &mut String, v: &Vec<AttachedRepository>)
    ensures
        final(out)@ == old(out)@ + attached_rows(v@),
{
    let mut i: usize = 0;
    assert(v@.take(0) =~= Seq::<AttachedRepository>::empty());
    while i < v.len()
        invariant
            i <= v@.len(),
            out@ == old(out)@ + attached_rows(v@.take(i as int)),
        decreases v@.len() - i,
    {
        proof {
            assert(v@.take(i + 1).drop_last() =~= v@.take(i as int));
        }
        push_three(out, v[i].name_with_owner.as_str(), v[i].branch.as_str(), v[i].path.as_str());
        i = i + 1;
        assert(out@ =~= old(out)@ + attached_rows(v@.take(i as int)));
    }
    assert(v@.take(v@.len() as int) =~= v@);
}

fn push_workspace_rows(out: &mut String, v: &Vec<RepositoryWorkspace>)
    ensures
        final(out)@ == old(out)@ + workspace_rows(v@),
{
    let mut i: usize = 0;
    assert(v@.take(0) =~= Seq::<RepositoryWorkspace>::empty());
    while i < v.len()
        invariant
            i <= v@.len(),
            out@ == old(out)@ + workspace_rows(v@.take(i as int)),
        decreases v@.len() - i,
    {
        proof {
            assert(v@.take(i + 1).drop_last() =~= v@.take(i as int));
        }
        push_line(out, v[i].path.as_str());
        i = i + 1;
        assert(out@ =~= old(out)@ + workspace_rows(v@.take(i as int)));
    }
    assert(v@.take(v@.len() as int) =~= v@);
}

/// A folder shown relative to the root, given the part of its path below
/// the root if there is one.
pub fn folder_from(path: &str, below: Option<String>) -> (r: String)
    ensures
        r@ == folder_shown(path@, opt_text_of(below)),
{
    match below {
        Some(rel) => rel,
        None => owned(path),
    }
}

/// A folder shown relative to the root when it lies within it.
pub fn display_folder(path: &str, root: &str) -> (r: String)
    ensures
        r@ == folder_text(path@, root@),
{
    folder_from(path, path_below(path, root))
}

/// Appends a value padded with spaces to `w` characters.
pub fn pad_to(out: &mut String, s: &str, w: usize)
    ensures
        final(out)@ == old(out)@ + padded(s@, w),
{
    push_str(out, s);
    let n = chars_of(s).len();
    if n < w {
        let mut k: usize = n;
        let ghost base = out@;
        assert(out@ =~= base + spaces(0));
        while k < w
            invariant
                n <= k <= w,
                n == s@.len(),
                base == old(out)@ + s@,
                out@ == base + spaces((k - n) as nat),
            decreases w - k,
        {
            push_char(out, ' ');
            k = k + 1;
            assert(out@ =~= base + spaces((k - n) as nat));
        }
        assert(out@ =~= old(out)@ + padded(s@, w));
    } else {
        assert(out@ =~= old(out)@ + padded(s@, w));
    }
}

fn push_table_row(
    out: &mut String,
    a: &str,
    b: &str,
    c: &str,
    d: &str,
    last: &str,
    widths: (usize, usize, usize, usize),
)
    ensures
        final(out)@ == old(out)@ + line(table_row((a@, b@, c@, d@), last@, widths)),
{
    push_str(out, "  ");
    pad_to(out, a, widths.0);
    push_str(out, "  ");
    pad_to(out, b, widths.1);
    push_str(out, "  ");
    pad_to(out, c, widths.2);
    push_str(out, "  ");
    pad_to(out, d, widths.3);
    push_str(out, "  ");
    push_str(out, last);
    push_char(out, '\n');
    assert(final(out)@ =~= old(out)@ + line(table_row((a@, b@, c@, d@), last@, widths)));
}

fn push_work_list(out: &mut String, list: &WorkList, root: &str)
    ensures
        final(out)@ == old(out)@ + work_list_text(list.works@, root@),
{
    let ws = &list.works;
    if ws.len() == 0 {
        push_line(out, "No active work.");
        push_line(out, "Next: wo --intent <intent-id> \"<goal>\"");
        push_line(out, "Try:  wo --help");
        assert(out@ =~= old(out)@ + work_list_text(list.works@, root@));
        return;
    }
    let ghost titles = ws@.map_values(|w: WorkSummary| w.title@);
    let ghost intents = ws@.map_values(|w: WorkSummary| w.intent_id@);
    let ghost slugs = ws@.map_values(|w: WorkSummary| w.slug@);
    let ghost folders = ws@.map_values(|w: WorkSummary| folder_text(w.path@, root@));
    let mut paths: Vec<String> = Vec::new();
    let mut wt: usize = 4;
    let mut wi: usize = 6;
    let mut wsl: usize = 4;
    let mut wp: usize = 4;
    let mut i: usize = 0;
    while i < ws.len()
        invariant
            i <= ws@.len(),
            ws@ == list.works@,
            titles == ws@.map_values(|w: WorkSummary| w.title@),
            intents == ws@.map_values(|w: WorkSummary| w.intent_id@),
            slugs == ws@.map_values(|w: WorkSummary| w.slug@),
            folders == ws@.map_values(|w: WorkSummary| folder_text(w.path@, root@)),
            paths@.len() == i,
            forall|k: int| 0 <= k < i ==> #[trigger] paths@[k]@ == folders[k],
            wt == widest(4, titles.take(i as int)),
            wi == widest(6, intents.take(i as int)),
            wsl == widest(4, slugs.take(i as int)),
            wp == widest(4, folders.take(i as int)),
        decreases ws@.len() - i,
    {
        proof {
            assert(titles.take(i + 1).drop_last() =~= titles.take(i as int));
            assert(intents.take(i + 1).drop_last() =~= intents.take(i as int));
            assert(slugs.take(i + 1).drop_last() =~= slugs.take(i as int));
            assert(folders.take(i + 1).drop_last() =~= folders.take(i as int));
        }
        let folder = display_folder(ws[i].path.as_str(), root);
        let lt = ws[i].title.as_str().len();
        if lt > wt {
            wt = lt;
        }
        let li = ws[i].intent_id.as_str().len();
        if li > wi {
            wi = li;
        }
        let ls = ws[i].slug.as_str().len();
        if ls > wsl {
            wsl = ls;
        }
        let lp = folder.as_str().len();
        if lp > wp {
            wp = lp;
        }
        paths.push(folder);
        i = i + 1;
    }
    proof {
        assert(titles.take(ws@.len() as int) =~= titles);
        assert(intents.take(ws@.len() as int) =~= intents);
        assert(slugs.take(ws@.len() as int) =~= slugs);
        assert(folders.take(ws@.len() as int) =~= folders);
    }
    let widths = (wt, wi, wsl, wp);
    assert(widths == table_widths(list.works@, root@));
    push_table_row(out, "Work", "Intent", "Slug", "Path", "Goal", widths);
    let ghost head = out@;
    let mut i: usize = 0;
    assert(ws@.take(0) =~= Seq::<WorkSummary>::empty());
    while i < ws.len()
        invariant
            i <= ws@.len(),
            ws@ == list.works@,
            paths@.len() == ws@.len(),
            forall|k: int| 0 <= k < ws@.len() ==> #[trigger] paths@[k]@ == folder_text(
                ws@[k].path@,
                root@,
            ),
            out@ == head + table_rows(ws@.take(i as int), root@, widths),
        decreases ws@.len() - i,
    {
        proof {
            assert(ws@.take(i + 1).drop_last() =~= ws@.take(i as int));
        }
        push_table_row(
            out,
            ws[i].title.as_str(),
            ws[i].intent_id.as_str(),
            ws[i].slug.as_str(),
            paths[i].as_str(),
            ws[i].goal.as_str(),
            widths,
        );
        i = i + 1;
        assert(out@ =~= head + table_rows(ws@.take(i as int), root@, widths));
    }
    assert(ws@.take(ws@.len() as int) =~= ws@);
    assert(out@ =~= old(out)@ + work_list_text(list.works@, root@));
}

fn switch_lines(path: &str, title: &str, root: &str) -> (r: String)
    ensures
        r@ == switch_text(path@, title@, root@),
{
    let mut r = String::new();
    push_labeled(&mut r, "__WORKON_CD=", path);
    push_labeled(&mut r, "__WORKON_ROOT=", root);
    push_labeled(&mut r, "__WORKON_TITLE=", title);
    assert(r@ =~= switch_text(path@, title@, root@));
    r
}

/// Renders a command's output: the text to show, and the shell switch
/// lines for the signal file when one is set (`signal_file_set`); without
/// one, machine mode appends them to the text.
pub fn render_output(output: &CommandOutput, machine: bool, signal_file_set: bool, root: &str) -> (r: RenderedOutput)
    ensures
        (r.text@, match r.signal_file_text {
            Some(s) => Some(s@),
            None => None,
        }) == rendered(*output, machine, signal_file_set, root@),
{
    let mut out = String::new();
    let mut switch: Option<String> = None;
    match output {
        CommandOutput::WorkArchived(w) => {
            push_labeled(&mut out, "work archived: ", w.title.as_str());
            push_labeled(&mut out, "slug: ", w.slug.as_str());
            push_labeled(&mut out, "from: ", w.path.as_str());
            push_labeled(&mut out, "to: ", w.archive_path.as_str());
            push_line(&mut out, "next: wo list");
        },
        CommandOutput::IntentArchived(c) => {
            push_labeled(&mut out, "intent archived: ", c.intent.id.as_str());
            push_line(&mut out, "next: wo intent list");
        },
        CommandOutput::IntentCreated(c) => {
            push_labeled(&mut out, "intent created: ", c.intent.id.as_str());
            push_profile(&mut out, c);
        },
        CommandOutput::IntentDuplicated(c) => {
            push_labeled(&mut out, "intent duplicated: ", c.intent.id.as_str());
            push_profile(&mut out, c);
        },
        CommandOutput::IntentList(l) => {
            push_line(&mut out, "intents:");
            push_intent_rows(&mut out, &l.intents);
        },
        CommandOutput::IntentShown(c) => {
            push_profile(&mut out, c);
        },
        CommandOutput::IntentUpdated(c) => {
            push_labeled(&mut out, "intent updated: ", c.intent.id.as_str());
            push_profile(&mut out, c);
        },
        CommandOutput::RepositoryCatalog(c) => {
            push_catalog_rows(&mut out, &c.repositories);
        },
        CommandOutput::RepositoryCandidates(c) => {
            push_labeled(&mut out, "repository candidates for work: ", c.work.title.as_str());
            if c.candidates.len() == 0 {
                push_line(&mut out, "No repository candidates found in configured workspaces.");
            } else {
                push_candidate_rows(&mut out, &c.candidates);
            }
        },
        CommandOutput::RepositoryWorkspaces(l) => {
            if l.workspaces.len() == 0 {
                push_line(&mut out, "No repository workspaces configured.");
                push_line(&mut out, "Add one with: wo repos workspace add <path>...");
            } else {
                push_line(&mut out, "repository workspaces:");
                push_workspace_rows(&mut out, &l.workspaces);
            }
        },
        CommandOutput::ShellInstalled { label, script_path, zshrc_path } => {
            push_str(&mut out, label.as_str());
            push_labeled(&mut out, ": ", script_path.as_str());
            push_labeled(&mut out, "zshrc updated: ", zshrc_path.as_str());
            push_line(&mut out, "restart your shell or run:");
            push_labeled(&mut out, "  source ", script_path.as_str());
        },
        CommandOutput::WorkCreated(w) => {
            push_labeled(&mut out, "work created: ", w.title.as_str());
            push_labeled(&mut out, "intent: ", w.intent_id.as_str());
            push_labeled(&mut out, "slug: ", w.slug.as_str());
            push_labeled(&mut out, "folder created: ", w.path.as_str());
            let files = join_strings(w.instruction_files.as_slice(), ", ");
            push_labeled(&mut out, "files: ", files.as_str());
            push_line(&mut out, "next: work from the folder");
            switch = Some(switch_lines(w.path.as_str(), w.title.as_str(), root));
        },
        CommandOutput::WorkList(l) => {
            push_work_list(&mut out, l, root);
        },
        CommandOutput::WorkOpened(w) => {
            push_labeled(&mut out, "work opened: ", w.title.as_str());
            push_labeled(&mut out, "slug: ", w.slug.as_str());
            push_labeled(&mut out, "path: ", w.path.as_str());
            push_line(&mut out, "next: work from the folder");
            switch = Some(switch_lines(w.path.as_str(), w.title.as_str(), root));
        },
        CommandOutput::WorkRepositories(l) => {
            push_labeled(&mut out, "repositories for work: ", l.work.title.as_str());
            if l.repositories.len() == 0 {
                push_line(&mut out, "No repositories attached.");
            } else {
                push_attached_rows(&mut out, &l.repositories);
            }
        },
        CommandOutput::WorkRepositoriesAdded(c) => {
            push_labeled(&mut out, "repositories added: ", c.work.title.as_str());
            if c.repositories.len() == 0 {
                push_line(
                    &mut out,
                    "No repository changes. Requested repositories were already attached.",
                );
            } else {
                push_attached_rows(&mut out, &c.repositories);
            }
        },
        CommandOutput::WorkRepositoriesRemoved(c) => {
            push_labeled(&mut out, "repositories removed: ", c.work.title.as_str());
            if c.repositories.len() == 0 {
                push_line(&mut out, "No repository changes.");
            } else {
                push_attached_rows(&mut out, &c.repositories);
            }
        },
        CommandOutput::WorkIntentSwitched(c) => {
            push_labeled(&mut out, "work intent switched: ", c.work.title.as_str());
            push_labeled(&mut out, "from: ", c.previous_intent_id.as_str());
            push_labeled(&mut out, "to: ", c.intent.id.as_str());
            let files = join_strings(c.instruction_files.as_slice(), ", ");
            push_labeled(&mut out, "files: ", files.as_str());
        },
    }
    assert(out@ =~= output_text(*output, root@));
    match switch {
        Some(sw) => {
            if signal_file_set {
                RenderedOutput { text: out, signal_file_text: Some(sw) }
            } else if machine {
                push_str(&mut out, sw.as_str());
                RenderedOutput { text: out, signal_file_text: None }
            } else {
                RenderedOutput { text: out, signal_file_text: None }
            }
        },
        None => RenderedOutput { text: out, signal_file_text: None },
    }
}

} // verus!

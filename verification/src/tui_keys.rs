use vstd::prelude::*;

use crate::events::{Toast, ToastKind, TraceKind};
use crate::keys::{is_plain, is_plain_character, is_shortcut, is_shortcut_character, Key, KeyCode};
use crate::repo_picker::{loading_entered, picker_key_step, popped, RepoPickerAction};
use crate::text::{chars_of, clone_string, owned, pop_char, push_char, trim, trim_exec};
use crate::tui_state::{
    attached_for, filter_closed, filter_trace_message, filter_trace_text, intent_opened,
    traced_with, TuiAction, TuiMode, TuiState,
};
use crate::arith::wrapped;

verus! {

/// `a` back in the list or the filter.
pub open spec fn restored(a: TuiState) -> TuiState {
    TuiState { mode: a.queue_mode(), ..a }
}

/// What Enter on the queue asks for: the selected Work, if any.
pub open spec fn switch_result(a: TuiState, r: TuiAction) -> bool {
    match a.selected_slug() {
        Some(slug) => r == TuiAction::Switch(slug),
        None => r is Nothing,
    }
}

/// What confirming archival asks for: the selected Work, if any.
pub open spec fn archive_result(a: TuiState, r: TuiAction) -> bool {
    match a.selected_slug() {
        Some(slug) => r == TuiAction::Archive(slug),
        None => r is Nothing,
    }
}

/// `b` is `a` with the command leader armed.
pub open spec fn leader_entered(a: TuiState, b: TuiState) -> bool {
    &&& b == TuiState { mode: TuiMode::Leader, trace: b.trace, ..a }
    &&& traced_with(a.trace@, b.trace@, TraceKind::Run, "command leader ready"@)
}

/// `b` is `a` with `c` typed into the filter, the filter open.
pub open spec fn filter_typed(a: TuiState, b: TuiState, c: char) -> bool {
    let e = a.entered_filter();
    &&& b == TuiState { filter: b.filter, selected: 0, trace: b.trace, ..e }
    &&& b.filter@ == a.filter@.push(c)
    &&& traced_with(a.trace@, b.trace@, TraceKind::Signal, filter_trace_text(b.filter@))
}

/// `b` is `a` with `c` typed into the open filter.
pub open spec fn filter_appended(a: TuiState, b: TuiState, c: char) -> bool {
    &&& b == TuiState { filter: b.filter, selected: 0, trace: b.trace, ..a }
    &&& b.filter@ == a.filter@.push(c)
    &&& traced_with(a.trace@, b.trace@, TraceKind::Signal, filter_trace_text(b.filter@))
}

/// What a key does in the list.
pub open spec fn list_step(a: TuiState, b: TuiState, key: Key, r: TuiAction) -> bool {
    match key.code {
        KeyCode::Esc => b == a && r is Quit,
        KeyCode::Down => b == a.moved(1) && r is Nothing,
        KeyCode::Up => b == a.moved(-1) && r is Nothing,
        KeyCode::Enter => b == a && switch_result(a, r),
        KeyCode::Char(c) => if !is_plain(key) {
            b == a && r is Nothing
        } else if c == '/' {
            leader_entered(a, b) && r is Nothing
        } else {
            filter_typed(a, b, c) && r is Nothing
        },
        _ => b == a && r is Nothing,
    }
}

/// What a key does in the filter.
pub open spec fn search_step(a: TuiState, b: TuiState, key: Key, r: TuiAction) -> bool {
    match key.code {
        KeyCode::Esc => if a.filter@.len() == 0 {
            b == a && r is Quit
        } else {
            filter_closed(a, b) && r is Nothing
        },
        KeyCode::Enter => b == a && switch_result(a, r),
        KeyCode::Backspace => if a.filter@.len() > 0 {
            &&& b == TuiState { filter: b.filter, selected: 0, trace: b.trace, ..a }
            &&& b.filter@ == a.filter@.drop_last()
            &&& traced_with(a.trace@, b.trace@, TraceKind::Signal, filter_trace_text(b.filter@))
            &&& r is Nothing
        } else {
            b == a && r is Nothing
        },
        KeyCode::Down => b == a.moved(1) && r is Nothing,
        KeyCode::Up => b == a.moved(-1) && r is Nothing,
        KeyCode::Char(c) => if !is_plain(key) {
            b == a && r is Nothing
        } else if c == '/' {
            leader_entered(a, b) && r is Nothing
        } else {
            filter_appended(a, b, c) && r is Nothing
        },
        _ => b == a && r is Nothing,
    }
}

/// What a key does after the command leader.
pub open spec fn leader_step(a: TuiState, b: TuiState, key: Key, r: TuiAction) -> bool {
    match key.code {
        KeyCode::Char(c) if is_plain(key) && c == 'n' => {
            &&& b == TuiState { mode: TuiMode::Create, trace: b.trace, ..a }
            &&& traced_with(a.trace@, b.trace@, TraceKind::Run, "work init ready"@)
            &&& r is Nothing
        },
        KeyCode::Char(c) if is_plain(key) && c == 'a' => {
            &&& r is Nothing
            &&& if a.selected_index() is Some {
                &&& b == TuiState { mode: TuiMode::Archive, trace: b.trace, ..a }
                &&& traced_with(a.trace@, b.trace@, TraceKind::Warn, "archive confirmation armed"@)
            } else {
                b == restored(a)
            }
        },
        KeyCode::Char(c) if is_plain(key) && c == 'r' => match a.selected_index() {
            Some(i) => {
                &&& b == TuiState { mode: TuiMode::Repos, repo: b.repo, ..a }
                &&& loading_entered(
                    a.repo,
                    b.repo,
                    a.works@[i as int].slug,
                    a.works@[i as int].title,
                    b.repo.attached,
                )
                &&& b.repo.attached@ == attached_for(
                    a.attached_repositories@,
                    a.works@[i as int].slug@,
                )
                &&& b.wf()
                &&& r == TuiAction::OpenRepos(a.works@[i as int].slug)
            },
            None => b == a && r is Nothing,
        },
        KeyCode::Char(c) if is_plain(key) && c == 'i' => match a.selected_index() {
            Some(i) => intent_opened(
                a,
                b,
                a.works@[i as int].slug,
                a.works@[i as int].title,
                a.works@[i as int].intent_id,
            ) && r is Nothing,
            None => b == restored(a) && r is Nothing,
        },
        KeyCode::Char(c) if is_plain(key) && c == '?' => b == TuiState { mode: TuiMode::Help, ..a }
            && r is Nothing,
        KeyCode::Char(c) if is_plain(key) && c == 'q' => b == a && r is Quit,
        KeyCode::Char(c) if is_plain(key) && c == '/' => filter_typed(a, b, '/') && r is Nothing,
        _ => b == restored(a) && r is Nothing,
    }
}

/// What Enter in the new-Work form asks for.
pub open spec fn create_result(a: TuiState, b: TuiState, r: TuiAction) -> bool {
    let goal = trim(a.create_goal@);
    if goal.len() == 0 {
        &&& b == TuiState { toast: b.toast, trace: b.trace, ..a }
        &&& b.toast matches Some(t) && t.title@ == "Goal required"@ && t.message@
            == "Type a Work goal before creating."@ && t.kind == ToastKind::Error
        &&& traced_with(a.trace@, b.trace@, TraceKind::Error, "work init missing goal"@)
        &&& r is Nothing
    } else {
        &&& b == a
        &&& r matches TuiAction::Create { goal: g, intent_id } && g@ == goal && intent_id@
            == a.create_intent_text()
    }
}

/// What a key does in the new-Work form.
pub open spec fn create_step(a: TuiState, b: TuiState, key: Key, r: TuiAction) -> bool {
    match key.code {
        KeyCode::Esc => b == restored(a) && r is Nothing,
        KeyCode::Tab | KeyCode::Down | KeyCode::Right => r is Nothing && b == if a.intents@.len()
            == 0 {
            a
        } else {
            TuiState {
                create_intent: wrapped(a.create_intent as int, 1, a.intents@.len() as int) as usize,
                ..a
            }
        },
        KeyCode::BackTab | KeyCode::Up | KeyCode::Left => r is Nothing && b == if a.intents@.len()
            == 0 {
            a
        } else {
            TuiState {
                create_intent: wrapped(a.create_intent as int, -1, a.intents@.len() as int) as usize,
                ..a
            }
        },
        KeyCode::Enter => create_result(a, b, r),
        KeyCode::Backspace => b == TuiState { create_goal: b.create_goal, ..a } && b.create_goal@
            == popped(a.create_goal@) && r is Nothing,
        KeyCode::Char(c) => if is_plain(key) {
            b == TuiState { create_goal: b.create_goal, ..a } && b.create_goal@
                == a.create_goal@.push(c) && r is Nothing
        } else {
            b == a && r is Nothing
        },
        _ => b == a && r is Nothing,
    }
}

/// What a key does in the archive confirmation.
pub open spec fn archive_step(a: TuiState, b: TuiState, key: Key, r: TuiAction) -> bool {
    match key.code {
        KeyCode::Esc => b == restored(a) && r is Nothing,
        KeyCode::Enter => b == a && archive_result(a, r),
        KeyCode::Char(c) => if is_shortcut(key) && c == 'n' {
            b == restored(a) && r is Nothing
        } else if is_shortcut(key) && c == 'y' {
            b == a && archive_result(a, r)
        } else {
            b == a && r is Nothing
        },
        _ => b == a && r is Nothing,
    }
}

/// What a key does in the help panel.
pub open spec fn help_step(a: TuiState, b: TuiState, key: Key, r: TuiAction) -> bool {
    &&& r is Nothing
    &&& match key.code {
        KeyCode::Esc => b == restored(a),
        KeyCode::Char(c) => if (is_plain(key) && c == '?') || (is_shortcut(key) && c == 'q') {
            b == restored(a)
        } else {
            b == a
        },
        _ => b == a,
    }
}

/// What a key does in the intent list.
pub open spec fn intents_step(a: TuiState, b: TuiState, key: Key, r: TuiAction) -> bool {
    match key.code {
        KeyCode::Esc => b == restored(a) && r is Nothing,
        KeyCode::Down | KeyCode::Up => {
            let n = a.intent_indices().len() as int;
            let delta: int = if key.code == KeyCode::Down {
                1
            } else {
                -1
            };
            &&& r is Nothing
            &&& b == TuiState {
                selected_intent: if n == 0 {
                    0
                } else {
                    wrapped(a.selected_intent as int, delta, n) as usize
                },
                ..a
            }
        },
        KeyCode::Enter => b == a && match a.selected_intent_spec() {
            Some(id) => r == TuiAction::SwitchIntent {
                work_slug: a.intent_work_slug,
                intent_id: id,
            },
            None => r is Nothing,
        },
        KeyCode::Backspace => {
            &&& b == TuiState { intent_filter: b.intent_filter, selected_intent: 0, ..a }
            &&& b.intent_filter@ == popped(a.intent_filter@)
            &&& r is Nothing
        },
        KeyCode::Char(c) => if is_plain(key) {
            &&& b == TuiState { intent_filter: b.intent_filter, selected_intent: 0, ..a }
            &&& b.intent_filter@ == a.intent_filter@.push(c)
            &&& r is Nothing
        } else {
            b == a && r is Nothing
        },
        _ => b == a && r is Nothing,
    }
}

/// How the view takes what the repository context asks for.
pub open spec fn repo_outcome(a: TuiState, b: TuiState, pr: RepoPickerAction, r: TuiAction) -> bool {
    match pr {
        RepoPickerAction::Nothing => b == TuiState { repo: b.repo, ..a } && r is Nothing,
        RepoPickerAction::Back => b == TuiState { repo: b.repo, mode: a.queue_mode(), ..a }
            && r is Nothing,
        RepoPickerAction::Notify(t) => b == TuiState { repo: b.repo, toast: Some(t), ..a }
            && r is Nothing,
        RepoPickerAction::AddWorkspaces { work_slug, paths } => b == TuiState { repo: b.repo, ..a }
            && r == TuiAction::AddRepoWorkspaces { work_slug, paths },
        RepoPickerAction::RemoveWorkspace { work_slug, path } => b == TuiState { repo: b.repo, ..a }
            && r == TuiAction::RemoveRepoWorkspace { work_slug, path },
        RepoPickerAction::Apply { work_slug, add, link, remove, force_remove, workspace } => b
            == TuiState { repo: b.repo, ..a } && r == TuiAction::ApplyRepoChanges {
            work_slug,
            add,
            link,
            remove,
            force_remove,
            workspace,
        },
    }
}

/// What a key does in the repository context.
pub open spec fn repos_step(a: TuiState, b: TuiState, key: Key, r: TuiAction) -> bool {
    exists|pr: RepoPickerAction|
        #[trigger] picker_key_step(a.repo, b.repo, key, pr) && repo_outcome(a, b, pr, r)
}

/// What a key does: `a` before, `b` after, `r` what the application should
/// do.
pub open spec fn tui_key_step(a: TuiState, b: TuiState, key: Key, r: TuiAction) -> bool {
    if !key.press {
        b == a && r is Nothing
    } else {
        let a1 = TuiState { toast: None, ..a };
        if key.code == KeyCode::Char('t') && key.modifiers.control {
            &&& b == TuiState { trace_visible: !a.trace_visible, trace: b.trace, ..a1 }
            &&& traced_with(
                a.trace@,
                b.trace@,
                TraceKind::Run,
                if !a.trace_visible {
                    "trace panel shown"@
                } else {
                    "trace panel hidden"@
                },
            )
            &&& r is Nothing
        } else {
            match a.mode {
                TuiMode::List => list_step(a1, b, key, r),
                TuiMode::Search => search_step(a1, b, key, r),
                TuiMode::Leader => leader_step(a1, b, key, r),
                TuiMode::Create => create_step(a1, b, key, r),
                TuiMode::Archive => archive_step(a1, b, key, r),
                TuiMode::Intents => intents_step(a1, b, key, r),
                TuiMode::Repos => repos_step(a1, b, key, r),
                TuiMode::Help => help_step(a1, b, key, r),
            }
        }
    }
}

impl TuiState {
    fn switch_action(&self) -> (r: TuiAction)
        ensures
            switch_result(*self, r),
    {
        match self.selected_work_slug() {
            Some(slug) => TuiAction::Switch(slug),
            None => TuiAction::Nothing,
        }
    }

    fn archive_action(&self) -> (r: TuiAction)
        ensures
            archive_result(*self, r),
    {
        match self.selected_work_slug() {
            Some(slug) => TuiAction::Archive(slug),
            None => TuiAction::Nothing,
        }
    }

    fn enter_leader(&mut self)
        ensures
            leader_entered(*old(self), *final(self)),
    {
        self.mode = TuiMode::Leader;
        self.push_trace(TraceKind::Run, owned("command leader ready"));
    }

    fn type_filter(&mut self, c: char)
        ensures
            filter_typed(*old(self), *final(self), c),
    {
        self.enter_filter_mode();
        self.push_filter_char(c);
        let m = filter_trace_message(self.filter.as_str());
        self.push_trace(TraceKind::Signal, m);
    }

    fn handle_list_key(&mut self, key: Key) -> (r: TuiAction)
        ensures
            list_step(*old(self), *final(self), key, r),
    {
        match key.code {
            KeyCode::Esc => TuiAction::Quit,
            KeyCode::Down => {
                self.move_selection(1);
                TuiAction::Nothing
            },
            KeyCode::Up => {
                self.move_selection(-1);
                TuiAction::Nothing
            },
            KeyCode::Enter => self.switch_action(),
            KeyCode::Char(c) => {
                if !is_plain_character(&key) {
                    TuiAction::Nothing
                } else if c == '/' {
                    self.enter_leader();
                    TuiAction::Nothing
                } else {
                    self.type_filter(c);
                    TuiAction::Nothing
                }
            },
            _ => TuiAction::Nothing,
        }
    }

    fn handle_search_key(&mut self, key: Key) -> (r: TuiAction)
        ensures
            search_step(*old(self), *final(self), key, r),
    {
        match key.code {
            KeyCode::Esc => {
                if chars_of(self.filter.as_str()).len() == 0 {
                    TuiAction::Quit
                } else {
                    self.close_filter_mode();
                    TuiAction::Nothing
                }
            },
            KeyCode::Enter => self.switch_action(),
            KeyCode::Backspace => {
                if chars_of(self.filter.as_str()).len() > 0 {
                    pop_char(&mut self.filter);
                    self.selected = 0;
                    let m = filter_trace_message(self.filter.as_str());
                    self.push_trace(TraceKind::Signal, m);
                }
                TuiAction::Nothing
            },
            KeyCode::Down => {
                self.move_selection(1);
                TuiAction::Nothing
            },
            KeyCode::Up => {
                self.move_selection(-1);
                TuiAction::Nothing
            },
            KeyCode::Char(c) => {
                if !is_plain_character(&key) {
                    TuiAction::Nothing
                } else if c == '/' {
                    self.enter_leader();
                    TuiAction::Nothing
                } else {
                    self.push_filter_char(c);
                    let m = filter_trace_message(self.filter.as_str());
                    self.push_trace(TraceKind::Signal, m);
                    TuiAction::Nothing
                }
            },
            _ => TuiAction::Nothing,
        }
    }

    fn handle_leader_key(&mut self, key: Key) -> (r: TuiAction)
        requires
            old(self).wf(),
        ensures
            final(self).wf(),
            leader_step(*old(self), *final(self), key, r),
    {
        let plain = is_plain_character(&key);
        match key.code {
            KeyCode::Char(c) if plain && c == 'n' => {
                self.mode = TuiMode::Create;
                self.push_trace(TraceKind::Run, owned("work init ready"));
                TuiAction::Nothing
            },
            KeyCode::Char(c) if plain && c == 'a' => {
                if self.selected_work().is_some() {
                    self.mode = TuiMode::Archive;
                    self.push_trace(TraceKind::Warn, owned("archive confirmation armed"));
                } else {
                    self.restore_queue_mode();
                }
                TuiAction::Nothing
            },
            KeyCode::Char(c) if plain && c == 'r' => {
                let (slug, title) = match self.selected_work() {
                    Some(work) => (clone_string(&work.slug), clone_string(&work.title)),
                    None => {
                        return TuiAction::Nothing;
                    },
                };
                let opened = clone_string(&slug);
                self.enter_repo_loading(slug, title);
                TuiAction::OpenRepos(opened)
            },
            KeyCode::Char(c) if plain && c == 'i' => {
                match self.selected_work() {
                    Some(work) => {
                        let slug = clone_string(&work.slug);
                        let title = clone_string(&work.title);
                        let intent = clone_string(&work.intent_id);
                        self.enter_intent_context(slug, title, intent);
                    },
                    None => self.restore_queue_mode(),
                }
                TuiAction::Nothing
            },
            KeyCode::Char(c) if plain && c == '?' => {
                self.mode = TuiMode::Help;
                TuiAction::Nothing
            },
            KeyCode::Char(c) if plain && c == 'q' => TuiAction::Quit,
            KeyCode::Char(c) if plain && c == '/' => {
                self.type_filter('/');
                TuiAction::Nothing
            },
            _ => {
                self.restore_queue_mode();
                TuiAction::Nothing
            },
        }
    }

    /// What Enter in the new-Work form asks for.
    pub fn create_action(&mut self) -> (r: TuiAction)
        ensures
            create_result(*old(self), *final(self), r),
    {
        let goal = trim_exec(self.create_goal.as_str());
        if chars_of(goal.as_str()).len() == 0 {
            self.toast = Some(
                Toast::error("Goal required", "Type a Work goal before creating."),
            );
            self.push_trace(TraceKind::Error, owned("work init missing goal"));
            return TuiAction::Nothing;
        }
        TuiAction::Create { goal, intent_id: self.create_intent_id() }
    }

    fn handle_create_key(&mut self, key: Key) -> (r: TuiAction)
        ensures
            create_step(*old(self), *final(self), key, r),
    {
        match key.code {
            KeyCode::Esc => {
                self.close_panel();
                TuiAction::Nothing
            },
            KeyCode::Tab | KeyCode::Down | KeyCode::Right => {
                self.next_intent();
                TuiAction::Nothing
            },
            KeyCode::BackTab | KeyCode::Up | KeyCode::Left => {
                self.previous_intent();
                TuiAction::Nothing
            },
            KeyCode::Enter => self.create_action(),
            KeyCode::Backspace => {
                pop_char(&mut self.create_goal);
                TuiAction::Nothing
            },
            KeyCode::Char(c) => {
                if is_plain_character(&key) {
                    push_char(&mut self.create_goal, c);
                }
                TuiAction::Nothing
            },
            _ => TuiAction::Nothing,
        }
    }

    fn handle_archive_key(&mut self, key: Key) -> (r: TuiAction)
        ensures
            archive_step(*old(self), *final(self), key, r),
    {
        let shortcut = is_shortcut_character(&key);
        match key.code {
            KeyCode::Esc => {
                self.close_panel();
                TuiAction::Nothing
            },
            KeyCode::Enter => self.archive_action(),
            KeyCode::Char(c) => {
                if shortcut && c == 'n' {
                    self.close_panel();
                    TuiAction::Nothing
                } else if shortcut && c == 'y' {
                    self.archive_action()
                } else {
                    TuiAction::Nothing
                }
            },
            _ => TuiAction::Nothing,
        }
    }

    fn handle_help_key(&mut self, key: Key) -> (r: TuiAction)
        ensures
            help_step(*old(self), *final(self), key, r),
    {
        let plain = is_plain_character(&key);
        let shortcut = is_shortcut_character(&key);
        let close = match key.code {
            KeyCode::Esc => true,
            KeyCode::Char(c) => (plain && c == '?') || (shortcut && c == 'q'),
            _ => false,
        };
        if close {
            self.close_panel();
        }
        TuiAction::Nothing
    }

    fn handle_intents_key(&mut self, key: Key) -> (r: TuiAction)
        ensures
            intents_step(*old(self), *final(self), key, r),
    {
        match key.code {
            KeyCode::Esc => {
                self.restore_queue_mode();
                TuiAction::Nothing
            },
            KeyCode::Down => {
                self.move_intent_selection(1);
                TuiAction::Nothing
            },
            KeyCode::Up => {
                self.move_intent_selection(-1);
                TuiAction::Nothing
            },
            KeyCode::Enter => match self.selected_intent_id() {
                Some(id) => TuiAction::SwitchIntent {
                    work_slug: clone_string(&self.intent_work_slug),
                    intent_id: id,
                },
                None => TuiAction::Nothing,
            },
            KeyCode::Backspace => {
                self.pop_intent_filter_char();
                TuiAction::Nothing
            },
            KeyCode::Char(c) => {
                if is_plain_character(&key) {
                    self.push_intent_filter_char(c);
                }
                TuiAction::Nothing
            },
            _ => TuiAction::Nothing,
        }
    }

    fn handle_repos_key(&mut self, key: Key) -> (r: TuiAction)
        requires
            old(self).wf(),
        ensures
            final(self).wf(),
            repos_step(*old(self), *final(self), key, r),
    {
        let pr = self.repo.handle_key(key);
        let ghost p = pr;
        let r = match pr {
            RepoPickerAction::Nothing => TuiAction::Nothing,
            RepoPickerAction::Back => {
                self.restore_queue_mode();
                TuiAction::Nothing
            },
            RepoPickerAction::Notify(toast) => {
                self.toast = Some(toast);
                TuiAction::Nothing
            },
            RepoPickerAction::AddWorkspaces { work_slug, paths } => TuiAction::AddRepoWorkspaces {
                work_slug,
                paths,
            },
            RepoPickerAction::RemoveWorkspace { work_slug, path } => TuiAction::RemoveRepoWorkspace {
                work_slug,
                path,
            },
            RepoPickerAction::Apply { work_slug, add, link, remove, force_remove, workspace } => {
                TuiAction::ApplyRepoChanges { work_slug, add, link, remove, force_remove, workspace }
            },
        };
        assert(picker_key_step(old(self).repo, self.repo, key, p) && repo_outcome(
            *old(self),
            *self,
            p,
            r,
        ));
        r
    }

    /// Handles a key press.
    pub fn handle_key(&mut self, key: Key) -> (r: TuiAction)
        requires
            old(self).wf(),
        ensures
            final(self).wf(),
            tui_key_step(*old(self), *final(self), key, r),
    {
        if !key.press {
            return TuiAction::Nothing;
        }
        self.toast = None;
        if key.code == KeyCode::Char('t') && key.modifiers.control {
            self.toggle_trace();
            if self.trace_visible {
                self.push_trace(TraceKind::Run, owned("trace panel shown"));
            } else {
                self.push_trace(TraceKind::Run, owned("trace panel hidden"));
            }
            return TuiAction::Nothing;
        }
        match self.mode {
            TuiMode::List => self.handle_list_key(key),
            TuiMode::Search => self.handle_search_key(key),
            TuiMode::Leader => self.handle_leader_key(key),
            TuiMode::Create => self.handle_create_key(key),
            TuiMode::Archive => self.handle_archive_key(key),
            TuiMode::Intents => self.handle_intents_key(key),
            TuiMode::Repos => self.handle_repos_key(key),
            TuiMode::Help => self.handle_help_key(key),
        }
    }
}


/// With no filter typed, the queue shows every Work in order.
proof fn lemma_all_shown(ws: Seq<crate::domain::WorkSummary>)
    requires
        ws.len() <= usize::MAX,
    ensures
        crate::tui_state::filtered_from(ws, Seq::empty()).len() == ws.len(),
        forall|k: int| 0 <= k < ws.len() ==> #[trigger] crate::tui_state::filtered_from(ws, Seq::empty())[k] == k,
    decreases ws.len(),
{
    if ws.len() > 0 {
        lemma_all_shown(ws.drop_last());
        let rest = crate::tui_state::filtered_from(ws.drop_last(), Seq::empty());
        assert(crate::tui_state::filtered_from(ws, Seq::empty()) == rest.push((ws.len() - 1) as usize));
        assert forall|k: int| 0 <= k < ws.len() implies #[trigger] crate::tui_state::filtered_from(ws, Seq::empty())[k] == k by {
            let all = rest.push((ws.len() - 1) as usize);
            assert(crate::tui_state::filtered_from(ws, Seq::empty())[k] == all[k]);
            if k < ws.len() - 1 {
                assert(rest[k] == k);
                assert(all[k] == rest[k]);
            } else {
                assert(all[k] == (ws.len() - 1) as usize);
            }
        }
    }
}

/// Typing a character in the Work list opens the filter, and Esc then
/// closes it with the list back as it was: no filter, list mode, and the
/// selection on the same Work as before the typing.
pub proof fn law_escape_after_typing_restores_the_selection(
    a: TuiState,
    b: TuiState,
    d: TuiState,
    typed: Key,
    escape: Key,
    r1: TuiAction,
    r2: TuiAction,
)
    requires
        a.mode == TuiMode::List,
        a.filter@.len() == 0,
        a.pre_filter_selected_slug is None,
        a.selected < a.indices().len(),
        typed.press,
        is_plain(typed),
        typed.code matches KeyCode::Char(c) && c != '/',
        escape.press,
        escape.code == KeyCode::Esc,
        tui_key_step(a, b, typed, r1),
        tui_key_step(b, d, escape, r2),
    ensures
        d.filter@.len() == 0,
        d.mode == TuiMode::List,
        d.works == a.works,
        d.selected_slug() matches Some(s) && a.selected_slug() matches Some(t) && s@ == t@,
{
    let a1 = TuiState { toast: None, ..a };
    let b1 = TuiState { toast: None, ..b };
    assert(a1.selected_slug() == a.selected_slug());
    let s = a.selected_slug()->0;
    assert(b.pre_filter_selected_slug == Some(s));
    assert(b.filter@.len() > 0);
    assert(b.mode == TuiMode::Search);
    let cleared = TuiState { filter: d.filter, pre_filter_selected_slug: None, mode: TuiMode::List, ..b1 };
    assert(d == cleared.slug_selected(s@));
    crate::text::lemma_trim_empty();
    assert(crate::text::lower(Seq::<char>::empty()) =~= Seq::<char>::empty());
    assert(cleared.query() =~= Seq::<char>::empty());
    assert(a.works@.len() == a.works.len());
    lemma_all_shown(a.works@);
    let ws = a.works@;
    assert(cleared.indices() == crate::tui_state::filtered_from(ws, Seq::empty()));
    assert(cleared.shown_works() =~= ws);
    let i = a.indices()[a.selected as int];
    crate::tui_state::lemma_filtered_from(ws, a.query());
    assert(ws[i as int].slug@ == s@);
    crate::tui_state::lemma_first_slug(ws, s@, 0);
    if crate::tui_state::first_slug(ws, s@, 0) == ws.len() {
        assert(crate::tui_state::first_slug(ws, s@, 0) <= i) by {
            lemma_first_slug_at_most(ws, s@, 0, i as int);
        }
    }
    let p = crate::tui_state::first_slug(ws, s@, 0);
    assert(d.selected == p);
    assert(d.indices()[p] == p);
}

proof fn lemma_first_slug_at_most(ws: Seq<crate::domain::WorkSummary>, slug: Seq<char>, i: int, j: int)
    requires
        0 <= i <= j < ws.len(),
        ws[j].slug@ == slug,
    ensures
        crate::tui_state::first_slug(ws, slug, i) <= j,
    decreases j - i,
{
    if ws[i].slug@ != slug {
        lemma_first_slug_at_most(ws, slug, i + 1, j);
    }
}

} // verus!

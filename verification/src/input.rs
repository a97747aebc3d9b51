//! How the browser reacts to an event: a transition of its state, and an
//! effect for the caller to carry out. What the effect brings back from
//! disk comes in through `entered`, `deleted` and `applied`.

use vstd::prelude::*;
use crate::display::DisplayModule;
use crate::entry::{DirChild, Entry, EntryView};
use crate::events::{
    command_for_key, command_of, prompt_char, prompt_char_for, Command, Completion,
    CompletionView, Effect, EffectView, Event, KeyCode, KeyEvent, MouseEvent, MouseEventKind,
};
use crate::history::{forward_steps, inverse_steps, Operation, OperationView};
use crate::listing::{listing, read_dir_entries};
use crate::modes::{Mode, ModeAction, ModeActionView};
use crate::paths::{parent, parent_of};
use crate::prompt::{advanced, next_hit, opened, prompt_step};
use crate::seqs::views;
use crate::state::{clamped, AppState, AppStateView};
use crate::ui::{scrolled_down, scrolled_up, shows, updated, Renderer, RESERVED_ROWS};

verus! {

/// The state and the window after an event, and what the caller is to do.
pub struct Outcome {
    pub state: AppStateView,
    pub window: Renderer,
    pub effect: EffectView,
}

/// The entry under the selection.
pub open spec fn selected_entry(s: AppStateView) -> EntryView {
    s.entries[s.selected as int]
}

/// The state with the selection on `index` where the listing has it, and
/// the state itself where it has not.
pub open spec fn select(s: AppStateView, index: usize) -> AppStateView {
    if index < s.entries.len() {
        AppStateView { selected: index, ..s }
    } else {
        s
    }
}

/// What the delete command does: on the parent entry nothing; on an entry
/// that is not armed it arms the entry; on the armed entry it asks for
/// the deletion.
pub open spec fn delete_command(s: AppStateView) -> (AppStateView, EffectView) {
    if s.selected == 0 {
        (s, EffectView::Nothing)
    } else if s.delete_mode == Some(s.selected) {
        (
            s,
            EffectView::Delete {
                path: selected_entry(s).path,
                is_dir: selected_entry(s).is_dir,
                position: s.selected,
            },
        )
    } else {
        (AppStateView { delete_mode: Some(s.selected), ..s }, EffectView::Nothing)
    }
}

/// What undo asks for: the inverse of the operation before the journal's
/// cursor, or nothing where there is none. The cursor moves in `applied`.
pub open spec fn undo_effect(s: AppStateView) -> EffectView {
    if s.history_index > 0 {
        EffectView::Apply {
            steps: inverse_steps(s.operations[s.history_index - 1]),
            completion: CompletionView::Undone,
        }
    } else {
        EffectView::Nothing
    }
}

/// What redo asks for: the operation at the journal's cursor once more, or
/// nothing where there is none. The cursor moves in `applied`.
pub open spec fn redo_effect(s: AppStateView) -> EffectView {
    if s.history_index < s.operations.len() {
        EffectView::Apply {
            steps: forward_steps(s.operations[s.history_index as int]),
            completion: CompletionView::Redone,
        }
    } else {
        EffectView::Nothing
    }
}

/// What activating the selection asks for: to enter a directory, to open a file.
pub open spec fn activate_effect(s: AppStateView) -> EffectView {
    if selected_entry(s).is_dir {
        EffectView::ChangeDir(selected_entry(s).path)
    } else {
        EffectView::OpenFile(selected_entry(s).path)
    }
}

/// What going back asks for: to enter the parent of the current
/// directory, or nothing where it has none.
pub open spec fn back_effect(s: AppStateView) -> EffectView {
    match parent_of(s.current_path) {
        Some(dir) => EffectView::ChangeDir(dir),
        None => EffectView::Nothing,
    }
}

/// One command in Normal mode.
pub open spec fn command_step(s: AppStateView, command: Command) -> (AppStateView, EffectView) {
    match command {
        Command::MoveDown => (
            if s.selected + 1 < s.entries.len() {
                AppStateView { selected: (s.selected + 1) as usize, ..s }
            } else {
                s
            },
            EffectView::Nothing,
        ),
        Command::MoveUp => (
            if s.selected > 0 {
                AppStateView { selected: (s.selected - 1) as usize, ..s }
            } else {
                s
            },
            EffectView::Nothing,
        ),
        Command::GoToTop => (AppStateView { selected: 0, ..s }, EffectView::Nothing),
        Command::GoToBottom => (
            AppStateView { selected: (s.entries.len() - 1) as usize, ..s },
            EffectView::Nothing,
        ),
        Command::BeginSearch => (
            AppStateView { prompt: opened(Mode::Search, Seq::empty()), ..s },
            EffectView::Nothing,
        ),
        Command::BeginCreate => (
            AppStateView { prompt: opened(Mode::Create, Seq::empty()), ..s },
            EffectView::Nothing,
        ),
        Command::BeginRename => (
            if s.selected > 0 {
                AppStateView { prompt: opened(Mode::Rename, selected_entry(s).name), ..s }
            } else {
                s
            },
            EffectView::Nothing,
        ),
        Command::NextMatch => (
            match next_hit(s.prompt) {
                Some(index) => select(AppStateView { prompt: advanced(s.prompt), ..s }, index),
                None => s,
            },
            EffectView::Nothing,
        ),
        Command::Delete => delete_command(s),
        Command::Undo => (s, undo_effect(s)),
        Command::Redo => (s, redo_effect(s)),
        Command::Activate => (s, activate_effect(s)),
        Command::GoBack => (s, back_effect(s)),
        Command::Quit => (s, EffectView::Quit(s.current_path)),
    }
}

/// What the browser does with the action of a prompt: a selection is
/// made; a creation or a rename becomes steps for the caller, to be
/// recorded once they have succeeded.
pub open spec fn action_step(s: AppStateView, action: Option<ModeActionView>) -> (
    AppStateView,
    EffectView,
) {
    match action {
        Some(ModeActionView::Select(index)) => (select(s, index), EffectView::Nothing),
        Some(ModeActionView::CreateEntry(op)) => (
            s,
            EffectView::Apply { steps: forward_steps(op), completion: CompletionView::Created(op) },
        ),
        Some(ModeActionView::RenameEntry(op)) => (
            s,
            EffectView::Apply { steps: forward_steps(op), completion: CompletionView::Renamed(op) },
        ),
        Some(ModeActionView::Exit) => (s, EffectView::Nothing),
        None => (s, EffectView::Nothing),
    }
}

/// One key while a prompt is open: Esc closes the prompt and drops its
/// query and matches; Enter, Backspace and the character keys go to the
/// prompt; any other key does nothing.
pub open spec fn prompt_key_step(s: AppStateView, code: KeyCode) -> (AppStateView, EffectView) {
    if code == KeyCode::Esc {
        (AppStateView { prompt: opened(Mode::Normal, Seq::empty()), ..s }, EffectView::Nothing)
    } else {
        match prompt_char(code) {
            Some(input) => {
                let step = prompt_step(
                    s.prompt,
                    input,
                    s.entries,
                    s.current_path,
                    Some(selected_entry(s).path),
                );
                action_step(AppStateView { prompt: step.next, ..s }, step.action)
            },
            None => (s, EffectView::Nothing),
        }
    }
}

/// The state with no entry armed for deletion.
pub open spec fn disarmed(s: AppStateView) -> AppStateView {
    AppStateView { delete_mode: None, ..s }
}

/// One key: every key but `d` disarms the pending deletion; then the key
/// goes to the prompt where one is open, and is a command where none is;
/// last the window follows the selection.
pub open spec fn key_step(s: AppStateView, w: Renderer, key: KeyEvent, height: u16) -> Outcome {
    let armed = if key.code == KeyCode::Char('d') {
        s
    } else {
        disarmed(s)
    };
    let moved = if armed.prompt.mode != Mode::Normal {
        prompt_key_step(armed, key.code)
    } else {
        match command_of(key) {
            Some(command) => command_step(armed, command),
            None => (armed, EffectView::Nothing),
        }
    };
    Outcome {
        state: moved.0,
        window: updated(w, moved.0.selected, moved.0.entries.len() as usize, height),
        effect: moved.1,
    }
}

/// One mouse event; each disarms the pending deletion. The wheel moves
/// the window by a row, and a selection that fell out of the window
/// moves to its nearest row. A click selects the row under it, and
/// activates it where it was the selection already.
pub open spec fn mouse_step(s: AppStateView, w: Renderer, mouse: MouseEvent) -> Outcome {
    let calm = disarmed(s);
    match mouse.kind {
        MouseEventKind::ScrollDown => {
            let moved = scrolled_down(w, s.entries.len() as usize);
            Outcome {
                state: if s.selected < moved.viewport_start {
                    select(calm, moved.viewport_start)
                } else {
                    calm
                },
                window: moved,
                effect: EffectView::Nothing,
            }
        },
        MouseEventKind::ScrollUp => {
            let moved = scrolled_up(w);
            let end = moved.viewport_start + moved.viewport_size;
            Outcome {
                state: if s.selected >= end && end > 0 {
                    AppStateView { selected: (end - 1) as usize, ..calm }
                } else {
                    calm
                },
                window: moved,
                effect: EffectView::Nothing,
            }
        },
        MouseEventKind::LeftDown => {
            let row = w.viewport_start + mouse.row;
            if row >= s.entries.len() {
                Outcome { state: calm, window: w, effect: EffectView::Nothing }
            } else if s.selected == row {
                Outcome { state: calm, window: w, effect: activate_effect(calm) }
            } else {
                Outcome {
                    state: AppStateView { selected: row as usize, ..calm },
                    window: w,
                    effect: EffectView::Nothing,
                }
            }
        },
        MouseEventKind::Other => Outcome { state: calm, window: w, effect: EffectView::Nothing },
    }
}

/// One event. `height` is the height of the terminal in rows; a resize
/// brings its own.
pub open spec fn event_step(s: AppStateView, w: Renderer, event: Event, height: u16) -> Outcome {
    match event {
        Event::Key(key) => key_step(s, w, key, height),
        Event::Mouse(mouse) => mouse_step(s, w, mouse),
        Event::Resize(columns, rows) => Outcome {
            state: s,
            window: updated(w, s.selected, s.entries.len() as usize, rows),
            effect: EffectView::Nothing,
        },
        Event::Other => Outcome { state: s, window: w, effect: EffectView::Nothing },
    }
}

/// The state with `op` recorded at the journal's cursor: what could be
/// redone is gone, and the cursor stands behind `op`.
pub open spec fn recorded(s: AppStateView, op: OperationView) -> AppStateView {
    AppStateView {
        operations: s.operations.take(s.history_index as int).push(op),
        history_index: (s.history_index + 1) as usize,
        ..s
    }
}

/// The first index from `from` on at which the listing has `path`.
pub open spec fn find_path(entries: Seq<EntryView>, path: Seq<char>, from: int) -> Option<int>
    decreases entries.len() - from,
{
    if from < 0 || from >= entries.len() {
        None
    } else if entries[from].path == path {
        Some(from)
    } else {
        find_path(entries, path, from + 1)
    }
}

/// The state in a directory just entered: its path and listing, the first
/// entry behind the parent entry selected, nothing armed.
pub open spec fn after_entered(s: AppStateView, path: Seq<char>, entries: Seq<EntryView>)
    -> AppStateView {
    AppStateView {
        current_path: path,
        entries,
        selected: clamped(1, entries.len()),
        delete_mode: None,
        ..s
    }
}

/// The listing without the entry that `op` deleted. The parent entry
/// stays, whatever `op` says.
pub open spec fn without_deleted(entries: Seq<EntryView>, op: OperationView) -> Seq<EntryView> {
    match op {
        OperationView::Delete { path, is_dir, content, position, dir_backup } => {
            if 0 < position < entries.len() {
                entries.remove(position as int)
            } else {
                entries
            }
        },
        _ => entries,
    }
}

/// The state after a deletion: recorded, the entry gone from the
/// listing, nothing armed, the selection on the last entry where the
/// listing got too short for it.
pub open spec fn after_deleted(s: AppStateView, op: OperationView) -> AppStateView {
    let left = without_deleted(s.entries, op);
    AppStateView {
        entries: left,
        selected: clamped(s.selected, left.len()),
        delete_mode: None,
        ..recorded(s, op)
    }
}

/// Where the selection goes after an undo: onto the path that came back
/// where a deletion was undone and the listing has the path; else it
/// stays, or moves to the last entry where the listing got too short.
pub open spec fn selection_after_undo(s: AppStateView, entries: Seq<EntryView>) -> usize {
    if s.history_index > 0 {
        match s.operations[s.history_index - 1] {
            OperationView::Delete { path, is_dir, content, position, dir_backup } => {
                match find_path(entries, path, 0) {
                    Some(index) => index as usize,
                    None => clamped(s.selected, entries.len()),
                }
            },
            _ => clamped(s.selected, entries.len()),
        }
    } else {
        clamped(s.selected, entries.len())
    }
}

/// The state after the steps of an effect succeeded, with the listing
/// read afterwards. A creation is recorded and the last entry selected; a
/// rename is recorded; an undo moves the cursor back by one and a redo
/// forward by one, where there is such an operation.
pub open spec fn after_applied(
    s: AppStateView,
    completion: CompletionView,
    entries: Seq<EntryView>,
) -> AppStateView {
    match completion {
        CompletionView::Created(op) => AppStateView {
            entries,
            selected: (entries.len() - 1) as usize,
            ..recorded(s, op)
        },
        CompletionView::Renamed(op) => AppStateView {
            entries,
            selected: clamped(s.selected, entries.len()),
            ..recorded(s, op)
        },
        CompletionView::Undone => AppStateView {
            entries,
            selected: selection_after_undo(s, entries),
            history_index: if s.history_index > 0 {
                (s.history_index - 1) as usize
            } else {
                s.history_index
            },
            ..s
        },
        CompletionView::Redone => AppStateView {
            entries,
            selected: clamped(s.selected, entries.len()),
            history_index: if s.history_index < s.operations.len() {
                (s.history_index + 1) as usize
            } else {
                s.history_index
            },
            ..s
        },
    }
}

fn position_of_path(entries: &Vec<Entry>, path: &str) -> (found: Option<usize>)
    ensures
        match found {
            Some(index) => find_path(views(entries@), path@, 0) == Some(index as int),
            None => find_path(views(entries@), path@, 0).is_none(),
        },
{
    let mut i: usize = 0;
    while i < entries.len()
        invariant
            i <= entries.len(),
            find_path(views(entries@), path@, 0) == find_path(views(entries@), path@, i as int),
        decreases entries.len() - i,
    {
        assert(views(entries@)[i as int].path == entries[i as int].path@);
        if entries[i].path.as_str().to_owned() == path.to_owned() {
            return Some(i);
        }
        i += 1;
    }
    None
}

/// Removing an entry removes its view.
proof fn lemma_views_remove(entries: Seq<Entry>, at: int)
    requires
        0 <= at < entries.len(),
    ensures
        views(entries.remove(at)) == views(entries).remove(at),
{
    assert(views(entries.remove(at)) =~= views(entries).remove(at));
}

/// The dispatcher of events.
pub struct InputHandler;

impl InputHandler {
    /// Reacts to one event: changes the state and the window, and returns
    /// what the caller is to do. `height` is the height of the terminal
    /// in rows. The listing and the display cache stay as they are: they
    /// change in `entered`, `deleted` and `applied`.
    pub fn handle_event<M: DisplayModule>(
        event: Event,
        state: &mut AppState<M>,
        renderer: &mut Renderer,
        height: u16,
    ) -> (effect: Effect)
        requires
            old(state).wf(),
        ensures
            final(state).wf(),
            old(state).rendered() ==> final(state).rendered(),
            final(state)@ == event_step(old(state)@, *old(renderer), event, height).state,
            *final(renderer) == event_step(old(state)@, *old(renderer), event, height).window,
            effect@ == event_step(old(state)@, *old(renderer), event, height).effect,
            final(state).entries == old(state).entries,
            final(state).modules_cache == old(state).modules_cache,
            final(state).display_modules == old(state).display_modules,
    {
        let effect = match event {
            Event::Key(key) => Self::handle_key_event(key, state, renderer, height),
            Event::Mouse(mouse) => Self::handle_mouse_event(mouse, state, renderer),
            Event::Resize(columns, rows) => {
                renderer.update_viewport(state.selected, state.entries.len(), rows);
                Effect::Nothing
            },
            Event::Other => Effect::Nothing,
        };
        proof {
            lemma_rendered_kept(*old(state), *state);
        }
        effect
    }

    fn handle_key_event<M: DisplayModule>(
        key: KeyEvent,
        state: &mut AppState<M>,
        renderer: &mut Renderer,
        height: u16,
    ) -> (effect: Effect)
        requires
            old(state).wf(),
        ensures
            final(state).wf(),
            final(state)@ == key_step(old(state)@, *old(renderer), key, height).state,
            *final(renderer) == key_step(old(state)@, *old(renderer), key, height).window,
            effect@ == key_step(old(state)@, *old(renderer), key, height).effect,
            final(state).entries == old(state).entries,
            final(state).modules_cache == old(state).modules_cache,
            final(state).display_modules == old(state).display_modules,
    {
        let is_delete_key = match key.code {
            KeyCode::Char(c) => c == 'd',
            _ => false,
        };
        if !is_delete_key {
            state.delete_mode = None;
        }
        let effect = if state.prompt.is_active() {
            Self::handle_prompt_input(key, state)
        } else {
            Self::handle_normal_input(key, state)
        };
        renderer.update_viewport(state.selected, state.entries.len(), height);
        effect
    }

    fn handle_prompt_input<M: DisplayModule>(key: KeyEvent, state: &mut AppState<M>) -> (effect:
        Effect)
        requires
            old(state).wf(),
        ensures
            final(state).wf(),
            final(state)@ == prompt_key_step(old(state)@, key.code).0,
            effect@ == prompt_key_step(old(state)@, key.code).1,
            final(state).entries == old(state).entries,
            final(state).modules_cache == old(state).modules_cache,
            final(state).display_modules == old(state).display_modules,
    {
        match key.code {
            KeyCode::Esc => {
                state.prompt.set_mode(Mode::Normal);
                Effect::Nothing
            },
            _ => {
                match prompt_char_for(key.code) {
                    Some(input) => {
                        assert(views(state.entries@)[state.selected as int].path
                            == state.entries[state.selected as int].path@);
                        let action = state.prompt.handle_input(
                            input,
                            &state.entries,
                            state.current_path.as_str(),
                            Some(state.entries[state.selected].path.as_str()),
                        );
                        Self::handle_mode_action(action, state)
                    },
                    None => Effect::Nothing,
                }
            },
        }
    }

    fn handle_normal_input<M: DisplayModule>(key: KeyEvent, state: &mut AppState<M>) -> (effect:
        Effect)
        requires
            old(state).wf(),
        ensures
            final(state).wf(),
            final(state)@ == match command_of(key) {
                Some(command) => command_step(old(state)@, command).0,
                None => old(state)@,
            },
            effect@ == match command_of(key) {
                Some(command) => command_step(old(state)@, command).1,
                None => EffectView::Nothing,
            },
            final(state).entries == old(state).entries,
            final(state).modules_cache == old(state).modules_cache,
            final(state).display_modules == old(state).display_modules,
    {
        match command_for_key(key) {
            Some(command) => Self::run_command(command, state),
            None => Effect::Nothing,
        }
    }

    /// Carries out one command of Normal mode.
    pub fn run_command<M: DisplayModule>(command: Command, state: &mut AppState<M>) -> (effect:
        Effect)
        requires
            old(state).wf(),
        ensures
            final(state).wf(),
            final(state)@ == command_step(old(state)@, command).0,
            effect@ == command_step(old(state)@, command).1,
            final(state).entries == old(state).entries,
            final(state).modules_cache == old(state).modules_cache,
            final(state).display_modules == old(state).display_modules,
    {
        match command {
            Command::MoveDown => {
                Self::increment_selected(state);
                Effect::Nothing
            },
            Command::MoveUp => {
                Self::decrement_selected(state);
                Effect::Nothing
            },
            Command::GoToTop => {
                Self::goto_header(state);
                Effect::Nothing
            },
            Command::GoToBottom => {
                Self::goto_footer(state);
                Effect::Nothing
            },
            Command::BeginSearch => {
                state.prompt.set_mode(Mode::Search);
                Effect::Nothing
            },
            Command::BeginCreate => {
                state.prompt.set_mode(Mode::Create);
                Effect::Nothing
            },
            Command::BeginRename => {
                if state.selected > 0 {
                    assert(views(state.entries@)[state.selected as int].name
                        == state.entries[state.selected as int].name@);
                    state.prompt.set_mode_with_text(
                        Mode::Rename,
                        state.entries[state.selected].name.as_str(),
                    );
                }
                Effect::Nothing
            },
            Command::NextMatch => {
                match state.prompt.next_match() {
                    Some(index) => {
                        if index < state.entries.len() {
                            state.selected = index;
                        }
                    },
                    None => {},
                }
                Effect::Nothing
            },
            Command::Delete => Self::handle_delete(state),
            Command::Undo => Self::undo(state),
            Command::Redo => Self::redo(state),
            Command::Activate => Self::navigate(state),
            Command::GoBack => Self::back(state),
            Command::Quit => Effect::Quit(state.current_path.clone()),
        }
    }

    fn handle_mouse_event<M: DisplayModule>(
        mouse: MouseEvent,
        state: &mut AppState<M>,
        renderer: &mut Renderer,
    ) -> (effect: Effect)
        requires
            old(state).wf(),
        ensures
            final(state).wf(),
            final(state)@ == mouse_step(old(state)@, *old(renderer), mouse).state,
            *final(renderer) == mouse_step(old(state)@, *old(renderer), mouse).window,
            effect@ == mouse_step(old(state)@, *old(renderer), mouse).effect,
            final(state).entries == old(state).entries,
            final(state).modules_cache == old(state).modules_cache,
            final(state).display_modules == old(state).display_modules,
    {
        state.delete_mode = None;
        match mouse.kind {
            MouseEventKind::ScrollDown => {
                renderer.scroll_down(state.entries.len());
                let start = renderer.get_viewport_start();
                if state.selected < start && start < state.entries.len() {
                    state.selected = start;
                }
                Effect::Nothing
            },
            MouseEventKind::ScrollUp => {
                renderer.scroll_up();
                let start = renderer.get_viewport_start();
                let size = renderer.get_viewport_size();
                if state.selected >= start && state.selected - start >= size && (start > 0
                    || size > 0) {
                    state.selected = if size > 0 {
                        start + (size - 1)
                    } else {
                        start - 1
                    };
                }
                Effect::Nothing
            },
            MouseEventKind::LeftDown => {
                let start = renderer.get_viewport_start();
                let row = mouse.row as usize;
                if start < state.entries.len() && row < state.entries.len() - start {
                    let absolute = start + row;
                    if state.selected == absolute {
                        Self::navigate(state)
                    } else {
                        state.selected = absolute;
                        Effect::Nothing
                    }
                } else {
                    Effect::Nothing
                }
            },
            MouseEventKind::Other => Effect::Nothing,
        }
    }

    fn handle_mode_action<M: DisplayModule>(action: Option<ModeAction>, state: &mut AppState<M>)
        -> (effect: Effect)
        requires
            old(state).wf(),
        ensures
            final(state).wf(),
            final(state)@ == action_step(old(state)@, crate::modes::opt_action(action)).0,
            effect@ == action_step(old(state)@, crate::modes::opt_action(action)).1,
            final(state).entries == old(state).entries,
            final(state).modules_cache == old(state).modules_cache,
            final(state).display_modules == old(state).display_modules,
    {
        match action {
            Some(ModeAction::Select(index)) => {
                if index < state.entries.len() {
                    state.selected = index;
                }
                Effect::Nothing
            },
            Some(ModeAction::CreateEntry(operation)) => {
                let steps = operation.redo_steps();
                Effect::Apply { steps, completion: Completion::Created(operation) }
            },
            Some(ModeAction::RenameEntry(operation)) => {
                let steps = operation.redo_steps();
                Effect::Apply { steps, completion: Completion::Renamed(operation) }
            },
            Some(ModeAction::Exit) => Effect::Nothing,
            None => Effect::Nothing,
        }
    }

    fn navigate<M: DisplayModule>(state: &AppState<M>) -> (effect: Effect)
        requires
            state.wf(),
        ensures
            effect@ == activate_effect(state@),
    {
        let entry = &state.entries[state.selected];
        assert(views(state.entries@)[state.selected as int] == entry@);
        if entry.is_dir {
            Effect::ChangeDir(entry.path.clone())
        } else {
            Effect::OpenFile(entry.path.clone())
        }
    }

    fn handle_delete<M: DisplayModule>(state: &mut AppState<M>) -> (effect: Effect)
        requires
            old(state).wf(),
        ensures
            final(state).wf(),
            final(state)@ == delete_command(old(state)@).0,
            effect@ == delete_command(old(state)@).1,
            final(state).entries == old(state).entries,
            final(state).modules_cache == old(state).modules_cache,
            final(state).display_modules == old(state).display_modules,
    {
        if state.selected == 0 {
            return Effect::Nothing;
        }
        let armed = match state.delete_mode {
            Some(index) => index == state.selected,
            None => false,
        };
        if !armed {
            state.delete_mode = Some(state.selected);
            return Effect::Nothing;
        }
        let entry = &state.entries[state.selected];
        assert(views(state.entries@)[state.selected as int] == entry@);
        Effect::Delete { path: entry.path.clone(), is_dir: entry.is_dir, position: state.selected }
    }

    fn undo<M: DisplayModule>(state: &AppState<M>) -> (effect: Effect)
        requires
            state.wf(),
        ensures
            effect@ == undo_effect(state@),
    {
        match state.history.undo_plan() {
            Some(steps) => Effect::Apply { steps, completion: Completion::Undone },
            None => Effect::Nothing,
        }
    }

    fn redo<M: DisplayModule>(state: &AppState<M>) -> (effect: Effect)
        requires
            state.wf(),
        ensures
            effect@ == redo_effect(state@),
    {
        match state.history.redo_plan() {
            Some(steps) => Effect::Apply { steps, completion: Completion::Redone },
            None => Effect::Nothing,
        }
    }

    fn increment_selected<M: DisplayModule>(state: &mut AppState<M>)
        requires
            old(state).wf(),
        ensures
            final(state)@ == command_step(old(state)@, Command::MoveDown).0,
            final(state).entries == old(state).entries,
            final(state).modules_cache == old(state).modules_cache,
            final(state).display_modules == old(state).display_modules,
    {
        if state.selected < state.entries.len() - 1 {
            state.selected = state.selected + 1;
        }
    }

    fn decrement_selected<M: DisplayModule>(state: &mut AppState<M>)
        requires
            old(state).wf(),
        ensures
            final(state)@ == command_step(old(state)@, Command::MoveUp).0,
            final(state).entries == old(state).entries,
            final(state).modules_cache == old(state).modules_cache,
            final(state).display_modules == old(state).display_modules,
    {
        if state.selected > 0 {
            state.selected = state.selected - 1;
        }
    }

    fn goto_header<M: DisplayModule>(state: &mut AppState<M>)
        requires
            old(state).wf(),
        ensures
            final(state)@ == command_step(old(state)@, Command::GoToTop).0,
            final(state).entries == old(state).entries,
            final(state).modules_cache == old(state).modules_cache,
            final(state).display_modules == old(state).display_modules,
    {
        state.selected = 0;
    }

    fn goto_footer<M: DisplayModule>(state: &mut AppState<M>)
        requires
            old(state).wf(),
        ensures
            final(state)@ == command_step(old(state)@, Command::GoToBottom).0,
            final(state).entries == old(state).entries,
            final(state).modules_cache == old(state).modules_cache,
            final(state).display_modules == old(state).display_modules,
    {
        state.selected = state.entries.len() - 1;
    }

    fn back<M: DisplayModule>(state: &AppState<M>) -> (effect: Effect)
        ensures
            effect@ == back_effect(state@),
    {
        match parent(state.current_path.as_str()) {
            Some(dir) => Effect::ChangeDir(dir),
            None => Effect::Nothing,
        }
    }

    /// Takes over the directory that the caller has entered: `path` is the
    /// new current directory, `children` what reading it gave. The
    /// window starts at the top of the new listing.
    pub fn entered<M: DisplayModule>(
        state: &mut AppState<M>,
        renderer: &mut Renderer,
        path: String,
        parent_created: u64,
        children: &Vec<DirChild>,
        height: u16,
    )
        requires
            old(state).wf(),
        ensures
            final(state).wf(),
            final(state).rendered(),
            final(state)@ == after_entered(
                old(state)@,
                path@,
                listing(path@, parent_created, views(children@)),
            ).with_cache_of(final(state)@),
            *final(renderer) == updated(
                Renderer { viewport_start: 0, ..*old(renderer) },
                final(state).selected,
                final(state).entries.len(),
                height,
            ),
            final(state).display_modules == old(state).display_modules,
    {
        let entries = read_dir_entries(path.as_str(), parent_created, children);
        state.current_path = path;
        state.delete_mode = None;
        state.replace_entries(entries, 1);
        renderer.reset_viewport();
        renderer.update_viewport(state.selected, state.entries.len(), height);
    }

    /// Takes over a deletion that the caller has carried out: `op` is its
    /// record, as `prepare_delete_operation` gave it. It is entered in the
    /// journal, and the entry leaves the listing.
    pub fn deleted<M: DisplayModule>(
        state: &mut AppState<M>,
        renderer: &mut Renderer,
        op: Operation,
        height: u16,
    )
        requires
            old(state).wf(),
            op.wf(),
        ensures
            final(state).wf(),
            final(state).rendered(),
            final(state)@ == after_deleted(old(state)@, op@).with_cache_of(final(state)@),
            *final(renderer) == updated(
                *old(renderer),
                final(state).selected,
                final(state).entries.len(),
                height,
            ),
            final(state).display_modules == old(state).display_modules,
    {
        let position = match &op {
            Operation::Delete { path, is_dir, content, position, dir_backup } => Some(*position),
            _ => None,
        };
        state.history.record(op);
        match position {
            Some(at) => {
                if 0 < at && at < state.entries.len() {
                    proof {
                        lemma_views_remove(state.entries@, at as int);
                    }
                    let _ = state.entries.remove(at);
                }
            },
            None => {},
        }
        state.delete_mode = None;
        if state.selected >= state.entries.len() {
            state.selected = state.entries.len() - 1;
        }
        state.recompute_display_data();
        renderer.update_viewport(state.selected, state.entries.len(), height);
    }

    fn undo_selection<M: DisplayModule>(state: &AppState<M>, entries: &Vec<Entry>) -> (selected:
        usize)
        requires
            state.wf(),
            entries.len() >= 1,
        ensures
            selected == selection_after_undo(state@, views(entries@)),
            selected < entries.len(),
    {
        let keep: usize = if state.selected < entries.len() {
            state.selected
        } else {
            entries.len() - 1
        };
        if state.history.index > 0 {
            let op = &state.history.operations[state.history.index - 1];
            assert(state@.operations[state.history.index - 1] == op@);
            match op {
                Operation::Delete { path, is_dir, content, position, dir_backup } => {
                    match position_of_path(entries, path.as_str()) {
                        Some(index) => {
                            proof {
                                lemma_find_path(views(entries@), path@, 0);
                            }
                            index
                        },
                        None => keep,
                    }
                },
                _ => keep,
            }
        } else {
            keep
        }
    }

    /// Takes over the steps that the caller has carried out: `completion`
    /// says what they were for, `children` is what reading the current
    /// directory gave afterwards.
    pub fn applied<M: DisplayModule>(
        state: &mut AppState<M>,
        renderer: &mut Renderer,
        completion: Completion,
        parent_created: u64,
        children: &Vec<DirChild>,
        height: u16,
    )
        requires
            old(state).wf(),
            completion@.wf(),
        ensures
            final(state).wf(),
            final(state).rendered(),
            final(state)@ == after_applied(
                old(state)@,
                completion@,
                listing(old(state)@.current_path, parent_created, views(children@)),
            ).with_cache_of(final(state)@),
            *final(renderer) == updated(
                *old(renderer),
                final(state).selected,
                final(state).entries.len(),
                height,
            ),
            final(state).display_modules == old(state).display_modules,
    {
        let entries = read_dir_entries(state.current_path.as_str(), parent_created, children);
        match completion {
            Completion::Created(op) => {
                state.history.record(op);
                let last: usize = entries.len() - 1;
                state.replace_entries(entries, last);
            },
            Completion::Renamed(op) => {
                state.history.record(op);
                let selected = state.selected;
                state.replace_entries(entries, selected);
            },
            Completion::Undone => {
                let selected = Self::undo_selection(state, &entries);
                state.history.commit_undo();
                state.replace_entries(entries, selected);
            },
            Completion::Redone => {
                state.history.commit_redo();
                let selected = state.selected;
                state.replace_entries(entries, selected);
            },
        }
        renderer.update_viewport(state.selected, state.entries.len(), height);
    }
}

/// A state with the same listing, modules and display cache is rendered
/// where the other is.
pub proof fn lemma_rendered_kept<M: DisplayModule>(before: AppState<M>, after: AppState<M>)
    requires
        after.entries == before.entries,
        after.modules_cache == before.modules_cache,
        after.display_modules == before.display_modules,
    ensures
        before.rendered() ==> after.rendered(),
{
    if before.rendered() {
        assert forall|r: int, c: int|
            0 <= r < after.entries.len() && 0 <= c < after.display_modules.len() implies #[trigger] after.cell_rendered(
            r,
            c,
        ) by {
            assert(before.cell_rendered(r, c));
        }
    }
}

/// No event moves the journal: neither its operations nor its cursor.
pub proof fn lemma_events_keep_journal(s: AppStateView, w: Renderer, event: Event, height: u16)
    ensures
        event_step(s, w, event, height).state.operations == s.operations,
        event_step(s, w, event, height).state.history_index == s.history_index,
{
}

/// The journal's cursor never leaves the journal, and once an operation
/// is recorded nothing can be redone.
pub proof fn lemma_record_closes_redo(s: AppStateView, op: OperationView)
    requires
        s.history_index <= s.operations.len(),
        s.operations.len() < usize::MAX,
    ensures
        recorded(s, op).history_index == recorded(s, op).operations.len(),
        redo_effect(recorded(s, op)) == EffectView::Nothing,
{
}

/// Where nothing can be redone, nothing can be redone after whatever the
/// caller reports next, unless that is an undo: the cursor stays at the
/// end of the journal.
pub proof fn lemma_redo_stays_closed(
    s: AppStateView,
    completion: CompletionView,
    entries: Seq<EntryView>,
    op: OperationView,
)
    requires
        s.history_index == s.operations.len(),
        s.operations.len() < usize::MAX,
        !(completion is Undone),
    ensures
        after_applied(s, completion, entries).history_index == after_applied(
            s,
            completion,
            entries,
        ).operations.len(),
        after_deleted(s, op).history_index == after_deleted(s, op).operations.len(),
{
}

/// In every state that `applied` and `deleted` leave, the journal's cursor
/// lies within the journal.
pub proof fn lemma_cursor_in_journal(
    s: AppStateView,
    completion: CompletionView,
    entries: Seq<EntryView>,
    op: OperationView,
)
    requires
        s.history_index <= s.operations.len(),
        s.operations.len() < usize::MAX,
    ensures
        after_applied(s, completion, entries).history_index <= after_applied(
            s,
            completion,
            entries,
        ).operations.len(),
        after_deleted(s, op).history_index <= after_deleted(s, op).operations.len(),
{
}

/// What an event asks to be recorded once its steps have succeeded is a
/// well-formed operation.
pub proof fn lemma_effects_are_valid(s: AppStateView, w: Renderer, event: Event, height: u16)
    ensures
        event_step(s, w, event, height).effect matches EffectView::Apply { steps, completion }
            ==> completion.wf(),
{
}

/// A deletion that the caller reports is recorded at the cursor: what
/// could be redone is gone, the record is the last operation, nothing can
/// be redone, nothing is armed, and the entry at the record's position has
/// left the listing.
pub proof fn lemma_deleted_is_recorded(s: AppStateView, op: OperationView)
    requires
        s.wf(),
        s.operations.len() < usize::MAX,
        op matches OperationView::Delete { position, .. } && 0 < position < s.entries.len(),
    ensures
        after_deleted(s, op).operations == s.operations.take(s.history_index as int).push(op),
        after_deleted(s, op).history_index == s.history_index + 1,
        after_deleted(s, op).history_index == after_deleted(s, op).operations.len(),
        redo_effect(after_deleted(s, op)) == EffectView::Nothing,
        after_deleted(s, op).delete_mode.is_none(),
        after_deleted(s, op).entries == s.entries.remove(op->Delete_position as int),
        after_deleted(s, op).entries.len() == s.entries.len() - 1,
        after_deleted(s, op).selected < after_deleted(s, op).entries.len(),
{
}

/// An undo followed by a redo leaves the journal as it was: the redo asks
/// for the forward steps of the very operation whose inverse steps the
/// undo asked for, and afterwards the operations and the cursor are those
/// from before the undo. `undone` and `redone` are the listings read after
/// the one and the other.
pub proof fn lemma_undo_then_redo(
    s: AppStateView,
    undone: Seq<EntryView>,
    redone: Seq<EntryView>,
)
    requires
        0 < s.history_index <= s.operations.len(),
    ensures
        undo_effect(s) == (EffectView::Apply {
            steps: inverse_steps(s.operations[s.history_index - 1]),
            completion: CompletionView::Undone,
        }),
        redo_effect(after_applied(s, CompletionView::Undone, undone)) == (EffectView::Apply {
            steps: forward_steps(s.operations[s.history_index - 1]),
            completion: CompletionView::Redone,
        }),
        after_applied(
            after_applied(s, CompletionView::Undone, undone),
            CompletionView::Redone,
            redone,
        ).operations == s.operations,
        after_applied(
            after_applied(s, CompletionView::Undone, undone),
            CompletionView::Redone,
            redone,
        ).history_index == s.history_index,
        after_applied(
            after_applied(s, CompletionView::Undone, undone),
            CompletionView::Redone,
            redone,
        ).entries == redone,
{
}

/// After a key the selection lies in the listing and, in a terminal with
/// at least one row for entries, inside the window.
pub proof fn lemma_key_keeps_selection_visible(
    s: AppStateView,
    w: Renderer,
    key: KeyEvent,
    height: u16,
)
    requires
        s.wf(),
    ensures
        key_step(s, w, key, height).state.selected < s.entries.len(),
        key_step(s, w, key, height).state.entries == s.entries,
        height > RESERVED_ROWS ==> shows(
            key_step(s, w, key, height).window,
            key_step(s, w, key, height).state.selected,
        ),
{
}

/// After a resize the window shows the selection, in a terminal with at
/// least one row for entries.
pub proof fn lemma_resize_keeps_selection_visible(
    s: AppStateView,
    w: Renderer,
    columns: u16,
    rows: u16,
    height: u16,
)
    requires
        s.wf(),
        rows > RESERVED_ROWS,
    ensures
        shows(
            event_step(s, w, Event::Resize(columns, rows), height).window,
            event_step(s, w, Event::Resize(columns, rows), height).state.selected,
        ),
{
}

/// The parent entry is never asked to be deleted.
pub proof fn lemma_parent_is_never_deleted(s: AppStateView, w: Renderer, event: Event, height: u16)
    requires
        s.wf(),
    ensures
        event_step(s, w, event, height).effect matches EffectView::Delete {
            path,
            is_dir,
            position,
        } ==> 0 < position < s.entries.len() && path == s.entries[position as int].path,
{
}

/// A deletion is asked for only by the delete key on the entry that the
/// delete key has armed before.
pub proof fn lemma_delete_needs_two_steps(s: AppStateView, w: Renderer, event: Event, height: u16)
    requires
        s.wf(),
    ensures
        event_step(s, w, event, height).effect is Delete ==> event == Event::Key(
            KeyEvent { code: KeyCode::Char('d'), control: event->Key_0.control },
        ) && s.delete_mode == Some(s.selected) && s.prompt.mode == Mode::Normal,
{
}

/// Where a path is found, it is found inside the listing.
pub proof fn lemma_find_path(entries: Seq<EntryView>, path: Seq<char>, from: int)
    requires
        0 <= from,
    ensures
        match find_path(entries, path, from) {
            Some(index) => from <= index < entries.len() && entries[index].path == path,
            None => forall|i: int| from <= i < entries.len() ==> entries[i].path != path,
        },
    decreases entries.len() - from,
{
    if from < entries.len() && entries[from].path != path {
        lemma_find_path(entries, path, from + 1);
    }
}

} // verus!

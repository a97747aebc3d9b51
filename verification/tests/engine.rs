use rx::config::Config;
use rx::display::{default_display_modules, Builtin};
use rx::entry::DirChild;
use rx::events::{
    command_for_key, prompt_char_for, Command, Completion, Effect, Event, KeyCode, KeyEvent,
    MouseEvent, MouseEventKind,
};
use rx::file_ops::{prepare_delete_operation, FsStep};
use rx::history::Operation;
use rx::input::InputHandler;
use rx::modes::Mode;
use rx::state::AppState;
use rx::ui::Renderer;

const HEIGHT: u16 = 12;

fn child(path: &str, is_dir: bool) -> DirChild {
    DirChild { path: path.to_string(), is_dir, created: 0, size: 10 }
}

fn children() -> Vec<DirChild> {
    vec![child("/home/u/a.txt", false), child("/home/u/B", true), child("/home/u/c.txt", false)]
}

fn start() -> (AppState<Builtin>, Renderer) {
    let state = AppState::new(
        Config { nerd_fonts: false },
        default_display_modules(false),
        "/home/u".to_string(),
        0,
        &children(),
    );
    (state, Renderer::new(HEIGHT))
}

fn key(code: KeyCode) -> Event {
    Event::Key(KeyEvent { code, control: false })
}

fn press(state: &mut AppState<Builtin>, renderer: &mut Renderer, c: char) -> Effect {
    InputHandler::handle_event(key(KeyCode::Char(c)), state, renderer, HEIGHT)
}

fn type_text(state: &mut AppState<Builtin>, renderer: &mut Renderer, text: &str) {
    for c in text.chars() {
        assert_eq!(press(state, renderer, c), Effect::Nothing);
    }
}

fn names(state: &AppState<Builtin>) -> Vec<String> {
    state.entries.iter().map(|e| e.name.clone()).collect()
}

#[test]
fn state_starts_on_first_entry() {
    let (state, renderer) = start();
    assert_eq!(names(&state), vec!["../", "B/", "a.txt", "c.txt"]);
    assert_eq!(state.selected, 1);
    assert_eq!(state.current_path, "/home/u");
    assert_eq!(state.delete_mode, None);
    assert_eq!(state.history.index, 0);
    assert!(!state.prompt.is_active());
    assert_eq!(renderer.get_viewport_start(), 0);
    assert_eq!(renderer.get_viewport_size(), 10);
}

#[test]
fn state_of_empty_directory_selects_parent() {
    let state = AppState::new(
        Config { nerd_fonts: true },
        default_display_modules(true),
        "/home/u".to_string(),
        0,
        &Vec::new(),
    );
    assert_eq!(state.entries.len(), 1);
    assert_eq!(state.selected, 0);
}

#[test]
fn display_cache_has_row_per_entry_and_widths_without_parent_row() {
    let (state, _) = start();
    assert_eq!(state.modules_cache.len(), 4);
    for row in &state.modules_cache {
        assert_eq!(row.len(), 5);
    }
    assert_eq!(state.modules_cache[0][0], "../");
    assert_eq!(state.modules_cache[1][0], "B/");
    assert_eq!(state.modules_cache[2][0], "a.txt");
    assert_eq!(state.modules_cache[2][3], " 10  B");
    assert_eq!(state.modules_cache[1][3], "");
    assert_eq!(state.modules_cache[2][2], "Thu Jan  1 00:00:00 1970");
    assert_eq!(state.max_widths, vec![5, 2, 24, 6, 2]);
}

#[test]
fn display_cache_ignores_a_wide_parent_row() {
    let state = AppState::new(
        Config { nerd_fonts: false },
        vec![Builtin::Name],
        "/home/u".to_string(),
        0,
        &vec![child("/home/u/x", false)],
    );
    assert_eq!(state.modules_cache[0][0], "../");
    assert_eq!(state.max_widths, vec![1]);
}

#[test]
fn moving_stays_inside_the_listing() {
    let (mut state, mut renderer) = start();
    assert_eq!(press(&mut state, &mut renderer, 'j'), Effect::Nothing);
    assert_eq!(state.selected, 2);
    press(&mut state, &mut renderer, 'j');
    press(&mut state, &mut renderer, 'j');
    press(&mut state, &mut renderer, 'j');
    assert_eq!(state.selected, 3);
    InputHandler::handle_event(key(KeyCode::Up), &mut state, &mut renderer, HEIGHT);
    assert_eq!(state.selected, 2);
    press(&mut state, &mut renderer, 'g');
    assert_eq!(state.selected, 0);
    press(&mut state, &mut renderer, 'k');
    assert_eq!(state.selected, 0);
    press(&mut state, &mut renderer, 'G');
    assert_eq!(state.selected, 3);
    InputHandler::handle_event(key(KeyCode::Home), &mut state, &mut renderer, HEIGHT);
    assert_eq!(state.selected, 0);
    InputHandler::handle_event(key(KeyCode::End), &mut state, &mut renderer, HEIGHT);
    assert_eq!(state.selected, 3);
    InputHandler::handle_event(key(KeyCode::Down), &mut state, &mut renderer, HEIGHT);
    assert_eq!(state.selected, 3);
}

#[test]
fn delete_needs_two_presses_on_the_same_entry() {
    let (mut state, mut renderer) = start();
    press(&mut state, &mut renderer, 'j');
    assert_eq!(press(&mut state, &mut renderer, 'd'), Effect::Nothing);
    assert_eq!(state.delete_mode, Some(2));
    assert_eq!(names(&state).len(), 4);
    let effect = press(&mut state, &mut renderer, 'd');
    assert_eq!(
        effect,
        Effect::Delete { path: "/home/u/a.txt".to_string(), is_dir: false, position: 2 }
    );
    assert_eq!(state.history.index, 0);
    assert_eq!(names(&state).len(), 4);
}

#[test]
fn any_other_key_disarms_the_deletion() {
    let (mut state, mut renderer) = start();
    press(&mut state, &mut renderer, 'd');
    assert_eq!(state.delete_mode, Some(1));
    press(&mut state, &mut renderer, 'j');
    assert_eq!(state.delete_mode, None);
    assert_eq!(press(&mut state, &mut renderer, 'd'), Effect::Nothing);
    assert_eq!(state.delete_mode, Some(2));
    let click = Event::Mouse(MouseEvent { kind: MouseEventKind::Other, row: 0 });
    InputHandler::handle_event(click, &mut state, &mut renderer, HEIGHT);
    assert_eq!(state.delete_mode, None);
}

#[test]
fn the_parent_entry_is_never_deleted() {
    let (mut state, mut renderer) = start();
    press(&mut state, &mut renderer, 'g');
    assert_eq!(press(&mut state, &mut renderer, 'd'), Effect::Nothing);
    assert_eq!(state.delete_mode, None);
    assert_eq!(press(&mut state, &mut renderer, 'd'), Effect::Nothing);
}

#[test]
fn deleted_records_and_removes_the_entry() {
    let (mut state, mut renderer) = start();
    press(&mut state, &mut renderer, 'G');
    press(&mut state, &mut renderer, 'd');
    let effect = press(&mut state, &mut renderer, 'd');
    assert_eq!(
        effect,
        Effect::Delete { path: "/home/u/c.txt".to_string(), is_dir: false, position: 3 }
    );
    let op = prepare_delete_operation("/home/u/c.txt", false, 3, Some(vec![1, 2]), None).unwrap();
    InputHandler::deleted(&mut state, &mut renderer, op, HEIGHT);
    assert_eq!(names(&state), vec!["../", "B/", "a.txt"]);
    assert_eq!(state.selected, 2);
    assert_eq!(state.delete_mode, None);
    assert_eq!(state.history.index, 1);
    assert_eq!(state.modules_cache.len(), 3);
}

#[test]
fn create_directory_then_undo_then_redo() {
    let (mut state, mut renderer) = start();
    press(&mut state, &mut renderer, 'g');
    assert_eq!(state.selected, 0);
    assert_eq!(press(&mut state, &mut renderer, 'a'), Effect::Nothing);
    assert_eq!(*state.prompt.get_mode(), Mode::Create);
    type_text(&mut state, &mut renderer, "newdir/");
    assert_eq!(state.prompt.get_query(), "newdir/");
    let effect = InputHandler::handle_event(key(KeyCode::Enter), &mut state, &mut renderer, HEIGHT);
    let op = Operation::Create { path: "/home/u/newdir/".to_string(), is_dir: true };
    assert_eq!(
        effect,
        Effect::Apply {
            steps: vec![FsStep::CreateDir("/home/u/newdir/".to_string())],
            completion: Completion::Created(op.clone()),
        }
    );
    assert!(!state.prompt.is_active());
    assert_eq!(state.history.index, 0);

    let mut after = children();
    after.push(child("/home/u/newdir", true));
    InputHandler::applied(
        &mut state,
        &mut renderer,
        Completion::Created(op.clone()),
        0,
        &after,
        HEIGHT,
    );
    assert_eq!(state.history.operations, vec![op]);
    assert_eq!(state.history.index, 1);
    assert_eq!(names(&state), vec!["../", "B/", "newdir/", "a.txt", "c.txt"]);
    assert_eq!(state.selected, 4);

    let effect = press(&mut state, &mut renderer, 'u');
    assert_eq!(
        effect,
        Effect::Apply {
            steps: vec![FsStep::RemoveDirAll("/home/u/newdir/".to_string())],
            completion: Completion::Undone,
        }
    );
    assert_eq!(state.history.index, 1);
    InputHandler::applied(&mut state, &mut renderer, Completion::Undone, 0, &children(), HEIGHT);
    assert_eq!(state.history.index, 0);
    assert_eq!(names(&state), vec!["../", "B/", "a.txt", "c.txt"]);
    assert_eq!(state.selected, 3);
    assert!(state.is_valid());
    assert_eq!(press(&mut state, &mut renderer, 'u'), Effect::Nothing);

    let redo = Event::Key(KeyEvent { code: KeyCode::Char('r'), control: true });
    let effect = InputHandler::handle_event(redo, &mut state, &mut renderer, HEIGHT);
    assert_eq!(
        effect,
        Effect::Apply {
            steps: vec![FsStep::CreateDir("/home/u/newdir/".to_string())],
            completion: Completion::Redone,
        }
    );
    InputHandler::applied(&mut state, &mut renderer, Completion::Redone, 0, &after, HEIGHT);
    assert_eq!(state.history.index, 1);
    assert_eq!(names(&state), vec!["../", "B/", "newdir/", "a.txt", "c.txt"]);
    let effect = InputHandler::handle_event(redo, &mut state, &mut renderer, HEIGHT);
    assert_eq!(effect, Effect::Nothing);
}

#[test]
fn undo_of_a_deletion_selects_what_came_back() {
    let (mut state, mut renderer) = start();
    press(&mut state, &mut renderer, 'G');
    press(&mut state, &mut renderer, 'd');
    press(&mut state, &mut renderer, 'd');
    let op = prepare_delete_operation("/home/u/c.txt", false, 3, Some(vec![5]), None).unwrap();
    InputHandler::deleted(&mut state, &mut renderer, op, HEIGHT);
    press(&mut state, &mut renderer, 'g');
    let effect = press(&mut state, &mut renderer, 'u');
    assert_eq!(
        effect,
        Effect::Apply {
            steps: vec![
                FsStep::EnsureDir("/home/u".to_string()),
                FsStep::WriteFile("/home/u/c.txt".to_string(), vec![5]),
            ],
            completion: Completion::Undone,
        }
    );
    InputHandler::applied(&mut state, &mut renderer, Completion::Undone, 0, &children(), HEIGHT);
    assert_eq!(state.selected, 3);
    assert_eq!(state.entries[3].path, "/home/u/c.txt");
    assert_eq!(state.history.index, 0);
    assert_eq!(state.history.operations.len(), 1);
}

#[test]
fn rename_prompt_is_prefilled_and_records() {
    let (mut state, mut renderer) = start();
    press(&mut state, &mut renderer, 'j');
    assert_eq!(press(&mut state, &mut renderer, 'r'), Effect::Nothing);
    assert_eq!(*state.prompt.get_mode(), Mode::Rename);
    assert_eq!(state.prompt.get_query(), "a.txt");
    let unchanged =
        InputHandler::handle_event(key(KeyCode::Enter), &mut state, &mut renderer, HEIGHT);
    assert_eq!(unchanged, Effect::Nothing);
    assert!(!state.prompt.is_active());
    assert_eq!(state.history.index, 0);

    press(&mut state, &mut renderer, 'r');
    InputHandler::handle_event(key(KeyCode::Backspace), &mut state, &mut renderer, HEIGHT);
    type_text(&mut state, &mut renderer, "d");
    let effect = InputHandler::handle_event(key(KeyCode::Enter), &mut state, &mut renderer, HEIGHT);
    let op = Operation::Rename {
        old_path: "/home/u/a.txt".to_string(),
        new_path: "/home/u/a.txd".to_string(),
    };
    assert_eq!(
        effect,
        Effect::Apply {
            steps: vec![FsStep::Rename("/home/u/a.txt".to_string(), "/home/u/a.txd".to_string())],
            completion: Completion::Renamed(op.clone()),
        }
    );
    let after = vec![
        child("/home/u/a.txd", false),
        child("/home/u/B", true),
        child("/home/u/c.txt", false),
    ];
    InputHandler::applied(&mut state, &mut renderer, Completion::Renamed(op), 0, &after, HEIGHT);
    assert_eq!(names(&state), vec!["../", "B/", "a.txd", "c.txt"]);
    assert_eq!(state.selected, 2);
    assert_eq!(state.history.index, 1);
}

#[test]
fn rename_is_not_offered_on_the_parent_entry() {
    let (mut state, mut renderer) = start();
    press(&mut state, &mut renderer, 'g');
    press(&mut state, &mut renderer, 'r');
    assert!(!state.prompt.is_active());
}

#[test]
fn escape_leaves_the_prompt_without_effect() {
    let (mut state, mut renderer) = start();
    press(&mut state, &mut renderer, 'a');
    type_text(&mut state, &mut renderer, "half");
    let effect = InputHandler::handle_event(key(KeyCode::Esc), &mut state, &mut renderer, HEIGHT);
    assert_eq!(effect, Effect::Nothing);
    assert!(!state.prompt.is_active());
    assert_eq!(state.prompt.get_query(), "");
    assert_eq!(state.history.index, 0);
}

#[test]
fn search_selects_and_next_match_cycles() {
    let (mut state, mut renderer) = start();
    press(&mut state, &mut renderer, '/');
    assert_eq!(*state.prompt.get_mode(), Mode::Search);
    type_text(&mut state, &mut renderer, "txt");
    assert_eq!(state.selected, 1);
    assert!(state.prompt.is_match(2));
    InputHandler::handle_event(key(KeyCode::Enter), &mut state, &mut renderer, HEIGHT);
    assert_eq!(state.selected, 2);
    assert!(!state.prompt.is_active());
    press(&mut state, &mut renderer, 'n');
    assert_eq!(state.selected, 3);
    press(&mut state, &mut renderer, 'n');
    assert_eq!(state.selected, 2);
}

#[test]
fn search_without_match_keeps_the_selection() {
    let (mut state, mut renderer) = start();
    press(&mut state, &mut renderer, 'j');
    press(&mut state, &mut renderer, '/');
    type_text(&mut state, &mut renderer, "qqq");
    InputHandler::handle_event(key(KeyCode::Enter), &mut state, &mut renderer, HEIGHT);
    assert_eq!(state.selected, 2);
    assert!(!state.prompt.is_active());
    press(&mut state, &mut renderer, 'n');
    assert_eq!(state.selected, 2);
}

#[test]
fn activate_enters_directories_and_opens_files() {
    let (mut state, mut renderer) = start();
    let effect = InputHandler::handle_event(key(KeyCode::Enter), &mut state, &mut renderer, HEIGHT);
    assert_eq!(effect, Effect::ChangeDir("/home/u/B".to_string()));
    press(&mut state, &mut renderer, 'j');
    let effect = InputHandler::handle_event(key(KeyCode::Right), &mut state, &mut renderer, HEIGHT);
    assert_eq!(effect, Effect::OpenFile("/home/u/a.txt".to_string()));
    press(&mut state, &mut renderer, 'g');
    let effect = InputHandler::handle_event(key(KeyCode::Enter), &mut state, &mut renderer, HEIGHT);
    assert_eq!(effect, Effect::ChangeDir("/home/u/..".to_string()));
}

#[test]
fn back_goes_to_the_parent_directory() {
    let (mut state, mut renderer) = start();
    assert_eq!(press(&mut state, &mut renderer, 'b'), Effect::ChangeDir("/home".to_string()));
    let effect = InputHandler::handle_event(key(KeyCode::Left), &mut state, &mut renderer, HEIGHT);
    assert_eq!(effect, Effect::ChangeDir("/home".to_string()));
    let effect =
        InputHandler::handle_event(key(KeyCode::Backspace), &mut state, &mut renderer, HEIGHT);
    assert_eq!(effect, Effect::ChangeDir("/home".to_string()));
    state.current_path = "/".to_string();
    assert_eq!(press(&mut state, &mut renderer, 'b'), Effect::Nothing);
}

#[test]
fn quit_reports_the_current_directory() {
    let (mut state, mut renderer) = start();
    assert_eq!(press(&mut state, &mut renderer, 'q'), Effect::Quit("/home/u".to_string()));
}

#[test]
fn entered_takes_over_the_new_directory() {
    let (mut state, mut renderer) = start();
    press(&mut state, &mut renderer, 'G');
    renderer.viewport_start = 2;
    InputHandler::entered(
        &mut state,
        &mut renderer,
        "/home/u/B".to_string(),
        5,
        &vec![child("/home/u/B/inner", false)],
        HEIGHT,
    );
    assert_eq!(state.current_path, "/home/u/B");
    assert_eq!(names(&state), vec!["../", "inner"]);
    assert_eq!(state.entries[0].path, "/home/u/B/..");
    assert_eq!(state.entries[0].created, 5);
    assert_eq!(state.selected, 1);
    assert_eq!(renderer.get_viewport_start(), 0);
    InputHandler::entered(&mut state, &mut renderer, "/empty".to_string(), 0, &Vec::new(), HEIGHT);
    assert_eq!(state.selected, 0);
}

#[test]
fn viewport_follows_the_selection() {
    let many: Vec<DirChild> = (0..30).map(|i| child(&format!("/d/f{:02}", i), false)).collect();
    let mut state = AppState::new(
        Config { nerd_fonts: false },
        default_display_modules(false),
        "/d".to_string(),
        0,
        &many,
    );
    let mut renderer = Renderer::new(7);
    for _ in 0..10 {
        InputHandler::handle_event(key(KeyCode::Down), &mut state, &mut renderer, 7);
        let start = renderer.get_viewport_start();
        assert!(start <= state.selected && state.selected < start + renderer.get_viewport_size());
    }
    assert_eq!(state.selected, 11);
    assert_eq!(renderer.get_viewport_size(), 5);
    assert_eq!(renderer.get_viewport_start(), 7);
    InputHandler::handle_event(key(KeyCode::Home), &mut state, &mut renderer, 7);
    assert_eq!(renderer.get_viewport_start(), 0);
    InputHandler::handle_event(key(KeyCode::End), &mut state, &mut renderer, 7);
    assert_eq!(state.selected, 30);
    assert_eq!(renderer.get_viewport_start(), 26);
    InputHandler::handle_event(Event::Resize(80, 40), &mut state, &mut renderer, 7);
    assert_eq!(renderer.get_viewport_size(), 38);
    assert_eq!(renderer.get_viewport_start(), 0);
}

#[test]
fn mouse_wheel_moves_the_window_and_drags_the_selection() {
    let many: Vec<DirChild> = (0..30).map(|i| child(&format!("/d/f{:02}", i), false)).collect();
    let mut state = AppState::new(
        Config { nerd_fonts: false },
        default_display_modules(false),
        "/d".to_string(),
        0,
        &many,
    );
    let mut renderer = Renderer::new(7);
    let wheel = |kind| Event::Mouse(MouseEvent { kind, row: 0 });
    InputHandler::handle_event(wheel(MouseEventKind::ScrollDown), &mut state, &mut renderer, 7);
    assert_eq!(renderer.get_viewport_start(), 1);
    assert_eq!(state.selected, 1);
    InputHandler::handle_event(wheel(MouseEventKind::ScrollDown), &mut state, &mut renderer, 7);
    assert_eq!(renderer.get_viewport_start(), 2);
    assert_eq!(state.selected, 2);
    InputHandler::handle_event(key(KeyCode::End), &mut state, &mut renderer, 7);
    assert_eq!(renderer.get_viewport_start(), 26);
    InputHandler::handle_event(wheel(MouseEventKind::ScrollDown), &mut state, &mut renderer, 7);
    assert_eq!(renderer.get_viewport_start(), 26);
    InputHandler::handle_event(wheel(MouseEventKind::ScrollUp), &mut state, &mut renderer, 7);
    assert_eq!(renderer.get_viewport_start(), 25);
    assert_eq!(state.selected, 29);
    InputHandler::handle_event(key(KeyCode::Home), &mut state, &mut renderer, 7);
    InputHandler::handle_event(wheel(MouseEventKind::ScrollUp), &mut state, &mut renderer, 7);
    assert_eq!(renderer.get_viewport_start(), 0);
    assert_eq!(state.selected, 0);
}

#[test]
fn click_selects_and_second_click_activates() {
    let (mut state, mut renderer) = start();
    let click = |row| Event::Mouse(MouseEvent { kind: MouseEventKind::LeftDown, row });
    assert_eq!(
        InputHandler::handle_event(click(3), &mut state, &mut renderer, HEIGHT),
        Effect::Nothing
    );
    assert_eq!(state.selected, 3);
    assert_eq!(
        InputHandler::handle_event(click(3), &mut state, &mut renderer, HEIGHT),
        Effect::OpenFile("/home/u/c.txt".to_string())
    );
    assert_eq!(
        InputHandler::handle_event(click(9), &mut state, &mut renderer, HEIGHT),
        Effect::Nothing
    );
    assert_eq!(state.selected, 3);
    InputHandler::handle_event(click(1), &mut state, &mut renderer, HEIGHT);
    assert_eq!(
        InputHandler::handle_event(click(1), &mut state, &mut renderer, HEIGHT),
        Effect::ChangeDir("/home/u/B".to_string())
    );
}

#[test]
fn other_events_change_nothing() {
    let (mut state, mut renderer) = start();
    let effect = InputHandler::handle_event(Event::Other, &mut state, &mut renderer, HEIGHT);
    assert_eq!(effect, Effect::Nothing);
    let effect = InputHandler::handle_event(key(KeyCode::Other), &mut state, &mut renderer, HEIGHT);
    assert_eq!(effect, Effect::Nothing);
    assert_eq!(state.selected, 1);
}

#[test]
fn keys_map_to_commands() {
    let plain = |code| KeyEvent { code, control: false };
    assert_eq!(command_for_key(plain(KeyCode::Char('/'))), Some(Command::BeginSearch));
    assert_eq!(command_for_key(plain(KeyCode::Char('n'))), Some(Command::NextMatch));
    assert_eq!(command_for_key(plain(KeyCode::Char('a'))), Some(Command::BeginCreate));
    assert_eq!(command_for_key(plain(KeyCode::Char('r'))), Some(Command::BeginRename));
    assert_eq!(
        command_for_key(KeyEvent { code: KeyCode::Char('r'), control: true }),
        Some(Command::Redo)
    );
    assert_eq!(command_for_key(plain(KeyCode::Char('q'))), Some(Command::Quit));
    assert_eq!(command_for_key(plain(KeyCode::Char('j'))), Some(Command::MoveDown));
    assert_eq!(command_for_key(plain(KeyCode::Down)), Some(Command::MoveDown));
    assert_eq!(command_for_key(plain(KeyCode::Char('k'))), Some(Command::MoveUp));
    assert_eq!(command_for_key(plain(KeyCode::Up)), Some(Command::MoveUp));
    assert_eq!(command_for_key(plain(KeyCode::Char('G'))), Some(Command::GoToBottom));
    assert_eq!(command_for_key(plain(KeyCode::End)), Some(Command::GoToBottom));
    assert_eq!(command_for_key(plain(KeyCode::Char('g'))), Some(Command::GoToTop));
    assert_eq!(command_for_key(plain(KeyCode::Home)), Some(Command::GoToTop));
    assert_eq!(command_for_key(plain(KeyCode::Char('d'))), Some(Command::Delete));
    assert_eq!(command_for_key(plain(KeyCode::Char('u'))), Some(Command::Undo));
    assert_eq!(command_for_key(plain(KeyCode::Enter)), Some(Command::Activate));
    assert_eq!(command_for_key(plain(KeyCode::Right)), Some(Command::Activate));
    assert_eq!(command_for_key(plain(KeyCode::Left)), Some(Command::GoBack));
    assert_eq!(command_for_key(plain(KeyCode::Char('b'))), Some(Command::GoBack));
    assert_eq!(command_for_key(plain(KeyCode::Backspace)), Some(Command::GoBack));
    assert_eq!(command_for_key(plain(KeyCode::Esc)), None);
    assert_eq!(command_for_key(plain(KeyCode::Char('x'))), None);
    assert_eq!(command_for_key(plain(KeyCode::Other)), None);
}

#[test]
fn keys_map_to_prompt_characters() {
    assert_eq!(prompt_char_for(KeyCode::Enter), Some('\n'));
    assert_eq!(prompt_char_for(KeyCode::Backspace), Some('\x7f'));
    assert_eq!(prompt_char_for(KeyCode::Char('d')), Some('d'));
    assert_eq!(prompt_char_for(KeyCode::Esc), None);
    assert_eq!(prompt_char_for(KeyCode::Up), None);
}

#[test]
fn typing_d_in_a_prompt_is_text() {
    let (mut state, mut renderer) = start();
    press(&mut state, &mut renderer, 'a');
    type_text(&mut state, &mut renderer, "dd");
    assert_eq!(state.prompt.get_query(), "dd");
    assert_eq!(state.delete_mode, None);
}

#[test]
fn state_validity_is_checked() {
    let (mut state, mut renderer) = start();
    assert!(state.is_valid());
    press(&mut state, &mut renderer, '/');
    type_text(&mut state, &mut renderer, "t");
    assert!(state.is_valid());
    InputHandler::handle_event(key(KeyCode::Enter), &mut state, &mut renderer, HEIGHT);
    assert!(state.is_valid());

    let (mut broken, _) = start();
    broken.selected = 4;
    assert!(!broken.is_valid());
    let (mut broken, _) = start();
    broken.history.index = 1;
    assert!(!broken.is_valid());
    let (mut broken, _) = start();
    broken.max_widths[0] = 99;
    assert!(!broken.is_valid());
    let (mut broken, _) = start();
    broken.modules_cache.pop();
    assert!(!broken.is_valid());
    let (mut broken, _) = start();
    broken.modules_cache[1].pop();
    assert!(!broken.is_valid());
    let (mut broken, _) = start();
    broken.entries[0].name = "..".to_string();
    assert!(!broken.is_valid());
    let (mut broken, _) = start();
    broken.entries.clear();
    assert!(!broken.is_valid());
    let (mut broken, _) = start();
    broken.history.operations.push(Operation::Delete {
        path: "/home/u/a.txt".to_string(),
        is_dir: false,
        content: None,
        position: 2,
        dir_backup: None,
    });
    assert!(!broken.is_valid());
}

#[test]
fn completions_are_checked() {
    assert!(Completion::Undone.is_valid());
    assert!(Completion::Redone.is_valid());
    let create = Operation::Create { path: "/home/u/n".to_string(), is_dir: false };
    assert!(Completion::Created(create).is_valid());
    let bare = Operation::Delete {
        path: "/home/u/a.txt".to_string(),
        is_dir: false,
        content: None,
        position: 2,
        dir_backup: None,
    };
    assert!(!Completion::Renamed(bare).is_valid());
}

#[test]
fn search_on_an_empty_query_selects_nothing() {
    let (mut state, mut renderer) = start();
    press(&mut state, &mut renderer, 'j');
    press(&mut state, &mut renderer, '/');
    let effect = InputHandler::handle_event(key(KeyCode::Enter), &mut state, &mut renderer, HEIGHT);
    assert_eq!(effect, Effect::Nothing);
    assert_eq!(state.selected, 2);
    assert!(!state.prompt.is_active());
    assert!(state.prompt.get_matches().is_empty());
    press(&mut state, &mut renderer, 'n');
    assert_eq!(state.selected, 2);
}

#[test]
fn a_failed_effect_leaves_the_journal_alone() {
    let (mut state, mut renderer) = start();
    press(&mut state, &mut renderer, 'a');
    type_text(&mut state, &mut renderer, "x");
    let effect = InputHandler::handle_event(key(KeyCode::Enter), &mut state, &mut renderer, HEIGHT);
    assert!(matches!(effect, Effect::Apply { .. }));
    assert_eq!(state.history.index, 0);
    assert!(state.history.operations.is_empty());
    assert_eq!(names(&state), vec!["../", "B/", "a.txt", "c.txt"]);
    assert!(!state.prompt.is_active());
    assert_eq!(press(&mut state, &mut renderer, 'u'), Effect::Nothing);
}

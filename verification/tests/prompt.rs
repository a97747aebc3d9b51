use rx::entry::{DirChild, Entry};
use rx::history::Operation;
use rx::listing::read_dir_entries;
use rx::modes::{Mode, ModeAction};
use rx::prompt::{find_matches, Prompt};
use rx::search::SearchState;

fn sample() -> Vec<Entry> {
    let child = |p: &str, d: bool| DirChild { path: p.to_string(), is_dir: d, created: 0, size: 0 };
    read_dir_entries(
        "/home/u",
        0,
        &vec![
            child("/home/u/a.txt", false),
            child("/home/u/B", true),
            child("/home/u/c.txt", false),
            child("/home/u/Build.rs", false),
        ],
    )
}

fn type_text(prompt: &mut Prompt, text: &str, entries: &Vec<Entry>) {
    for c in text.chars() {
        let action = prompt.handle_input(c, entries, "/home/u", Some("/home/u/a.txt"));
        assert!(action.is_none());
    }
}

#[test]
fn prompt_starts_idle() {
    let prompt = Prompt::new();
    assert!(!prompt.is_active());
    assert_eq!(*prompt.get_mode(), Mode::Normal);
    assert_eq!(prompt.get_query(), "");
    assert!(prompt.get_matches().is_empty());
    assert_eq!(prompt.get_prompt_prefix(), "");
}

#[test]
fn prompt_validity_holds_along_the_way() {
    let entries = sample();
    let mut prompt = Prompt::new();
    assert!(prompt.is_valid());
    prompt.set_mode(Mode::Search);
    type_text(&mut prompt, "t", &entries);
    assert!(prompt.is_valid());
    let _ = prompt.handle_input('\n', &entries, "/home/u", None);
    assert!(prompt.is_valid());
    let _ = prompt.next_match();
    assert!(prompt.is_valid());
}

#[test]
fn prompt_prefixes() {
    let mut prompt = Prompt::new();
    prompt.set_mode(Mode::Search);
    assert_eq!(prompt.get_prompt_prefix(), "Search: ");
    prompt.set_mode(Mode::Create);
    assert_eq!(prompt.get_prompt_prefix(), "Create: ");
    prompt.set_mode(Mode::Rename);
    assert_eq!(prompt.get_prompt_prefix(), "Rename: ");
    assert!(prompt.is_active());
}

#[test]
fn normal_mode_takes_no_keys() {
    let entries = sample();
    let mut prompt = Prompt::new();
    let action = prompt.handle_input('x', &entries, "/home/u", Some("/home/u/a.txt"));
    assert!(action.is_none());
    assert_eq!(prompt.get_query(), "");
    assert_eq!(*prompt.get_mode(), Mode::Normal);
}

#[test]
fn search_finds_by_lowercase_name() {
    let entries = sample();
    assert_eq!(find_matches(&entries, "B"), vec![1, 3]);
    assert_eq!(find_matches(&entries, "b"), vec![1, 3]);
    assert_eq!(find_matches(&entries, "TXT"), vec![2, 4]);
    assert_eq!(find_matches(&entries, "nothing"), Vec::<usize>::new());
    assert_eq!(find_matches(&entries, "b/"), vec![1]);
}

#[test]
fn search_never_matches_the_parent_entry() {
    let entries = sample();
    assert_eq!(find_matches(&entries, ".."), Vec::<usize>::new());
    assert_eq!(find_matches(&entries, "/"), vec![1]);
}

#[test]
fn search_full_name_is_found() {
    let entries = sample();
    for i in 1..entries.len() {
        assert!(find_matches(&entries, &entries[i].name).contains(&i));
    }
}

#[test]
fn search_finds_a_directory_by_its_bare_name_in_any_case() {
    let entries = sample();
    assert_eq!(find_matches(&entries, "B"), vec![1, 3]);
    assert!(find_matches(&entries, "b").contains(&1));
    assert!(find_matches(&entries, "BUILD.RS").contains(&3));
    assert!(find_matches(&entries, "A.TXT").contains(&2));
    assert!(find_matches(&entries, "c.TxT").contains(&4));
}

#[test]
fn empty_query_matches_nothing() {
    let entries = sample();
    assert_eq!(find_matches(&entries, ""), Vec::<usize>::new());
    let mut prompt = Prompt::new();
    prompt.set_mode(Mode::Search);
    prompt.update_matches(&entries);
    assert!(prompt.get_matches().is_empty());
    assert!(!prompt.is_match(1));
    assert_eq!(prompt.next_match(), None);
    let action = prompt.handle_input('\n', &entries, "/home/u", None);
    assert_eq!(action, Some(ModeAction::Exit));
    assert!(prompt.get_matches().is_empty());
}

#[test]
fn deleting_the_last_character_of_a_search_clears_the_matches() {
    let entries = sample();
    let mut prompt = Prompt::new();
    prompt.set_mode(Mode::Search);
    type_text(&mut prompt, "t", &entries);
    assert_eq!(prompt.get_matches(), &vec![2, 4]);
    let _ = prompt.handle_input('\x7f', &entries, "/home/u", None);
    assert_eq!(prompt.get_query(), "");
    assert!(prompt.get_matches().is_empty());
}

#[test]
fn search_state_on_an_empty_query_finds_nothing() {
    let entries = sample();
    let mut s = SearchState::new();
    s.enter_search_mode();
    assert_eq!(s.handle_input('\n', &entries), None);
    assert!(s.matches.is_empty());
    s.update_matches(&entries);
    assert!(s.matches.is_empty());
}

#[test]
fn search_starts_without_matches() {
    let mut prompt = Prompt::new();
    prompt.set_mode(Mode::Search);
    assert_eq!(prompt.get_query(), "");
    assert!(prompt.get_matches().is_empty());
}

#[test]
fn search_in_parent_only_listing_finds_nothing() {
    let entries = read_dir_entries("/home/u", 0, &Vec::new());
    assert!(find_matches(&entries, "").is_empty());
    assert!(find_matches(&entries, "a").is_empty());
}

#[test]
fn search_follows_each_key() {
    let entries = sample();
    let mut prompt = Prompt::new();
    prompt.set_mode(Mode::Search);
    type_text(&mut prompt, "b", &entries);
    assert_eq!(prompt.get_matches(), &vec![1, 3]);
    assert!(prompt.is_match(1));
    assert!(prompt.is_match(3));
    assert!(!prompt.is_match(2));
    type_text(&mut prompt, "u", &entries);
    assert_eq!(prompt.get_matches(), &vec![3]);
    let none = prompt.handle_input('\x7f', &entries, "/home/u", None);
    assert!(none.is_none());
    assert_eq!(prompt.get_query(), "b");
    assert_eq!(prompt.get_matches(), &vec![1, 3]);
    let none = prompt.handle_input('\x08', &entries, "/home/u", None);
    assert!(none.is_none());
    assert_eq!(prompt.get_query(), "");
}

#[test]
fn search_enter_selects_first_match() {
    let entries = sample();
    let mut prompt = Prompt::new();
    prompt.set_mode(Mode::Search);
    type_text(&mut prompt, "txt", &entries);
    let action = prompt.handle_input('\n', &entries, "/home/u", None);
    assert_eq!(action, Some(ModeAction::Select(2)));
    assert_eq!(*prompt.get_mode(), Mode::Normal);
    assert_eq!(prompt.get_query(), "");
    assert_eq!(prompt.get_matches(), &vec![2, 4]);
    assert!(!prompt.is_match(2));
}

#[test]
fn search_without_match_exits() {
    let entries = sample();
    let mut prompt = Prompt::new();
    prompt.set_mode(Mode::Search);
    type_text(&mut prompt, "zzz", &entries);
    let action = prompt.handle_input('\n', &entries, "/home/u", None);
    assert_eq!(action, Some(ModeAction::Exit));
    assert_eq!(*prompt.get_mode(), Mode::Normal);
    assert!(prompt.get_matches().is_empty());
}

#[test]
fn next_match_wraps_around() {
    let entries = sample();
    let mut prompt = Prompt::new();
    assert_eq!(prompt.next_match(), None);
    prompt.set_mode(Mode::Search);
    type_text(&mut prompt, "t", &entries);
    let _ = prompt.handle_input('\n', &entries, "/home/u", None);
    assert_eq!(prompt.get_matches(), &vec![2, 4]);
    assert_eq!(prompt.next_match(), Some(4));
    assert_eq!(prompt.next_match(), Some(2));
    assert_eq!(prompt.next_match(), Some(4));
}

#[test]
fn create_file_action() {
    let entries = sample();
    let mut prompt = Prompt::new();
    prompt.set_mode(Mode::Create);
    type_text(&mut prompt, "notes.md", &entries);
    let action = prompt.handle_input('\n', &entries, "/home/u", None);
    assert_eq!(
        action,
        Some(ModeAction::CreateEntry(Operation::Create {
            path: "/home/u/notes.md".to_string(),
            is_dir: false,
        }))
    );
    assert_eq!(*prompt.get_mode(), Mode::Normal);
    assert_eq!(prompt.get_query(), "");
}

#[test]
fn create_directory_action() {
    let entries = sample();
    let mut prompt = Prompt::new();
    prompt.set_mode(Mode::Create);
    type_text(&mut prompt, "newdir/", &entries);
    let action = prompt.handle_input('\n', &entries, "/home/u", None);
    assert_eq!(
        action,
        Some(ModeAction::CreateEntry(Operation::Create {
            path: "/home/u/newdir/".to_string(),
            is_dir: true,
        }))
    );
}

#[test]
fn create_empty_query_cancels() {
    let entries = sample();
    let mut prompt = Prompt::new();
    prompt.set_mode(Mode::Create);
    let action = prompt.handle_input('\n', &entries, "/home/u", None);
    assert_eq!(action, Some(ModeAction::Exit));
    assert_eq!(*prompt.get_mode(), Mode::Normal);
}

#[test]
fn create_backspace_removes_last_character() {
    let entries = sample();
    let mut prompt = Prompt::new();
    prompt.set_mode(Mode::Create);
    type_text(&mut prompt, "ab", &entries);
    let _ = prompt.handle_input('\x7f', &entries, "/home/u", None);
    assert_eq!(prompt.get_query(), "a");
    let _ = prompt.handle_input('\x7f', &entries, "/home/u", None);
    let _ = prompt.handle_input('\x7f', &entries, "/home/u", None);
    assert_eq!(prompt.get_query(), "");
    assert_eq!(*prompt.get_mode(), Mode::Create);
}

#[test]
fn rename_same_name_records_nothing() {
    let entries = sample();
    let mut prompt = Prompt::new();
    prompt.set_mode_with_text(Mode::Rename, "old.txt");
    assert_eq!(prompt.get_query(), "old.txt");
    let action = prompt.handle_input('\n', &entries, "/home/u", Some("/home/u/old.txt"));
    assert_eq!(action, Some(ModeAction::Exit));
    assert_eq!(*prompt.get_mode(), Mode::Normal);
}

#[test]
fn rename_of_directory_with_its_shown_name_records_nothing() {
    let entries = sample();
    let mut prompt = Prompt::new();
    prompt.set_mode_with_text(Mode::Rename, "B/");
    let action = prompt.handle_input('\n', &entries, "/home/u", Some("/home/u/B"));
    assert_eq!(action, Some(ModeAction::Exit));
}

#[test]
fn rename_gives_operation() {
    let entries = sample();
    let mut prompt = Prompt::new();
    prompt.set_mode_with_text(Mode::Rename, "a.txt");
    let _ = prompt.handle_input('\x7f', &entries, "/home/u", Some("/home/u/a.txt"));
    let _ = prompt.handle_input('\x7f', &entries, "/home/u", Some("/home/u/a.txt"));
    let _ = prompt.handle_input('\x7f', &entries, "/home/u", Some("/home/u/a.txt"));
    type_text(&mut prompt, "md", &entries);
    assert_eq!(prompt.get_query(), "a.md");
    let action = prompt.handle_input('\n', &entries, "/home/u", Some("/home/u/a.txt"));
    assert_eq!(
        action,
        Some(ModeAction::RenameEntry(Operation::Rename {
            old_path: "/home/u/a.txt".to_string(),
            new_path: "/home/u/a.md".to_string(),
        }))
    );
    assert_eq!(*prompt.get_mode(), Mode::Normal);
}

#[test]
fn rename_empty_query_cancels() {
    let entries = sample();
    let mut prompt = Prompt::new();
    prompt.set_mode(Mode::Rename);
    let action = prompt.handle_input('\n', &entries, "/home/u", Some("/home/u/a.txt"));
    assert_eq!(action, Some(ModeAction::Exit));
    assert_eq!(*prompt.get_mode(), Mode::Normal);
}

#[test]
fn rename_without_selection_asks_to_leave() {
    let entries = sample();
    let mut prompt = Prompt::new();
    prompt.set_mode_with_text(Mode::Rename, "x");
    let action = prompt.handle_input('y', &entries, "/home/u", None);
    assert_eq!(action, Some(ModeAction::Exit));
    assert_eq!(prompt.get_query(), "x");
    assert_eq!(*prompt.get_mode(), Mode::Rename);
}

#[test]
fn rename_of_a_path_without_parent_asks_for_nothing() {
    let entries = sample();
    let mut prompt = Prompt::new();
    prompt.set_mode_with_text(Mode::Rename, "x");
    let action = prompt.handle_input('\n', &entries, "/", Some("/"));
    assert_eq!(action, Some(ModeAction::Exit));
}

#[test]
fn set_mode_with_text_in_normal_mode_drops_the_text() {
    let mut prompt = Prompt::new();
    prompt.set_mode_with_text(Mode::Normal, "left over");
    assert_eq!(prompt.get_query(), "");
    assert!(!prompt.is_active());
}

#[test]
fn update_matches_uses_the_query() {
    let entries = sample();
    let mut prompt = Prompt::new();
    prompt.set_mode_with_text(Mode::Search, "C.T");
    assert!(prompt.get_matches().is_empty());
    prompt.update_matches(&entries);
    assert_eq!(prompt.get_matches(), &vec![4]);
}

#[test]
fn search_state_starts_idle() {
    let s = SearchState::new();
    assert_eq!(s.query, "");
    assert!(!s.mode);
    assert!(s.matches.is_empty());
    assert_eq!(s.current_match, 0);
}

#[test]
fn search_state_enter_and_reset() {
    let entries = sample();
    let mut s = SearchState::new();
    s.enter_search_mode();
    assert!(s.mode);
    assert_eq!(s.handle_input('t', &entries), None);
    assert_eq!(s.handle_input('x', &entries), None);
    assert_eq!(s.handle_input('x', &entries), None);
    assert_eq!(s.handle_input('\x7f', &entries), None);
    assert_eq!(s.query, "tx");
    assert!(s.matches.is_empty());
    assert_eq!(s.handle_input('\n', &entries), Some(2));
    assert!(!s.mode);
    assert_eq!(s.matches, vec![2, 4]);
    assert_eq!(s.next_match(), Some(4));
    assert_eq!(s.next_match(), Some(2));
    s.reset();
    assert_eq!(s.query, "");
    assert!(s.matches.is_empty());
    assert_eq!(s.next_match(), None);
}

#[test]
fn search_state_without_match_returns_none() {
    let entries = sample();
    let mut s = SearchState::new();
    s.enter_search_mode();
    let _ = s.handle_input('q', &entries);
    assert_eq!(s.handle_input('\n', &entries), None);
    assert!(s.matches.is_empty());
}

#[test]
fn search_state_update_matches() {
    let entries = sample();
    let mut s = SearchState::new();
    s.query = "BUILD".to_string();
    s.update_matches(&entries);
    assert_eq!(s.matches, vec![3]);
    assert_eq!(s.current_match, 0);
}

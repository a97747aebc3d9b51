use rx::config::{Config, ConfigScreen, ScreenLine};
use rx::error::ExplorerError;
use rx::events::KeyCode;
use rx::explorer::{lua_search_path, window_title};
use rx::text::{chars_of, concat_str, contains_chars, string_of};
use rx::ui::{column_positions, Renderer};

#[test]
fn error_messages() {
    assert_eq!(ExplorerError::Io("denied".to_string()).message(), "I/O error: denied");
    assert_eq!(
        ExplorerError::Config("bad key".to_string()).message(),
        "Configuration error: bad key"
    );
    assert_eq!(
        ExplorerError::OperationFailed("Editor exited with non-zero status".to_string()).message(),
        "Operation failed: Editor exited with non-zero status"
    );
    assert_eq!(ExplorerError::LuaError("nil".to_string()).message(), "Lua error: nil");
    assert_eq!(ExplorerError::Other("plain".to_string()).message(), "plain");
    assert_eq!(ExplorerError::NoLuaScript.message(), "No Lua script found");
}

#[test]
fn lua_search_path_lists_plugins_then_config_then_old() {
    let plugins = vec!["/c/lua/git".to_string(), "/c/lua/icons".to_string()];
    assert_eq!(
        lua_search_path(&plugins, "/c/lua", "./?.lua"),
        "/c/lua/git/?.lua;/c/lua/git/?/init.lua;/c/lua/icons/?.lua;/c/lua/icons/?/init.lua;\
         /c/lua/?.lua;/c/lua/?/init.lua;./?.lua"
    );
    assert_eq!(lua_search_path(&Vec::new(), "/c", ""), "/c/?.lua;/c/?/init.lua;");
}

#[test]
fn window_title_names_the_directory() {
    assert_eq!(window_title("/home/u"), "rx - /home/u");
}

#[test]
fn text_helpers() {
    assert_eq!(chars_of("a\u{e9}z"), vec!['a', '\u{e9}', 'z']);
    assert_eq!(string_of(&vec!['x', 'y']), "xy");
    assert_eq!(concat_str("ab", "cd"), "abcd");
    let v = |s: &str| s.chars().collect::<Vec<char>>();
    assert!(contains_chars(&v("hello"), &v("ell")));
    assert!(contains_chars(&v("hello"), &v("")));
    assert!(contains_chars(&v("hello"), &v("hello")));
    assert!(contains_chars(&v("hello"), &v("o")));
    assert!(!contains_chars(&v("hello"), &v("hellos")));
    assert!(!contains_chars(&v("hello"), &v("lo ")));
    assert!(contains_chars(&v(""), &v("")));
    assert!(!contains_chars(&v(""), &v("a")));
}

#[test]
fn renderer_window_arithmetic() {
    let mut r = Renderer::new(12);
    assert_eq!(r.get_viewport_size(), 10);
    r.update_viewport(15, 40, 12);
    assert_eq!(r.get_viewport_start(), 6);
    r.update_viewport(3, 40, 12);
    assert_eq!(r.get_viewport_start(), 3);
    r.update_viewport(5, 40, 12);
    assert_eq!(r.get_viewport_start(), 3);
    r.update_viewport(5, 8, 12);
    assert_eq!(r.get_viewport_start(), 0);
    assert_eq!(r.get_viewport_end(8), 8);
    assert_eq!(r.get_viewport_end(40), 10);
    r.scroll_up();
    assert_eq!(r.get_viewport_start(), 0);
    r.scroll_down(8);
    assert_eq!(r.get_viewport_start(), 0);
    r.scroll_down(11);
    assert_eq!(r.get_viewport_start(), 1);
    r.scroll_down(11);
    assert_eq!(r.get_viewport_start(), 1);
    r.scroll_up();
    assert_eq!(r.get_viewport_start(), 0);
    r.update_viewport(39, 40, 12);
    assert_eq!(r.get_viewport_start(), 30);
    r.reset_viewport();
    assert_eq!(r.get_viewport_start(), 0);
    assert_eq!(r.get_viewport_size(), 10);
}

#[test]
fn renderer_in_a_terminal_without_rows() {
    let mut r = Renderer::new(1);
    assert_eq!(r.get_viewport_size(), 0);
    r.update_viewport(3, 10, 2);
    assert_eq!(r.get_viewport_size(), 0);
    assert_eq!(r.get_viewport_start(), 4);
    r.update_viewport(9, 10, 0);
    assert_eq!(r.get_viewport_start(), 10);
    r.update_viewport(2, 10, 3);
    assert_eq!(r.get_viewport_size(), 1);
    assert_eq!(r.get_viewport_start(), 2);
}

#[test]
fn column_positions_follow_the_widths() {
    assert_eq!(column_positions(&vec![5, 2, 24, 6, 2]), Some(vec![2, 8, 11, 36, 43]));
    assert_eq!(column_positions(&Vec::new()), Some(Vec::new()));
    assert_eq!(column_positions(&vec![70000]), Some(vec![2]));
    assert_eq!(column_positions(&vec![65532, 1]), Some(vec![2, 65535]));
    assert_eq!(column_positions(&vec![65533, 1]), None);
    assert_eq!(column_positions(&vec![usize::MAX, 1]), None);
}

#[test]
fn config_screen_on_its_only_question() {
    let mut screen = ConfigScreen::launch_config();
    assert_eq!(screen.titles, vec!["Do you want to use nerd fonts?"]);
    assert_eq!(screen.index, 0);
    assert!(screen.current_selection);
    assert!(!screen.handle_key(KeyCode::Down));
    assert!(!screen.current_selection);
    assert!(!screen.handle_key(KeyCode::Char('x')));
    assert!(screen.handle_key(KeyCode::Enter));
    assert_eq!(screen.config, Config { nerd_fonts: true });
    assert!(screen.handle_key(KeyCode::Esc));
}

#[test]
fn config_screen_with_two_questions_stores_the_first_answer() {
    let mut screen = ConfigScreen::new(
        vec!["one".to_string(), "two".to_string()],
        vec!["first".to_string(), "second".to_string()],
    );
    assert!(!screen.handle_key(KeyCode::Up));
    assert!(!screen.handle_key(KeyCode::Enter));
    assert_eq!(screen.index, 1);
    assert_eq!(screen.config, Config { nerd_fonts: false });
    assert!(!screen.handle_key(KeyCode::Up));
    assert!(screen.handle_key(KeyCode::Enter));
    assert_eq!(screen.index, 1);
    assert_eq!(screen.config, Config { nerd_fonts: false });
}

#[test]
fn config_screen_lines_are_centered() {
    let screen = ConfigScreen::new(vec!["Title".to_string()], vec!["Sub".to_string()]);
    let lines = screen.display(80, 24).unwrap();
    assert_eq!(
        lines,
        vec![
            ScreenLine { column: 37, row: 10, text: "Title".to_string() },
            ScreenLine { column: 38, row: 11, text: "Sub".to_string() },
            ScreenLine { column: 35, row: 13, text: "> YES <".to_string() },
            ScreenLine { column: 36, row: 14, text: "  NO  ".to_string() },
        ]
    );
    assert_eq!(screen.show_buttons(), ("> YES <".to_string(), "  NO  ".to_string()));
    assert_eq!(screen.display(80, 3), None);
    assert_eq!(screen.display(8, 24), None);
    assert!(screen.display(9, 4).is_some());
}

use setuprs::config::Config;
use setuprs::error::Error;
use setuprs::tui::apply_copy_result;
use setuprs::tui::handle_key;
use setuprs::tui::App;
use setuprs::tui::Content;
use setuprs::tui::CurrentMode;
use setuprs::tui::Effect;
use setuprs::tui::Key;
use setuprs::tui::ObjList;

fn test_config() -> Config {
    Config {
        config_file_path: ".".to_string(),
        debug_mode: "error".to_string(),
        snapshots_path: "registry".to_string(),
    }
}

fn fresh_app() -> App {
    let list = ObjList::from_array(vec!["snap_1".to_string(), "snap_2".to_string()]);
    App::new(list, test_config(), "/work".to_string())
}

#[test]
fn from_array_keeps_order_and_starts_unselected() {
    let rows = ObjList::from_array(vec!["a".to_string(), "b".to_string()]);
    assert_eq!(rows.len(), 2);
    assert_eq!(rows[0].id, "a");
    assert_eq!(rows[1].id, "b");
    assert!(!rows[0].selected);
    assert!(!rows[1].selected);
}

#[test]
fn new_app_starts_on_the_first_row() {
    let app = fresh_app();
    assert_eq!(app.selected, Some(0));
    assert_eq!(app.left_size, 50);
    assert!(matches!(app.mode, CurrentMode::Main(Content::Help)));
    assert_eq!(app.copy_dir_input, "/work");
}

#[test]
fn arrows_move_the_selection_and_wrap() {
    let mut app = fresh_app();
    handle_key(&mut app, Key::Down);
    assert_eq!(app.selected, Some(1));
    handle_key(&mut app, Key::Down);
    assert_eq!(app.selected, Some(0));
    handle_key(&mut app, Key::Up);
    assert_eq!(app.selected, Some(1));
    handle_key(&mut app, Key::Up);
    assert_eq!(app.selected, Some(0));
}

#[test]
fn get_selected_returns_the_highlighted_row() {
    let mut app = fresh_app();
    assert_eq!(app.get_selected().unwrap().id, "snap_1");
    handle_key(&mut app, Key::Down);
    assert_eq!(app.get_selected().unwrap().id, "snap_2");
}

#[test]
fn quit_key_asks_to_exit_from_the_main_mode() {
    let mut app = fresh_app();
    handle_key(&mut app, Key::Char('q'));
    assert!(matches!(app.mode, CurrentMode::Exiting));

    let mut app = fresh_app();
    handle_key(&mut app, Key::Char('e'));
    assert!(matches!(app.mode, CurrentMode::Exiting));
}

#[test]
fn menu_width_changes_within_bounds() {
    let mut app = fresh_app();
    handle_key(&mut app, Key::Right);
    assert_eq!(app.left_size, 51);
    handle_key(&mut app, Key::Left);
    handle_key(&mut app, Key::Left);
    assert_eq!(app.left_size, 49);

    app.left_size = 0;
    handle_key(&mut app, Key::Left);
    assert_eq!(app.left_size, 0);
    app.left_size = u16::MAX;
    handle_key(&mut app, Key::Right);
    assert_eq!(app.left_size, u16::MAX);
}

#[test]
fn enter_opens_the_destination_question() {
    let mut app = fresh_app();
    handle_key(&mut app, Key::Enter);
    assert!(matches!(app.mode, CurrentMode::Confirming));
}

#[test]
fn typing_edits_the_destination_input() {
    let mut app = fresh_app();
    handle_key(&mut app, Key::Enter);
    handle_key(&mut app, Key::Char('/'));
    handle_key(&mut app, Key::Char('x'));
    assert_eq!(app.copy_dir_input, "/work/x");
    handle_key(&mut app, Key::Backspace);
    assert_eq!(app.copy_dir_input, "/work/");
    handle_key(&mut app, Key::Char('q'));
    assert_eq!(app.copy_dir_input, "/work/q");
    assert!(matches!(app.mode, CurrentMode::Confirming));
}

#[test]
fn confirming_enter_requests_the_clone() {
    let mut app = fresh_app();
    handle_key(&mut app, Key::Down);
    handle_key(&mut app, Key::Enter);
    let effect = handle_key(&mut app, Key::Enter);
    match effect {
        Effect::StartClone { source, destination } => {
            assert_eq!(source, "registry/snap_2");
            assert_eq!(destination, "/work");
        },
        other => panic!("unexpected effect: {:?}", other),
    }
    assert!(matches!(app.mode, CurrentMode::Confirming));
}

#[test]
fn clone_success_moves_to_the_quit_question() {
    let mut app = fresh_app();
    handle_key(&mut app, Key::Enter);
    apply_copy_result(&mut app, Ok("dest".to_string()));
    assert!(matches!(app.mode, CurrentMode::Exiting));
}

#[test]
fn clone_failure_shows_the_error() {
    let mut app = fresh_app();
    handle_key(&mut app, Key::Enter);
    apply_copy_result(&mut app, Err(Error::IOError("denied".to_string())));
    match &app.mode {
        CurrentMode::Error(e) => assert_eq!(e.message(), "denied"),
        other => panic!("unexpected mode: {:?}", other),
    }
}

#[test]
fn any_character_leaves_the_error_notice() {
    let mut app = fresh_app();
    apply_copy_result(&mut app, Err(Error::IOError("denied".to_string())));
    handle_key(&mut app, Key::Char('x'));
    assert!(matches!(app.mode, CurrentMode::Main(Content::Help)));

    let mut app = fresh_app();
    apply_copy_result(&mut app, Err(Error::IOError("denied".to_string())));
    handle_key(&mut app, Key::Char('q'));
    assert!(matches!(app.mode, CurrentMode::Exiting));
}

#[test]
fn the_quit_question_needs_a_confirmation() {
    let mut app = fresh_app();
    handle_key(&mut app, Key::Char('q'));
    let effect = handle_key(&mut app, Key::Char('y'));
    assert!(matches!(effect, Effect::Quit));

    let mut app = fresh_app();
    handle_key(&mut app, Key::Char('q'));
    let effect = handle_key(&mut app, Key::Char('n'));
    assert!(matches!(effect, Effect::Nothing));
    assert!(matches!(app.mode, CurrentMode::Main(Content::Help)));

    let mut app = fresh_app();
    handle_key(&mut app, Key::Char('q'));
    handle_key(&mut app, Key::Esc);
    assert!(matches!(app.mode, CurrentMode::Main(Content::Help)));
}

#[test]
fn escape_returns_to_the_list() {
    let mut app = fresh_app();
    handle_key(&mut app, Key::Enter);
    handle_key(&mut app, Key::Esc);
    assert!(matches!(app.mode, CurrentMode::Main(Content::Help)));
}

use cmddeck::app::{ActiveBlock, App, CommandForm};
use cmddeck::events::{Action, Flow, KeyInput, MouseInput, UiEvent};
use cmddeck::input::EditRequest;
use cmddeck::layout::{centered_rect, Area};
use cmddeck::model::{CmdEntry, Config, Preferences};
use cmddeck::selection::ListState;

fn entry(name: &str, favorite: bool) -> CmdEntry {
    CmdEntry {
        name: name.to_string(),
        display_name: None,
        description: None,
        command: format!("echo {}", name),
        category: None,
        favorite,
        confirmation_required: false,
        working_directory: None,
    }
}

fn app_with(cmds: Vec<CmdEntry>) -> App {
    App::new(Config { commands: cmds, preferences: Preferences { theme: "default".to_string() } })
}

fn key(code: KeyInput) -> UiEvent {
    UiEvent::Key { code, edit: None }
}

fn typed(c: char) -> UiEvent {
    UiEvent::Key { code: KeyInput::Char(c), edit: Some(EditRequest::InsertChar(c)) }
}

fn click(column: u16, row: u16) -> UiEvent {
    UiEvent::Mouse { kind: MouseInput::LeftDown, column, row }
}

fn names(app: &App) -> Vec<String> {
    app.config.commands.iter().map(|c| c.name.clone()).collect()
}

fn type_text(app: &mut App, text: &str) {
    for c in text.chars() {
        app.handle_event(typed(c), 40);
    }
}

#[test]
fn new_app_selects_the_first_row() {
    let app = app_with(vec![entry("a", false), entry("b", true)]);
    assert_eq!(app.list_state.selected(), Some(0));
    assert_eq!(app.filtered_commands, vec![1, 0]);
    assert_eq!(app.active_block, ActiveBlock::List);
    assert_eq!(app.settings_state.selected(), Some(0));
    assert_eq!(app.theme_state.selected(), Some(0));
    assert!(!app.should_quit);
}

#[test]
fn new_app_without_commands_selects_nothing() {
    let app = app_with(vec![]);
    assert_eq!(app.list_state.selected(), None);
    assert!(app.filtered_commands.is_empty());
}

#[test]
fn next_and_previous_wrap_around() {
    let mut app = app_with(vec![entry("a", false), entry("b", false), entry("c", false)]);
    app.previous();
    assert_eq!(app.list_state.selected(), Some(2));
    app.next();
    assert_eq!(app.list_state.selected(), Some(0));
    app.next();
    app.next();
    assert_eq!(app.list_state.selected(), Some(2));
    app.next();
    assert_eq!(app.list_state.selected(), Some(0));
}

#[test]
fn next_on_an_empty_list_does_nothing() {
    let mut app = app_with(vec![]);
    app.next();
    app.previous();
    assert_eq!(app.list_state.selected(), None);
}

#[test]
fn select_none_scrolls_to_top() {
    let mut st = ListState::default();
    st.offset = 4;
    st.select(Some(7));
    assert_eq!(st.offset(), 4);
    st.select(None);
    assert_eq!(st.offset(), 0);
    assert_eq!(st.selected(), None);
}

#[test]
fn q_quits() {
    let mut app = app_with(vec![entry("a", false)]);
    assert_eq!(app.handle_event(key(KeyInput::Char('q')), 40), Flow::Leave);
    assert!(app.should_quit);
}

#[test]
fn enter_runs_the_selected_command() {
    let mut app = app_with(vec![entry("a", false), entry("b", true)]);
    assert_eq!(app.handle_event(key(KeyInput::Enter), 40), Flow::Leave);
    assert_eq!(app.command_to_run, Some("b".to_string()));
    assert!(!app.should_quit);
}

#[test]
fn enter_with_nothing_listed_does_nothing() {
    let mut app = app_with(vec![]);
    assert_eq!(app.handle_event(key(KeyInput::Enter), 40), Flow::Continue);
    assert_eq!(app.command_to_run, None);
}

#[test]
fn searching_filters_and_escape_returns_to_the_list() {
    let mut app = app_with(vec![entry("build", false), entry("test", false), entry("bump", false)]);
    app.handle_event(key(KeyInput::Char('/')), 40);
    assert_eq!(app.active_block, ActiveBlock::Search);
    type_text(&mut app, "te");
    assert_eq!(app.search_input.value(), "te");
    assert_eq!(app.filtered_commands, vec![1]);
    assert_eq!(app.list_state.selected(), Some(0));
    app.handle_event(key(KeyInput::Esc), 40);
    assert_eq!(app.active_block, ActiveBlock::List);
    assert_eq!(app.filtered_commands, vec![1]);
}

#[test]
fn search_without_match_clears_the_selection() {
    let mut app = app_with(vec![entry("build", false)]);
    app.handle_event(key(KeyInput::Char('/')), 40);
    type_text(&mut app, "zz");
    assert!(app.filtered_commands.is_empty());
    assert_eq!(app.list_state.selected(), None);
    app.handle_event(UiEvent::Key { code: KeyInput::Other, edit: Some(EditRequest::DeleteLine) }, 40);
    assert_eq!(app.search_input.value(), "");
    assert_eq!(app.filtered_commands, vec![0]);
    assert_eq!(app.list_state.selected(), Some(0));
}

#[test]
fn adding_a_command_trims_its_fields() {
    let mut app = app_with(vec![entry("a", false)]);
    app.handle_event(key(KeyInput::Char('n')), 40);
    assert_eq!(app.active_block, ActiveBlock::Form);
    type_text(&mut app, "  new ");
    app.handle_event(key(KeyInput::Tab), 40);
    type_text(&mut app, "   ");
    app.handle_event(key(KeyInput::Tab), 40);
    type_text(&mut app, " about ");
    app.handle_event(key(KeyInput::Tab), 40);
    app.handle_event(key(KeyInput::Tab), 40);
    type_text(&mut app, " ls -la ");
    app.handle_event(key(KeyInput::Tab), 40);
    app.handle_event(key(KeyInput::Char(' ')), 40);
    assert!(app.form.favorite);
    assert_eq!(app.handle_event(key(KeyInput::Enter), 40), Flow::Persist);
    assert_eq!(app.active_block, ActiveBlock::List);
    let added = &app.config.commands[1];
    assert_eq!(added.name, "new");
    assert_eq!(added.display_name, None);
    assert_eq!(added.description, Some("about".to_string()));
    assert_eq!(added.category, None);
    assert_eq!(added.command, "ls -la");
    assert!(added.favorite);
    assert!(!added.confirmation_required);
    assert_eq!(app.filtered_commands, vec![1, 0]);
}

#[test]
fn adding_a_taken_name_is_refused() {
    let mut app = app_with(vec![entry("a", false)]);
    app.open_new_form();
    type_text(&mut app, "a");
    app.form.active_field = 4;
    type_text(&mut app, "echo");
    assert!(!app.submit_form());
    assert_eq!(app.config.commands.len(), 1);
    assert_eq!(app.active_block, ActiveBlock::Form);
}

#[test]
fn blank_name_or_command_is_refused() {
    let mut app = app_with(vec![]);
    app.open_new_form();
    type_text(&mut app, "   ");
    app.form.active_field = 4;
    type_text(&mut app, "echo");
    assert_eq!(app.handle_event(key(KeyInput::Enter), 40), Flow::Continue);
    assert!(app.config.commands.is_empty());
    app.form.active_field = 0;
    type_text(&mut app, "x");
    app.form.active_field = 4;
    app.handle_event(UiEvent::Key { code: KeyInput::Other, edit: Some(EditRequest::DeleteLine) }, 40);
    assert!(!app.submit_form());
    assert!(app.config.commands.is_empty());
}

#[test]
fn editing_and_saving_unchanged_keeps_the_entry() {
    let mut e = entry("deploy", false);
    e.display_name = Some("Deploy".to_string());
    e.category = Some("ops".to_string());
    let mut app = app_with(vec![e.clone(), entry("b", false)]);
    app.handle_event(key(KeyInput::Char('e')), 40);
    assert!(app.form.is_edit);
    assert_eq!(app.form.edit_idx, Some(0));
    assert_eq!(app.form.name.value(), "deploy");
    assert_eq!(app.form.display_name.value(), "Deploy");
    assert_eq!(app.form.description.value(), "");
    assert_eq!(app.handle_event(key(KeyInput::Enter), 40), Flow::Persist);
    let back = &app.config.commands[0];
    assert_eq!(back.name, e.name);
    assert_eq!(back.display_name, e.display_name);
    assert_eq!(back.description, e.description);
    assert_eq!(back.category, e.category);
    assert_eq!(back.command, e.command);
    assert_eq!(app.config.commands.len(), 2);
}

#[test]
fn editing_may_rename_onto_a_taken_name() {
    let mut app = app_with(vec![entry("a", false), entry("b", false)]);
    app.open_edit_form();
    app.handle_event(UiEvent::Key { code: KeyInput::Other, edit: Some(EditRequest::DeleteLine) }, 40);
    type_text(&mut app, "b");
    assert!(app.submit_form());
    assert_eq!(names(&app), vec!["b".to_string(), "b".to_string()]);
}

#[test]
fn editing_drops_the_working_directory() {
    let mut e = entry("a", false);
    e.working_directory = Some("/tmp".to_string());
    let mut app = app_with(vec![e]);
    app.open_edit_form();
    assert!(app.submit_form());
    assert_eq!(app.config.commands[0].working_directory, None);
}

#[test]
fn form_fields_cycle() {
    let mut app = app_with(vec![]);
    app.open_new_form();
    app.handle_event(key(KeyInput::BackTab), 40);
    assert_eq!(app.form.active_field, 6);
    app.handle_event(key(KeyInput::Down), 40);
    assert_eq!(app.form.active_field, 0);
    app.handle_event(key(KeyInput::Up), 40);
    app.handle_event(key(KeyInput::Char(' ')), 40);
    assert!(app.form.confirm);
    assert!(!app.form.favorite);
    app.handle_event(key(KeyInput::Esc), 40);
    assert_eq!(app.active_block, ActiveBlock::List);
}

#[test]
fn space_in_a_text_field_is_typed() {
    let mut app = app_with(vec![]);
    app.open_new_form();
    type_text(&mut app, "a b");
    assert_eq!(app.form.name.value(), "a b");
}

#[test]
fn delete_asks_then_deletes() {
    let mut app = app_with(vec![entry("a", false), entry("b", false)]);
    app.handle_event(key(KeyInput::Down), 40);
    app.handle_event(key(KeyInput::Char('d')), 40);
    assert_eq!(app.active_block, ActiveBlock::DeleteConfirm);
    assert_eq!(app.handle_event(key(KeyInput::Char('n')), 40), Flow::Continue);
    assert_eq!(app.active_block, ActiveBlock::List);
    app.handle_event(key(KeyInput::Char('d')), 40);
    assert_eq!(app.handle_event(key(KeyInput::Char('Y')), 40), Flow::Persist);
    assert_eq!(names(&app), vec!["a".to_string()]);
    assert_eq!(app.list_state.selected(), Some(0));
    assert_eq!(app.active_block, ActiveBlock::List);
}

#[test]
fn deleting_the_last_command_clears_the_selection() {
    let mut app = app_with(vec![entry("a", false)]);
    assert!(app.delete_selected());
    assert!(app.config.commands.is_empty());
    assert_eq!(app.list_state.selected(), None);
    assert!(!app.delete_selected());
    app.handle_event(key(KeyInput::Char('d')), 40);
    assert_eq!(app.active_block, ActiveBlock::List);
}

#[test]
fn toggling_favorite_moves_the_command_up() {
    let mut app = app_with(vec![entry("a", false), entry("b", false)]);
    app.next();
    assert_eq!(app.handle_event(key(KeyInput::Char('f')), 40), Flow::Persist);
    assert!(app.config.commands[1].favorite);
    assert!(!app.config.commands[0].favorite);
    assert_eq!(app.filtered_commands, vec![1, 0]);
    assert_eq!(app.list_state.selected(), Some(1));
}

#[test]
fn mouse_scroll_and_list_click() {
    let mut app = app_with(vec![entry("a", false), entry("b", false), entry("c", false)]);
    app.handle_event(UiEvent::Mouse { kind: MouseInput::ScrollDown, column: 0, row: 0 }, 40);
    assert_eq!(app.list_state.selected(), Some(1));
    app.handle_event(UiEvent::Mouse { kind: MouseInput::ScrollUp, column: 0, row: 0 }, 40);
    assert_eq!(app.list_state.selected(), Some(0));
    app.handle_event(click(5, 5), 40);
    assert_eq!(app.list_state.selected(), Some(2));
    app.handle_event(click(5, 9), 40);
    assert_eq!(app.list_state.selected(), Some(2));
    app.list_state.offset = 1;
    app.handle_event(click(5, 4), 40);
    assert_eq!(app.list_state.selected(), Some(2));
}

#[test]
fn footer_buttons() {
    let mut app = app_with(vec![entry("a", false)]);
    assert_eq!(app.decide(click(40, 38), 40), Action::StartSearch);
    assert_eq!(app.decide(click(25, 38), 40), Action::Nothing);
    assert_eq!(app.decide(click(111, 38), 40), Action::Nothing);
    app.handle_event(click(50, 37), 40);
    assert_eq!(app.active_block, ActiveBlock::Form);
    app.handle_event(key(KeyInput::Esc), 40);
    app.handle_event(click(95, 39), 40);
    assert!(app.config.commands[0].favorite);
    app.handle_event(click(80, 39), 40);
    assert_eq!(app.active_block, ActiveBlock::DeleteConfirm);
    app.handle_event(key(KeyInput::Esc), 40);
    assert_eq!(app.handle_event(click(10, 39), 40), Flow::Leave);
    assert_eq!(app.command_to_run, Some("a".to_string()));
    assert_eq!(app.handle_event(click(105, 39), 40), Flow::Leave);
    assert!(app.should_quit);
}

#[test]
fn blank_form_defaults() {
    let f = CommandForm::default();
    assert!(!f.is_edit);
    assert_eq!(f.edit_idx, None);
    assert_eq!(f.active_field, 0);
    assert_eq!(f.name.value(), "");
    assert!(!f.favorite && !f.confirm);
}

#[test]
fn centered_rect_centres() {
    let c = centered_rect(60, 80, Area { x: 0, y: 0, width: 100, height: 50 });
    assert_eq!(c, Area { x: 20, y: 5, width: 60, height: 40 });
    let d = centered_rect(40, 20, Area { x: 10, y: 10, width: 50, height: 20 });
    assert_eq!(d, Area { x: 25, y: 18, width: 20, height: 4 });
}

#[test]
fn editing_requests_move_the_cursor() {
    let mut app = app_with(vec![entry("alpha", false), entry("beta", false)]);
    app.handle_event(key(KeyInput::Char('/')), 40);
    type_text(&mut app, "ta");
    app.handle_event(UiEvent::Key { code: KeyInput::Other, edit: Some(EditRequest::GoToStart) }, 40);
    type_text(&mut app, "be");
    assert_eq!(app.search_input.value(), "beta");
    assert_eq!(app.search_input.cursor(), 2);
    app.handle_event(UiEvent::Key { code: KeyInput::Other, edit: Some(EditRequest::DeleteTillEnd) }, 40);
    assert_eq!(app.search_input.value(), "be");
    app.handle_event(UiEvent::Key { code: KeyInput::Other, edit: Some(EditRequest::SetCursor(1)) }, 40);
    app.handle_event(UiEvent::Key { code: KeyInput::Other, edit: Some(EditRequest::DeleteFromStart) }, 40);
    assert_eq!(app.search_input.value(), "e");
    assert_eq!(app.search_input.cursor(), 0);
    app.handle_event(UiEvent::Key { code: KeyInput::Other, edit: Some(EditRequest::GoToEnd) }, 40);
    assert_eq!(app.search_input.cursor(), 1);
    app.handle_event(UiEvent::Key { code: KeyInput::Other, edit: Some(EditRequest::DeletePrevChar) }, 40);
    assert_eq!(app.search_input.value(), "");
    assert_eq!(app.filtered_commands.len(), 2);
}

#[test]
fn recomputing_the_list_twice_changes_nothing() {
    let mut app = app_with(vec![entry("a", false), entry("b", true), entry("c", false)]);
    app.next();
    app.next();
    app.update_filter();
    let once = (app.filtered_commands.clone(), app.list_state.selected(), app.list_state.offset());
    app.update_filter();
    assert_eq!((app.filtered_commands.clone(), app.list_state.selected(), app.list_state.offset()), once);
    assert_eq!(once.1, Some(2));
}

#[test]
fn settings_and_theme_blocks_ignore_events() {
    let mut app = app_with(vec![entry("a", false)]);
    app.active_block = ActiveBlock::Settings;
    assert_eq!(app.decide(key(KeyInput::Esc), 40), Action::Nothing);
    assert_eq!(app.handle_event(key(KeyInput::Char('q')), 40), Flow::Continue);
    app.active_block = ActiveBlock::ThemeSelector;
    assert_eq!(app.handle_event(key(KeyInput::Enter), 40), Flow::Continue);
    assert!(!app.should_quit);
}

#[test]
fn row_labels_mark_favorites() {
    let app = app_with(vec![entry("a", false), entry("b", true)]);
    assert_eq!(app.row_labels(), vec!["★ b".to_string(), "  a".to_string()]);
    assert_eq!(app.selected_command(), Some(1));
    let empty = app_with(vec![]);
    assert!(empty.row_labels().is_empty());
    assert_eq!(empty.selected_command(), None);
}

fn edit(app: &mut App, req: EditRequest) {
    app.handle_event(UiEvent::Key { code: KeyInput::Other, edit: Some(req) }, 40);
}

#[test]
fn word_and_character_editing_in_the_search_box() {
    let mut app = app_with(vec![entry("git push", false), entry("ls", false)]);
    app.handle_event(key(KeyInput::Char('/')), 40);
    type_text(&mut app, "git pu");
    edit(&mut app, EditRequest::GoToPrevWord);
    assert_eq!(app.search_input.cursor(), 4);
    edit(&mut app, EditRequest::GoToPrevChar);
    assert_eq!(app.search_input.cursor(), 3);
    edit(&mut app, EditRequest::DeleteNextChar);
    assert_eq!(app.search_input.value(), "gitpu");
    edit(&mut app, EditRequest::GoToNextChar);
    assert_eq!(app.search_input.cursor(), 4);
    edit(&mut app, EditRequest::GoToStart);
    edit(&mut app, EditRequest::GoToNextWord);
    assert_eq!(app.search_input.cursor(), 5);
    edit(&mut app, EditRequest::DeletePrevWord);
    assert_eq!(app.search_input.value(), "");
    assert_eq!(app.filtered_commands.len(), 2);
}

#[test]
fn backspace_at_the_start_does_nothing_and_yank_restores_a_cut() {
    let mut app = app_with(vec![entry("abc", false)]);
    app.handle_event(key(KeyInput::Char('/')), 40);
    type_text(&mut app, "ab");
    edit(&mut app, EditRequest::GoToStart);
    edit(&mut app, EditRequest::DeletePrevChar);
    assert_eq!(app.search_input.value(), "ab");
    edit(&mut app, EditRequest::Yank);
    assert_eq!(app.search_input.value(), "ab");
    edit(&mut app, EditRequest::GoToEnd);
    edit(&mut app, EditRequest::DeleteLine);
    assert_eq!(app.search_input.value(), "");
    edit(&mut app, EditRequest::Yank);
    assert_eq!(app.search_input.value(), "ab");
    assert_eq!(app.search_input.cursor(), 2);
    edit(&mut app, EditRequest::DeleteNextWord);
    assert_eq!(app.search_input.value(), "ab");
    edit(&mut app, EditRequest::GoToStart);
    edit(&mut app, EditRequest::DeleteNextWord);
    assert_eq!(app.search_input.value(), "");
}

#[test]
fn backspace_in_a_form_field() {
    let mut app = app_with(vec![]);
    app.open_new_form();
    type_text(&mut app, "abc");
    edit(&mut app, EditRequest::DeletePrevChar);
    assert_eq!(app.form.name.value(), "ab");
    assert_eq!(app.form.name.cursor(), 2);
}

#[test]
fn blank_form_with_a_stale_edit_index_is_refused_quietly() {
    let mut app = app_with(vec![entry("a", false)]);
    app.form.is_edit = true;
    app.form.edit_idx = Some(7);
    assert!(!app.submit_form());
    assert_eq!(app.config.commands.len(), 1);
}

#[test]
fn details_pane_lines() {
    let mut e = entry("ssh", false);
    e.description = Some("log in".to_string());
    let app = app_with(vec![e]);
    let lines: Vec<(String, String, bool)> =
        app.detail_lines(0).into_iter().map(|l| (l.label, l.value, l.command)).collect();
    let s = |a: &str, b: &str, c: bool| (a.to_string(), b.to_string(), c);
    assert_eq!(
        lines,
        vec![
            s("Name: ", "ssh", false),
            s("", "", false),
            s("Description: ", "log in", false),
            s("", "", false),
            s("Command String:", "", false),
            s("", "$ echo ssh", true),
        ]
    );
}

#[test]
fn title_and_panes_follow_the_screen_size() {
    assert!(cmddeck::view::shows_big_title(26));
    assert!(!cmddeck::view::shows_big_title(25));
    assert!(cmddeck::view::shows_two_panes(61));
    assert!(!cmddeck::view::shows_two_panes(60));
}

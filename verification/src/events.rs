use vstd::prelude::*;
use crate::app::{
    App, ActiveBlock, CommandForm, moved_down, moved_up, opened_new, opened_edit, submitted,
    deleted, toggled, reselected, name_in_use,
};
use crate::input::{EditRequest, edit_outcome, input_handle, input_text, input_cursor};
use crate::text::trim;
use tui_input::Input;
use crate::selection::ListState;

verus! {

/// A key of the keyboard, as far as the launcher tells keys apart.
#[derive(Clone, Copy, Debug, PartialEq, Eq)]
pub enum KeyInput {
    Char(char),
    Esc,
    Enter,
    Up,
    Down,
    Tab,
    BackTab,
    Other,
}

/// What the mouse did.
#[derive(Clone, Copy, Debug, PartialEq, Eq)]
pub enum MouseInput {
    ScrollUp,
    ScrollDown,
    LeftDown,
    Other,
}

/// A terminal event. A key press carries the editing request that the
/// text input makes of it, if any.
#[derive(Clone, Copy, Debug, PartialEq, Eq)]
pub enum UiEvent {
    Key { code: KeyInput, edit: Option<EditRequest> },
    Mouse { kind: MouseInput, column: u16, row: u16 },
    Other,
}

/// What the event loop does after an event.
#[derive(Clone, Copy, Debug, PartialEq, Eq, Structural)]
pub enum Flow {
    /// Keep reading events.
    Continue,
    /// Store the changed commands, then keep reading events.
    Persist,
    /// Leave the interface: the user quit or chose a command to run.
    Leave,
}

/// What an event asks of the launcher.
#[derive(Clone, Copy, Debug, PartialEq, Eq)]
pub enum Action {
    Nothing,
    Quit,
    Down,
    Up,
    NewForm,
    EditForm,
    AskDelete,
    ToggleFavorite,
    StartSearch,
    Run,
    Select(usize),
    EndSearch,
    EditSearch(Option<EditRequest>),
    CloseForm,
    SubmitForm,
    NextField,
    PreviousField,
    FlipFavoriteBox,
    FlipConfirmBox,
    EditField(Option<EditRequest>),
    ConfirmDelete,
    CancelDelete,
}

/// The footer button under column `col`: Run, Search, New, Edit, Delete,
/// Fav and Quit (the Move button does nothing).
pub open spec fn footer_action(col: u16) -> Action {
    if 3 <= col <= 18 {
        Action::Run
    } else if 34 <= col <= 48 {
        Action::StartSearch
    } else if 49 <= col <= 60 {
        Action::NewForm
    } else if 61 <= col <= 73 {
        Action::EditForm
    } else if 74 <= col <= 88 {
        Action::AskDelete
    } else if 89 <= col <= 100 {
        Action::ToggleFavorite
    } else if 101 <= col <= 110 {
        Action::Quit
    } else {
        Action::Nothing
    }
}

/// Running needs a selected row that shows a command, and asking to delete
/// needs a selected row; otherwise nothing happens.
pub open spec fn guarded(app: App, a: Action) -> Action {
    match a {
        Action::Run => if app.selected_entry() is Some { Action::Run } else { Action::Nothing },
        Action::AskDelete => if app.list_state.selected is Some { Action::AskDelete } else { Action::Nothing },
        _ => a,
    }
}

/// The action an event asks for, given the focused block; `height` is the
/// terminal's height in rows.
pub open spec fn action_for(app: App, ev: UiEvent, height: u16) -> Action {
    match app.active_block {
        ActiveBlock::List => match ev {
            UiEvent::Key { code, edit } => match code {
                KeyInput::Char(c) => if c == 'q' {
                    Action::Quit
                } else if c == 'j' {
                    Action::Down
                } else if c == 'k' {
                    Action::Up
                } else if c == 'n' {
                    Action::NewForm
                } else if c == 'e' {
                    Action::EditForm
                } else if c == 'd' {
                    guarded(app, Action::AskDelete)
                } else if c == 'f' {
                    Action::ToggleFavorite
                } else if c == '/' {
                    Action::StartSearch
                } else {
                    Action::Nothing
                },
                KeyInput::Esc => Action::Quit,
                KeyInput::Down => Action::Down,
                KeyInput::Up => Action::Up,
                KeyInput::Enter => guarded(app, Action::Run),
                _ => Action::Nothing,
            },
            UiEvent::Mouse { kind, column, row } => match kind {
                MouseInput::ScrollUp => Action::Up,
                MouseInput::ScrollDown => Action::Down,
                MouseInput::LeftDown => if row >= (if height >= 3 { height - 3 } else { 0 }) {
                    guarded(app, footer_action(column))
                } else if row >= 3 {
                    let i = app.list_state.offset + (row - 3);
                    if i < app.filtered_commands@.len() { Action::Select(i as usize) } else { Action::Nothing }
                } else {
                    Action::Nothing
                },
                MouseInput::Other => Action::Nothing,
            },
            UiEvent::Other => Action::Nothing,
        },
        ActiveBlock::Search => match ev {
            UiEvent::Key { code, edit } => match code {
                KeyInput::Esc => Action::EndSearch,
                KeyInput::Enter => Action::EndSearch,
                _ => Action::EditSearch(edit),
            },
            _ => Action::Nothing,
        },
        ActiveBlock::Form => match ev {
            UiEvent::Key { code, edit } => match code {
                KeyInput::Esc => Action::CloseForm,
                KeyInput::Enter => Action::SubmitForm,
                KeyInput::Tab => Action::NextField,
                KeyInput::Down => Action::NextField,
                KeyInput::BackTab => Action::PreviousField,
                KeyInput::Up => Action::PreviousField,
                KeyInput::Char(c) => if c == ' ' && app.form.active_field >= 5 {
                    if app.form.active_field == 5 { Action::FlipFavoriteBox } else { Action::FlipConfirmBox }
                } else {
                    Action::EditField(edit)
                },
                _ => Action::EditField(edit),
            },
            _ => Action::Nothing,
        },
        ActiveBlock::DeleteConfirm => match ev {
            UiEvent::Key { code, edit } => match code {
                KeyInput::Char(c) => if c == 'y' || c == 'Y' {
                    Action::ConfirmDelete
                } else if c == 'n' || c == 'N' {
                    Action::CancelDelete
                } else {
                    Action::Nothing
                },
                KeyInput::Enter => Action::ConfirmDelete,
                KeyInput::Esc => Action::CancelDelete,
                _ => Action::Nothing,
            },
            _ => Action::Nothing,
        },
        _ => Action::Nothing,
    }
}


/// The flow after an event that left the launcher in `new`: leave once quit
/// was asked for, store when the commands changed.
pub open spec fn settle(new: App, saved: bool) -> Flow {
    if new.should_quit {
        Flow::Leave
    } else if saved {
        Flow::Persist
    } else {
        Flow::Continue
    }
}

/// Field `k` of the form (0 to 4: name, display name, description,
/// category, command).
pub open spec fn form_field(f: CommandForm, k: usize) -> Input {
    if k == 0 {
        f.name
    } else if k == 1 {
        f.display_name
    } else if k == 2 {
        f.description
    } else if k == 3 {
        f.category
    } else {
        f.command
    }
}

/// The form with field `k` replaced by `i`.
pub open spec fn with_field(f: CommandForm, k: usize, i: Input) -> CommandForm {
    if k == 0 {
        CommandForm { name: i, ..f }
    } else if k == 1 {
        CommandForm { display_name: i, ..f }
    } else if k == 2 {
        CommandForm { description: i, ..f }
    } else if k == 3 {
        CommandForm { category: i, ..f }
    } else {
        CommandForm { command: i, ..f }
    }
}

/// `new` holds `old`'s input after `edit`, if any.
pub open spec fn edited(old: Input, new: Input, edit: Option<EditRequest>) -> bool {
    match edit {
        Some(r) => edit_outcome(old, r, new),
        None => new == old,
    }
}

/// Whether submitting `app`'s form changes the commands.
pub open spec fn submit_saves(app: App) -> bool {
    app.form.complete() && (app.form.is_edit || !name_in_use(app.config.commands@, trim(input_text(app.form.name))))
}

/// `new` and `flow` are what performing `a` on `old` gives.
pub open spec fn performs(old: App, a: Action, new: App, flow: Flow) -> bool {
    match a {
        Action::Nothing => new == old && flow == settle(new, false),
        Action::Quit => new == (App { should_quit: true, ..old }) && flow == Flow::Leave,
        Action::Down => moved_down(old, new) && flow == settle(new, false),
        Action::Up => moved_up(old, new) && flow == settle(new, false),
        Action::NewForm => opened_new(old, new) && flow == settle(new, false),
        Action::EditForm => opened_edit(old, new) && flow == settle(new, false),
        Action::AskDelete => new == (App { active_block: ActiveBlock::DeleteConfirm, ..old }) && flow
            == settle(new, false),
        Action::ToggleFavorite => {
            &&& toggled(old, new, old.selected_entry() is Some)
            &&& flow == settle(new, old.selected_entry() is Some)
        },
        Action::StartSearch => new == (App { active_block: ActiveBlock::Search, ..old }) && flow
            == settle(new, false),
        Action::Run => {
            &&& new == (App {
                command_to_run: Some(old.config.commands@[old.selected_entry()->0 as int].name),
                ..old
            })
            &&& flow == Flow::Leave
        },
        Action::Select(i) => {
            &&& reselected(old, new, ListState { offset: old.list_state.offset, selected: Some(i) })
            &&& flow == settle(new, false)
        },
        Action::EndSearch => new == (App { active_block: ActiveBlock::List, ..old }) && flow == settle(
            new,
            false,
        ),
        Action::EditSearch(edit) => {
            &&& edited(old.search_input, new.search_input, edit)
            &&& new.refiltered_from(old)
            &&& new.config == old.config
            &&& new.active_block == old.active_block
            &&& new.should_quit == old.should_quit
            &&& new.command_to_run == old.command_to_run
            &&& new.form == old.form
            &&& new.settings_state == old.settings_state
            &&& new.theme_state == old.theme_state
            &&& flow == settle(new, false)
        },
        Action::CloseForm => new == (App { active_block: ActiveBlock::List, ..old }) && flow == settle(
            new,
            false,
        ),
        Action::SubmitForm => submitted(old, new, submit_saves(old)) && flow == settle(new, submit_saves(old)),
        Action::NextField => {
            &&& new == (App {
                form: CommandForm { active_field: ((old.form.active_field + 1) % 7) as usize, ..old.form },
                ..old
            })
            &&& flow == settle(new, false)
        },
        Action::PreviousField => {
            &&& new == (App {
                form: CommandForm {
                    active_field: if old.form.active_field == 0 { 6 } else { (old.form.active_field - 1) as usize },
                    ..old.form
                },
                ..old
            })
            &&& flow == settle(new, false)
        },
        Action::FlipFavoriteBox => {
            &&& new == (App { form: CommandForm { favorite: !old.form.favorite, ..old.form }, ..old })
            &&& flow == settle(new, false)
        },
        Action::FlipConfirmBox => {
            &&& new == (App { form: CommandForm { confirm: !old.form.confirm, ..old.form }, ..old })
            &&& flow == settle(new, false)
        },
        Action::EditField(edit) => {
            let k = old.form.active_field;
            &&& new == (App { form: new.form, ..old })
            &&& if k < 5 {
                &&& new.form == with_field(old.form, k, form_field(new.form, k))
                &&& edited(form_field(old.form, k), form_field(new.form, k), edit)
            } else {
                new.form == old.form
            }
            &&& flow == settle(new, false)
        },
        Action::ConfirmDelete => {
            &&& deleted(old, new, old.selected_entry() is Some)
            &&& flow == settle(new, old.selected_entry() is Some)
        },
        Action::CancelDelete => new == (App { active_block: ActiveBlock::List, ..old }) && flow == settle(
            new,
            false,
        ),
    }
}

/// The action can be performed on `app`: running needs a selected command,
/// selecting needs an existing row and submitting needs the edited entry.
pub open spec fn action_fits(app: App, a: Action) -> bool {
    match a {
        Action::Run => app.selected_entry() is Some,
        Action::Select(i) => i < app.filtered_commands@.len(),
        Action::SubmitForm => app.form.complete() ==> app.form.target_ok(app.config.commands@.len()),
        _ => true,
    }
}


/// The flow after an event, as `settle` states it.
fn settle_flow(app: &App, saved: bool) -> (flow: Flow)
    ensures
        flow == settle(*app, saved),
{
    if app.should_quit {
        Flow::Leave
    } else if saved {
        Flow::Persist
    } else {
        Flow::Continue
    }
}

impl App {
    /// The action that an event asks for; `height` is the terminal's height
    /// in rows (the footer takes the last three).
    pub fn decide(&self, ev: UiEvent, height: u16) -> (a: Action)
        ensures
            a == action_for(*self, ev, height),
    {
        match self.active_block {
            ActiveBlock::List => match ev {
                UiEvent::Key { code, edit } => match code {
                    KeyInput::Char(c) => if c == 'q' {
                        Action::Quit
                    } else if c == 'j' {
                        Action::Down
                    } else if c == 'k' {
                        Action::Up
                    } else if c == 'n' {
                        Action::NewForm
                    } else if c == 'e' {
                        Action::EditForm
                    } else if c == 'd' {
                        self.guard(Action::AskDelete)
                    } else if c == 'f' {
                        Action::ToggleFavorite
                    } else if c == '/' {
                        Action::StartSearch
                    } else {
                        Action::Nothing
                    },
                    KeyInput::Esc => Action::Quit,
                    KeyInput::Down => Action::Down,
                    KeyInput::Up => Action::Up,
                    KeyInput::Enter => self.guard(Action::Run),
                    _ => Action::Nothing,
                },
                UiEvent::Mouse { kind, column, row } => match kind {
                    MouseInput::ScrollUp => Action::Up,
                    MouseInput::ScrollDown => Action::Down,
                    MouseInput::LeftDown => if row >= height.saturating_sub(3) {
                        self.guard(footer_button(column))
                    } else if row >= 3 {
                        let clicked_row = (row - 3) as usize;
                        let i = self.list_state.offset().saturating_add(clicked_row);
                        if i < self.filtered_commands.len() {
                            Action::Select(i)
                        } else {
                            Action::Nothing
                        }
                    } else {
                        Action::Nothing
                    },
                    MouseInput::Other => Action::Nothing,
                },
                UiEvent::Other => Action::Nothing,
            },
            ActiveBlock::Search => match ev {
                UiEvent::Key { code, edit } => match code {
                    KeyInput::Esc => Action::EndSearch,
                    KeyInput::Enter => Action::EndSearch,
                    _ => Action::EditSearch(edit),
                },
                _ => Action::Nothing,
            },
            ActiveBlock::Form => match ev {
                UiEvent::Key { code, edit } => match code {
                    KeyInput::Esc => Action::CloseForm,
                    KeyInput::Enter => Action::SubmitForm,
                    KeyInput::Tab => Action::NextField,
                    KeyInput::Down => Action::NextField,
                    KeyInput::BackTab => Action::PreviousField,
                    KeyInput::Up => Action::PreviousField,
                    KeyInput::Char(c) => if c == ' ' && self.form.active_field >= 5 {
                        if self.form.active_field == 5 {
                            Action::FlipFavoriteBox
                        } else {
                            Action::FlipConfirmBox
                        }
                    } else {
                        Action::EditField(edit)
                    },
                    _ => Action::EditField(edit),
                },
                _ => Action::Nothing,
            },
            ActiveBlock::DeleteConfirm => match ev {
                UiEvent::Key { code, edit } => match code {
                    KeyInput::Char(c) => if c == 'y' || c == 'Y' {
                        Action::ConfirmDelete
                    } else if c == 'n' || c == 'N' {
                        Action::CancelDelete
                    } else {
                        Action::Nothing
                    },
                    KeyInput::Enter => Action::ConfirmDelete,
                    KeyInput::Esc => Action::CancelDelete,
                    _ => Action::Nothing,
                },
                _ => Action::Nothing,
            },
            _ => Action::Nothing,
        }
    }

    /// Drops a run or delete request that has no selected row to act on.
    fn guard(&self, a: Action) -> (r: Action)
        ensures
            r == guarded(*self, a),
    {
        match a {
            Action::Run => if self.selected_command().is_some() {
                Action::Run
            } else {
                Action::Nothing
            },
            Action::AskDelete => if self.list_state.selected().is_some() {
                Action::AskDelete
            } else {
                Action::Nothing
            },
            _ => a,
        }
    }
}

/// The footer button under a column, as `footer_action` states it.
fn footer_button(col: u16) -> (a: Action)
    ensures
        a == footer_action(col),
{
    if 3 <= col && col <= 18 {
        Action::Run
    } else if 34 <= col && col <= 48 {
        Action::StartSearch
    } else if 49 <= col && col <= 60 {
        Action::NewForm
    } else if 61 <= col && col <= 73 {
        Action::EditForm
    } else if 74 <= col && col <= 88 {
        Action::AskDelete
    } else if 89 <= col && col <= 100 {
        Action::ToggleFavorite
    } else if 101 <= col && col <= 110 {
        Action::Quit
    } else {
        Action::Nothing
    }
}


impl App {
    /// Carries out an action and tells the event loop how to go on.
    fn perform(&mut self, a: Action) -> (flow: Flow)
        requires
            old(self).wf(),
            action_fits(*old(self), a),
        ensures
            performs(*old(self), a, *final(self), flow),
            final(self).wf(),
    {
        proof {
            self.lemma_wf_selection_valid();
        }
        match a {
            Action::Nothing => settle_flow(self, false),
            Action::Quit => {
                self.should_quit = true;
                Flow::Leave
            },
            Action::Down => {
                self.next();
                settle_flow(self, false)
            },
            Action::Up => {
                self.previous();
                settle_flow(self, false)
            },
            Action::NewForm => {
                self.open_new_form();
                settle_flow(self, false)
            },
            Action::EditForm => {
                self.open_edit_form();
                settle_flow(self, false)
            },
            Action::AskDelete => {
                self.active_block = ActiveBlock::DeleteConfirm;
                settle_flow(self, false)
            },
            Action::ToggleFavorite => {
                let saved = self.toggle_favorite();
                proof {
                    crate::selection::law_refit_fits(old(self).list_state, self.filtered_commands@.len());
                }
                settle_flow(self, saved)
            },
            Action::StartSearch => {
                self.active_block = ActiveBlock::Search;
                settle_flow(self, false)
            },
            Action::Run => {
                let idx = self.selected_command().unwrap();
                self.command_to_run = Some(self.config.commands[idx].name.clone());
                Flow::Leave
            },
            Action::Select(i) => {
                self.list_state.select(Some(i));
                settle_flow(self, false)
            },
            Action::EndSearch => {
                self.active_block = ActiveBlock::List;
                settle_flow(self, false)
            },
            Action::EditSearch(edit) => {
                if let Some(r) = edit {
                    input_handle(&mut self.search_input, r);
                }
                let ghost mid = *self;
                self.update_filter();
                proof {
                    crate::selection::law_refit_fits(mid.list_state, self.filtered_commands@.len());
                }
                settle_flow(self, false)
            },
            Action::CloseForm => {
                self.active_block = ActiveBlock::List;
                settle_flow(self, false)
            },
            Action::SubmitForm => {
                let saved = self.submit_form();
                proof {
                    crate::selection::law_refit_fits(old(self).list_state, self.filtered_commands@.len());
                }
                settle_flow(self, saved)
            },
            Action::NextField => {
                self.form.active_field = (self.form.active_field + 1) % 7;
                settle_flow(self, false)
            },
            Action::PreviousField => {
                self.form.active_field = if self.form.active_field == 0 {
                    6
                } else {
                    self.form.active_field - 1
                };
                settle_flow(self, false)
            },
            Action::FlipFavoriteBox => {
                self.form.favorite = !self.form.favorite;
                settle_flow(self, false)
            },
            Action::FlipConfirmBox => {
                self.form.confirm = !self.form.confirm;
                settle_flow(self, false)
            },
            Action::EditField(edit) => {
                if let Some(r) = edit {
                    match self.form.active_field {
                        0 => input_handle(&mut self.form.name, r),
                        1 => input_handle(&mut self.form.display_name, r),
                        2 => input_handle(&mut self.form.description, r),
                        3 => input_handle(&mut self.form.category, r),
                        4 => input_handle(&mut self.form.command, r),
                        _ => {},
                    }
                }
                settle_flow(self, false)
            },
            Action::ConfirmDelete => {
                let saved = self.delete_selected();
                proof {
                    crate::selection::law_refit_fits(old(self).list_state, self.filtered_commands@.len());
                }
                settle_flow(self, saved)
            },
            Action::CancelDelete => {
                self.active_block = ActiveBlock::List;
                settle_flow(self, false)
            },
        }
    }

    /// Handles one terminal event: decides what it asks for, carries it out
    /// and tells the event loop whether to go on, store the commands, or
    /// leave. `height` is the terminal's height in rows.
    pub fn handle_event(&mut self, ev: UiEvent, height: u16) -> (flow: Flow)
        requires
            old(self).wf(),
        ensures
            performs(*old(self), action_for(*old(self), ev, height), *final(self), flow),
            final(self).wf(),
    {
        let a = self.decide(ev, height);
        proof {
            self.lemma_wf_selection_valid();
        }
        self.perform(a)
    }
}

/// In the command list, the Up key and `k` move the selection to the row
/// above, from the first row to the last; nothing else changes.
pub proof fn law_up_keys_move_up(old: App, new: App, flow: Flow, code: KeyInput, edit: Option<EditRequest>, height: u16)
    requires
        old.wf(),
        old.active_block == ActiveBlock::List,
        code == KeyInput::Up || code == KeyInput::Char('k'),
        old.filtered_commands@.len() > 0,
        performs(old, action_for(old, UiEvent::Key { code, edit }, height), new, flow),
    ensures
        new.list_state.selected == Some(
            (if old.list_state.selected->0 == 0 {
                old.filtered_commands@.len() - 1
            } else {
                old.list_state.selected->0 - 1
            }) as usize,
        ),
        new.config == old.config,
        new.filtered_commands == old.filtered_commands,
        new.active_block == ActiveBlock::List,
        flow == (if old.should_quit { Flow::Leave } else { Flow::Continue }),
{
}

/// In the command list, the Down key and `j` move the selection to the row
/// below, from the last row to the first; nothing else changes.
pub proof fn law_down_keys_move_down(old: App, new: App, flow: Flow, code: KeyInput, edit: Option<EditRequest>, height: u16)
    requires
        old.wf(),
        old.active_block == ActiveBlock::List,
        code == KeyInput::Down || code == KeyInput::Char('j'),
        old.filtered_commands@.len() > 0,
        performs(old, action_for(old, UiEvent::Key { code, edit }, height), new, flow),
    ensures
        new.list_state.selected == Some(
            (if old.list_state.selected->0 + 1 == old.filtered_commands@.len() {
                0
            } else {
                old.list_state.selected->0 + 1
            }) as usize,
        ),
        new.config == old.config,
        new.filtered_commands == old.filtered_commands,
        new.active_block == ActiveBlock::List,
        flow == (if old.should_quit { Flow::Leave } else { Flow::Continue }),
{
}

/// In the delete dialog, `y`, `Y` and Enter delete the selected command,
/// return to the list and ask for the commands to be stored.
pub proof fn law_confirm_keys_delete(old: App, new: App, flow: Flow, code: KeyInput, edit: Option<EditRequest>, height: u16)
    requires
        old.wf(),
        old.active_block == ActiveBlock::DeleteConfirm,
        code == KeyInput::Char('y') || code == KeyInput::Char('Y') || code == KeyInput::Enter,
        old.selected_entry() is Some,
        !old.should_quit,
        performs(old, action_for(old, UiEvent::Key { code, edit }, height), new, flow),
    ensures
        new.config.commands@ == old.config.commands@.remove(old.selected_entry()->0 as int),
        new.active_block == ActiveBlock::List,
        flow == Flow::Persist,
{
}

/// In the delete dialog, `n`, `N` and Esc keep every command and return to
/// the list.
pub proof fn law_cancel_keys_keep(old: App, new: App, flow: Flow, code: KeyInput, edit: Option<EditRequest>, height: u16)
    requires
        old.wf(),
        old.active_block == ActiveBlock::DeleteConfirm,
        code == KeyInput::Char('n') || code == KeyInput::Char('N') || code == KeyInput::Esc,
        performs(old, action_for(old, UiEvent::Key { code, edit }, height), new, flow),
    ensures
        new.config == old.config,
        new.active_block == ActiveBlock::List,
        flow != Flow::Persist,
{
}

/// `new` holds the text of `old` with `c` typed at the cursor, the cursor
/// after it.
pub open spec fn typed_into(old: Input, new: Input, c: char) -> bool {
    let t = input_text(old);
    let k = input_cursor(old) as int;
    &&& input_text(new) == t.take(k).push(c) + t.skip(k)
    &&& input_cursor(new) == k + 1
}

/// In the form, a character typed while field `k` of the five text fields
/// has the focus (0 name, 1 display name, 2 description, 3 category,
/// 4 command) goes into that field; the other fields, the boxes and the
/// commands stay as they were.
pub proof fn law_typing_goes_to_focused_field(old: App, new: App, flow: Flow, c: char, height: u16)
    requires
        old.wf(),
        old.active_block == ActiveBlock::Form,
        old.form.active_field < 5,
        performs(
            old,
            action_for(old, UiEvent::Key { code: KeyInput::Char(c), edit: Some(EditRequest::InsertChar(c)) }, height),
            new,
            flow,
        ),
    ensures
        if old.form.active_field == 0 {
            typed_into(old.form.name, new.form.name, c)
        } else {
            new.form.name == old.form.name
        },
        if old.form.active_field == 1 {
            typed_into(old.form.display_name, new.form.display_name, c)
        } else {
            new.form.display_name == old.form.display_name
        },
        if old.form.active_field == 2 {
            typed_into(old.form.description, new.form.description, c)
        } else {
            new.form.description == old.form.description
        },
        if old.form.active_field == 3 {
            typed_into(old.form.category, new.form.category, c)
        } else {
            new.form.category == old.form.category
        },
        if old.form.active_field == 4 {
            typed_into(old.form.command, new.form.command, c)
        } else {
            new.form.command == old.form.command
        },
        new.form.active_field == old.form.active_field,
        new.form.favorite == old.form.favorite,
        new.form.confirm == old.form.confirm,
        new.config == old.config,
        new.active_block == ActiveBlock::Form,
{
}

/// The command behind the selected row of a list that is not empty.
pub open spec fn selected_cmd_index(app: App) -> int {
    app.filtered_commands@[app.list_state.selected->0 as int] as int
}

/// The other keys of the command list: `q` and Esc quit; `/` opens the
/// search; `n` opens an empty form; `e` opens the form on the selected
/// command; `d` asks to delete it; `f` flips its favorite mark; Enter chooses
/// it to run and leaves. With nothing listed, Enter, `d` and `e` do nothing.
pub proof fn law_list_keys(old: App, new: App, flow: Flow, code: KeyInput, edit: Option<EditRequest>, height: u16)
    requires
        old.wf(),
        old.active_block == ActiveBlock::List,
        performs(old, action_for(old, UiEvent::Key { code, edit }, height), new, flow),
    ensures
        code == KeyInput::Char('q') || code == KeyInput::Esc ==> {
            &&& new.should_quit
            &&& flow == Flow::Leave
            &&& new.config == old.config
            &&& new.active_block == ActiveBlock::List
        },
        code == KeyInput::Char('/') ==> {
            &&& new.active_block == ActiveBlock::Search
            &&& new.config == old.config
            &&& new.search_input == old.search_input
            &&& new.filtered_commands == old.filtered_commands
        },
        code == KeyInput::Char('n') ==> {
            &&& new.active_block == ActiveBlock::Form
            &&& !new.form.is_edit
            &&& new.form.active_field == 0
            &&& input_text(new.form.name) == Seq::<char>::empty()
            &&& input_text(new.form.display_name) == Seq::<char>::empty()
            &&& input_text(new.form.description) == Seq::<char>::empty()
            &&& input_text(new.form.category) == Seq::<char>::empty()
            &&& input_text(new.form.command) == Seq::<char>::empty()
            &&& !new.form.favorite && !new.form.confirm
            &&& new.config == old.config
        },
        code == KeyInput::Char('e') && old.filtered_commands@.len() > 0 ==> {
            let e = old.config.commands@[selected_cmd_index(old)];
            &&& new.active_block == ActiveBlock::Form
            &&& new.form.is_edit
            &&& new.form.edit_idx == Some(selected_cmd_index(old) as usize)
            &&& input_text(new.form.name) == e.name@
            &&& input_text(new.form.display_name) == (match e.display_name {
                Some(t) => t@,
                None => Seq::<char>::empty(),
            })
            &&& input_text(new.form.description) == (match e.description {
                Some(t) => t@,
                None => Seq::<char>::empty(),
            })
            &&& input_text(new.form.category) == (match e.category {
                Some(t) => t@,
                None => Seq::<char>::empty(),
            })
            &&& input_text(new.form.command) == e.command@
            &&& new.form.favorite == e.favorite
            &&& new.form.confirm == e.confirmation_required
            &&& new.config == old.config
        },
        code == KeyInput::Char('d') ==> {
            &&& new.active_block == if old.filtered_commands@.len() > 0 {
                ActiveBlock::DeleteConfirm
            } else {
                ActiveBlock::List
            }
            &&& new.config == old.config
        },
        code == KeyInput::Char('f') && old.filtered_commands@.len() > 0 ==> {
            let i = selected_cmd_index(old);
            &&& new.config.commands@.len() == old.config.commands@.len()
            &&& new.config.commands@[i].favorite == !old.config.commands@[i].favorite
            &&& new.config.commands@[i].name == old.config.commands@[i].name
            &&& forall|j: int| 0 <= j < old.config.commands@.len() && j != i ==>
                #[trigger] new.config.commands@[j] == old.config.commands@[j]
            &&& flow == if old.should_quit { Flow::Leave } else { Flow::Persist }
        },
        code == KeyInput::Enter && old.filtered_commands@.len() > 0 ==> {
            &&& new.command_to_run == Some(old.config.commands@[selected_cmd_index(old)].name)
            &&& flow == Flow::Leave
            &&& new.config == old.config
        },
        (code == KeyInput::Enter || code == KeyInput::Char('d') || code == KeyInput::Char('e'))
            && old.filtered_commands@.len() == 0 ==> new == old,
{
}

/// Keys of the search box: Esc and Enter return to the list keeping the
/// search text; a typed character goes in at the cursor and the list is
/// recomputed for the new text.
pub proof fn law_search_keys(old: App, new: App, flow: Flow, code: KeyInput, edit: Option<EditRequest>, height: u16)
    requires
        old.wf(),
        old.active_block == ActiveBlock::Search,
        performs(old, action_for(old, UiEvent::Key { code, edit }, height), new, flow),
    ensures
        code == KeyInput::Esc || code == KeyInput::Enter ==> {
            &&& new.active_block == ActiveBlock::List
            &&& new.search_input == old.search_input
            &&& new.filtered_commands == old.filtered_commands
            &&& new.config == old.config
        },
        code != KeyInput::Esc && code != KeyInput::Enter ==> {
            &&& new.active_block == ActiveBlock::Search
            &&& new.config == old.config
            &&& edit matches Some(EditRequest::InsertChar(c)) ==> typed_into(old.search_input, new.search_input, c)
            &&& edit is None ==> new.search_input == old.search_input
            &&& crate::ranking::is_ranking(new.config.commands@, input_text(new.search_input), new.filtered_commands@)
        },
{
}

/// Keys of the form: Esc closes it without saving; Tab and Down move the
/// focus to the next of the seven fields, BackTab and Up to the previous,
/// wrapping around; space on field 5 flips the favorite box and on field 6
/// the confirmation box.
pub proof fn law_form_keys(old: App, new: App, flow: Flow, code: KeyInput, edit: Option<EditRequest>, height: u16)
    requires
        old.wf(),
        old.active_block == ActiveBlock::Form,
        performs(old, action_for(old, UiEvent::Key { code, edit }, height), new, flow),
    ensures
        code == KeyInput::Esc ==> {
            &&& new.active_block == ActiveBlock::List
            &&& new.config == old.config
            &&& new.form == old.form
        },
        code == KeyInput::Tab || code == KeyInput::Down ==> {
            &&& new.form.active_field == if old.form.active_field == 6 { 0 } else { old.form.active_field + 1 }
            &&& new.form.name == old.form.name
            &&& new.form.command == old.form.command
            &&& new.config == old.config
            &&& new.active_block == ActiveBlock::Form
        },
        code == KeyInput::BackTab || code == KeyInput::Up ==> {
            &&& new.form.active_field == if old.form.active_field == 0 { 6 } else { old.form.active_field - 1 }
            &&& new.form.name == old.form.name
            &&& new.form.command == old.form.command
            &&& new.config == old.config
            &&& new.active_block == ActiveBlock::Form
        },
        code == KeyInput::Char(' ') && old.form.active_field == 5 ==> {
            &&& new.form.favorite == !old.form.favorite
            &&& new.form.confirm == old.form.confirm
            &&& new.config == old.config
        },
        code == KeyInput::Char(' ') && old.form.active_field == 6 ==> {
            &&& new.form.confirm == !old.form.confirm
            &&& new.form.favorite == old.form.favorite
            &&& new.config == old.config
        },
{
}

/// The mouse on the command list: scrolling moves the selection like Up and
/// Down; a left click on row `r` of the list (below the three title rows and
/// above the three footer rows) selects the row `offset + r - 3` when it
/// exists; a click on the footer presses the button under it (Run 3-18,
/// Search 34-48, New 49-60, Edit 61-73, Delete 74-88, Fav 89-100,
/// Quit 101-110; elsewhere nothing).
pub proof fn law_mouse(old: App, new: App, flow: Flow, kind: MouseInput, column: u16, row: u16, height: u16)
    requires
        old.wf(),
        old.active_block == ActiveBlock::List,
        performs(old, action_for(old, UiEvent::Mouse { kind, column, row }, height), new, flow),
    ensures
        kind == MouseInput::ScrollUp && old.filtered_commands@.len() > 0 ==> new.list_state.selected == Some(
            (if old.list_state.selected->0 == 0 {
                old.filtered_commands@.len() - 1
            } else {
                old.list_state.selected->0 - 1
            }) as usize,
        ),
        kind == MouseInput::ScrollDown && old.filtered_commands@.len() > 0 ==> new.list_state.selected == Some(
            (if old.list_state.selected->0 + 1 == old.filtered_commands@.len() {
                0
            } else {
                old.list_state.selected->0 + 1
            }) as usize,
        ),
        kind == MouseInput::LeftDown && height >= 3 && 3 <= row < height - 3 ==> {
            let r = old.list_state.offset + row - 3;
            &&& r < old.filtered_commands@.len() ==> new.list_state.selected == Some(r as usize)
            &&& r >= old.filtered_commands@.len() ==> new == old
            &&& new.config == old.config
        },
        kind == MouseInput::LeftDown && row >= height - 3 ==> {
            &&& 101 <= column <= 110 ==> new.should_quit && flow == Flow::Leave
            &&& 34 <= column <= 48 ==> new.active_block == ActiveBlock::Search
            &&& 49 <= column <= 60 ==> new.active_block == ActiveBlock::Form && !new.form.is_edit
            &&& 61 <= column <= 73 && old.filtered_commands@.len() > 0 ==> new.active_block == ActiveBlock::Form
                && new.form.is_edit
            &&& 74 <= column <= 88 && old.filtered_commands@.len() > 0 ==> new.active_block
                == ActiveBlock::DeleteConfirm
            &&& 89 <= column <= 100 && old.filtered_commands@.len() > 0 ==> new.config.commands@[selected_cmd_index(
                old,
            )].favorite == !old.config.commands@[selected_cmd_index(old)].favorite
            &&& 3 <= column <= 18 && old.filtered_commands@.len() > 0 ==> new.command_to_run == Some(
                old.config.commands@[selected_cmd_index(old)].name,
            ) && flow == Flow::Leave
            &&& (column < 3 || 19 <= column <= 33 || column > 110) ==> new == old
        },
{
}

} // verus!

use vstd::prelude::*;
use tui_input::Input;
use crate::model::{CmdEntry, Config};
use crate::input::{input_text, input_cursor, new_input, input_with_value, input_value};
use crate::ranking::{shows, rank_commands};
use crate::selection::{ListState, selection_fits, next_index, prev_index, refit};
use crate::text::{trim, trim_str};

verus! {

/// The part of the screen that has the keyboard.
#[derive(Clone, Copy, Debug, PartialEq, Eq, Structural)]
pub enum ActiveBlock {
    List,
    Search,
    Form,
    DeleteConfirm,
    Settings,
    ThemeSelector,
}

/// The add/edit form: which entry it edits, the focused field (0 to 6) and
/// the field values.
pub struct CommandForm {
    pub is_edit: bool,
    pub edit_idx: Option<usize>,
    pub active_field: usize,
    pub name: Input,
    pub display_name: Input,
    pub description: Input,
    pub category: Input,
    pub command: Input,
    pub favorite: bool,
    pub confirm: bool,
}

/// The state of the launcher.
pub struct App {
    pub config: Config,
    pub list_state: ListState,
    pub should_quit: bool,
    pub command_to_run: Option<String>,
    pub active_block: ActiveBlock,
    pub search_input: Input,
    pub filtered_commands: Vec<usize>,
    pub form: CommandForm,
    pub settings_state: ListState,
    pub theme_state: ListState,
}

/// The cursor of a text input lies within its text.
pub open spec fn input_ok(i: Input) -> bool {
    input_cursor(i) <= input_text(i).len()
}

/// An optional text given by its characters.
pub open spec fn opt_view(o: Option<String>) -> Option<Seq<char>> {
    match o {
        Some(s) => Some(s@),
        None => None,
    }
}

/// An optional form field: the trimmed text, absent when blank.
pub open spec fn opt_trimmed(s: Seq<char>) -> Option<Seq<char>> {
    if trim(s).len() == 0 {
        None
    } else {
        Some(trim(s))
    }
}

impl CommandForm {
    /// Every field's cursor lies within its text.
    pub open spec fn inputs_ok(&self) -> bool {
        &&& input_ok(self.name)
        &&& input_ok(self.display_name)
        &&& input_ok(self.description)
        &&& input_ok(self.category)
        &&& input_ok(self.command)
    }

    /// The edited entry, if any, exists among `n` entries.
    pub open spec fn target_ok(&self, n: nat) -> bool {
        self.is_edit && self.edit_idx is Some ==> self.edit_idx->0 < n
    }

    /// The form can be submitted: name and command are not blank.
    pub open spec fn complete(&self) -> bool {
        trim(input_text(self.name)).len() > 0 && trim(input_text(self.command)).len() > 0
    }

    /// `e` is the entry the form submits: trimmed name and command, each
    /// optional text trimmed and absent when blank, no working directory.
    pub open spec fn submits(&self, e: CmdEntry) -> bool {
        &&& e.name@ == trim(input_text(self.name))
        &&& opt_view(e.display_name) == opt_trimmed(input_text(self.display_name))
        &&& opt_view(e.description) == opt_trimmed(input_text(self.description))
        &&& opt_view(e.category) == opt_trimmed(input_text(self.category))
        &&& e.command@ == trim(input_text(self.command))
        &&& e.favorite == self.favorite
        &&& e.confirmation_required == self.confirm
        &&& e.working_directory is None
    }

    /// The form is empty: a new entry, first field focused, blank fields,
    /// boxes unticked.
    pub open spec fn is_blank(&self) -> bool {
        &&& !self.is_edit
        &&& self.edit_idx is None
        &&& self.active_field == 0
        &&& input_text(self.name) == Seq::<char>::empty() && input_cursor(self.name) == 0
        &&& input_text(self.display_name) == Seq::<char>::empty() && input_cursor(self.display_name) == 0
        &&& input_text(self.description) == Seq::<char>::empty() && input_cursor(self.description) == 0
        &&& input_text(self.category) == Seq::<char>::empty() && input_cursor(self.category) == 0
        &&& input_text(self.command) == Seq::<char>::empty() && input_cursor(self.command) == 0
        &&& !self.favorite
        &&& !self.confirm
    }

    /// The form edits entry `idx`, holding its values with every cursor at
    /// the end of its field.
    pub open spec fn loaded_from(&self, idx: usize, e: CmdEntry) -> bool {
        &&& self.is_edit
        &&& self.edit_idx == Some(idx)
        &&& self.active_field == 0
        &&& input_text(self.name) == e.name@
        &&& input_text(self.display_name) == crate::model::opt_text(e.display_name)
        &&& input_text(self.description) == crate::model::opt_text(e.description)
        &&& input_text(self.category) == crate::model::opt_text(e.category)
        &&& input_text(self.command) == e.command@
        &&& input_cursor(self.name) == input_text(self.name).len()
        &&& input_cursor(self.display_name) == input_text(self.display_name).len()
        &&& input_cursor(self.description) == input_text(self.description).len()
        &&& input_cursor(self.category) == input_text(self.category).len()
        &&& input_cursor(self.command) == input_text(self.command).len()
        &&& self.favorite == e.favorite
        &&& self.confirm == e.confirmation_required
    }
}

impl Default for CommandForm {
    fn default() -> (f: Self)
        ensures
            f.is_blank(),
    {
        CommandForm {
            is_edit: false,
            edit_idx: None,
            active_field: 0,
            name: new_input(),
            display_name: new_input(),
            description: new_input(),
            category: new_input(),
            command: new_input(),
            favorite: false,
            confirm: false,
        }
    }
}

/// The trimmed text of a field, absent when blank.
fn trimmed_field(i: &Input) -> (r: Option<String>)
    ensures
        opt_view(r) == opt_trimmed(input_text(*i)),
{
    let t = trim_str(input_value(i));
    if t.is_empty() {
        None
    } else {
        Some(String::from_str(t))
    }
}

/// Whether an entry is already named `name`.
fn name_taken(cmds: &Vec<CmdEntry>, name: &String) -> (r: bool)
    ensures
        r == exists|j: int| 0 <= j < cmds.len() && (#[trigger] cmds@[j]).name@ == name@,
{
    let mut i: usize = 0;
    while i < cmds.len()
        invariant
            i <= cmds.len(),
            forall|j: int| 0 <= j < i ==> (#[trigger] cmds@[j]).name@ != name@,
        decreases cmds.len() - i,
    {
        if cmds[i].name == *name {
            return true;
        }
        i = i + 1;
    }
    false
}

/// The text of an optional field, empty when absent.
fn text_or_empty(o: &Option<String>) -> (r: String)
    ensures
        r@ == crate::model::opt_text(*o),
{
    match o {
        Some(s) => s.clone(),
        None => String::new(),
    }
}

/// Some command is named `name`.
pub open spec fn name_in_use(cmds: Seq<CmdEntry>, name: Seq<char>) -> bool {
    exists|j: int| 0 <= j < cmds.len() && (#[trigger] cmds[j]).name@ == name
}

/// `e` with its favorite mark flipped.
pub open spec fn flip_favorite(e: CmdEntry) -> CmdEntry {
    CmdEntry { favorite: !e.favorite, ..e }
}

/// `new` is `old` after the list was recomputed.
pub open spec fn filtered(old: App, new: App) -> bool {
    &&& new.refiltered_from(old)
    &&& new.config == old.config
    &&& new.active_block == old.active_block
    &&& new.keeps_rest(old)
}

/// `new` is `old` with only the list selection changed, to `st`.
pub open spec fn reselected(old: App, new: App, st: ListState) -> bool {
    &&& new.list_state == st
    &&& new.config == old.config
    &&& new.filtered_commands == old.filtered_commands
    &&& new.active_block == old.active_block
    &&& new.keeps_rest(old)
}

/// `new` is `old` after moving the selection down.
pub open spec fn moved_down(old: App, new: App) -> bool {
    let n = old.filtered_commands@.len();
    reselected(old, new, if n == 0 {
        old.list_state
    } else {
        ListState { offset: old.list_state.offset, selected: Some(next_index(old.list_state.selected, n) as usize) }
    })
}

/// `new` is `old` after moving the selection up.
pub open spec fn moved_up(old: App, new: App) -> bool {
    let n = old.filtered_commands@.len();
    reselected(old, new, if n == 0 {
        old.list_state
    } else {
        ListState { offset: old.list_state.offset, selected: Some(prev_index(old.list_state.selected, n) as usize) }
    })
}

/// `new` is `old` with the form replaced and the focus set as given; the
/// rest is unchanged.
pub open spec fn form_swapped(old: App, new: App) -> bool {
    &&& new.config == old.config
    &&& new.filtered_commands == old.filtered_commands
    &&& new.list_state == old.list_state
    &&& new.should_quit == old.should_quit
    &&& new.command_to_run == old.command_to_run
    &&& new.search_input == old.search_input
    &&& new.settings_state == old.settings_state
    &&& new.theme_state == old.theme_state
}

/// `new` is `old` after opening an empty form.
pub open spec fn opened_new(old: App, new: App) -> bool {
    &&& new.form.is_blank()
    &&& new.active_block == ActiveBlock::Form
    &&& form_swapped(old, new)
}

/// `new` is `old` after opening the form on the selected command, if any.
pub open spec fn opened_edit(old: App, new: App) -> bool {
    &&& match old.selected_entry() {
        Some(idx) => {
            &&& new.form.loaded_from(idx, old.config.commands@[idx as int])
            &&& new.active_block == ActiveBlock::Form
        },
        None => {
            &&& new.form == old.form
            &&& new.active_block == old.active_block
        },
    }
    &&& form_swapped(old, new)
}

/// The commands after the form was saved into `old`: the edited entry
/// replaced, or the new entry appended.
pub open spec fn commands_after_submit(old: App, new: App) -> bool {
    let before = old.config.commands@;
    let after = new.config.commands@;
    if old.form.is_edit {
        match old.form.edit_idx {
            Some(idx) => {
                &&& after.len() == before.len()
                &&& forall|j: int| 0 <= j < before.len() && j != idx ==> #[trigger] after[j] == before[j]
                &&& old.form.submits(after[idx as int])
            },
            None => after == before,
        }
    } else {
        &&& after.len() == before.len() + 1
        &&& after.drop_last() == before
        &&& old.form.submits(after.last())
    }
}

/// `new` is `old` after submitting the form, `saved` telling whether the
/// commands changed.
pub open spec fn submitted(old: App, new: App, saved: bool) -> bool {
    &&& saved == (old.form.complete() && (old.form.is_edit || !name_in_use(
        old.config.commands@,
        trim(input_text(old.form.name)),
    )))
    &&& !saved ==> new == old
    &&& saved ==> {
        &&& commands_after_submit(old, new)
        &&& new.refiltered_from(old)
        &&& new.active_block == ActiveBlock::List
        &&& new.keeps_rest(old)
    }
}

/// `new` is `old` after deleting the selected command, if any; `saved`
/// tells whether one was deleted.
pub open spec fn deleted(old: App, new: App, saved: bool) -> bool {
    &&& new.active_block == ActiveBlock::List
    &&& new.keeps_rest(old)
    &&& match old.selected_entry() {
        Some(idx) => {
            &&& saved
            &&& new.config.commands@ == old.config.commands@.remove(idx as int)
            &&& new.refiltered_from(old)
        },
        None => {
            &&& !saved
            &&& new.config.commands == old.config.commands
            &&& new.filtered_commands == old.filtered_commands
            &&& new.list_state == old.list_state
        },
    }
}

/// `new` is `old` after flipping the favorite mark of the selected command,
/// if any; `saved` tells whether one was flipped.
pub open spec fn toggled(old: App, new: App, saved: bool) -> bool {
    &&& saved == old.selected_entry() is Some
    &&& new.active_block == old.active_block
    &&& new.keeps_rest(old)
    &&& match old.selected_entry() {
        Some(idx) => {
            &&& new.config.commands@ == old.config.commands@.update(
                idx as int,
                flip_favorite(old.config.commands@[idx as int]),
            )
            &&& new.refiltered_from(old)
        },
        None => {
            &&& new.config.commands == old.config.commands
            &&& new.filtered_commands == old.filtered_commands
            &&& new.list_state == old.list_state
        },
    }
}

impl App {
    /// The invariant kept between events: the list shows exactly the ranking
    /// of the commands for the search text, the selection fits it, the text
    /// cursors lie within their texts, the focused field is one of the seven
    /// and an open form edits an existing entry.
    pub open spec fn wf(&self) -> bool {
        &&& shows(self.config.commands@, input_text(self.search_input), self.filtered_commands@)
        &&& selection_fits(self.list_state.selected, self.filtered_commands@.len())
        &&& input_ok(self.search_input)
        &&& self.form.inputs_ok()
        &&& self.form.active_field < 7
        &&& self.active_block == ActiveBlock::Form ==> self.form.target_ok(self.config.commands@.len())
    }

    /// The position in the command list of the selected row, if a row is
    /// selected.
    pub open spec fn selected_entry(&self) -> Option<usize> {
        match self.list_state.selected {
            Some(i) => if i < self.filtered_commands.len() {
                Some(self.filtered_commands@[i as int])
            } else {
                None
            },
            None => None,
        }
    }

    /// `self` is `old` with the list recomputed for the current commands and
    /// search text, and the old selection refitted to it.
    pub open spec fn refiltered_from(&self, old: App) -> bool {
        &&& shows(self.config.commands@, input_text(self.search_input), self.filtered_commands@)
        &&& self.list_state == refit(old.list_state, self.filtered_commands@.len())
    }

    /// Everything but the commands, the list and its selection, and the
    /// focused block is as in `old`.
    pub open spec fn keeps_rest(&self, old: App) -> bool {
        &&& self.config.preferences == old.config.preferences
        &&& self.should_quit == old.should_quit
        &&& self.command_to_run == old.command_to_run
        &&& self.search_input == old.search_input
        &&& self.form == old.form
        &&& self.settings_state == old.settings_state
        &&& self.theme_state == old.theme_state
    }

    /// The list is consistent: every row leads to an existing command, no
    /// command is listed twice, and the selection fits the list.
    pub open spec fn list_ok(&self) -> bool {
        &&& self.rows_valid()
        &&& forall|j: int, k: int| 0 <= j < k < self.filtered_commands@.len() ==>
            (#[trigger] self.filtered_commands@[j]) != (#[trigger] self.filtered_commands@[k])
        &&& selection_fits(self.list_state.selected, self.filtered_commands@.len())
    }

    /// A recomputed list is consistent.
    proof fn lemma_refiltered_list_ok(&self, old: App)
        requires
            self.refiltered_from(old),
        ensures
            self.list_ok(),
    {
        let order = self.filtered_commands@;
        let s = crate::ranking::ranks(self.config.commands@, input_text(self.search_input));
        assert forall|k: int| 0 <= k < order.len() implies (#[trigger] order[k]) < self.config.commands@.len() by {
            assert(order[k] < s.len());
        }
        assert forall|j: int, k: int| 0 <= j < k < order.len() implies (#[trigger] order[j]) != (#[trigger] order[k]) by {
            assert(crate::ranking::listed_before(s, order[j] as int, order[k] as int));
        }
        crate::selection::law_refit_fits(old.list_state, order.len());
    }

    /// Starts on the command list, with the settings and theme lists on
    /// their first rows and every command listed.
    pub fn new(config: Config) -> (app: App)
        ensures
            app.wf(),
            app.config == config,
            app.active_block == ActiveBlock::List,
            !app.should_quit,
            app.command_to_run is None,
            input_text(app.search_input) == Seq::<char>::empty(),
            app.form.is_blank(),
            app.list_state.offset == 0,
            app.list_state.selected == if config.commands.len() == 0 { None } else { Some(0usize) },
            app.settings_state.selected == Some(0usize) && app.settings_state.offset == 0,
            app.theme_state.selected == Some(0usize) && app.theme_state.offset == 0,
    {
        let mut settings_state = ListState::default();
        settings_state.select(Some(0));
        let mut theme_state = ListState::default();
        theme_state.select(Some(0));
        let mut app = App {
            config,
            list_state: ListState::default(),
            should_quit: false,
            command_to_run: None,
            active_block: ActiveBlock::List,
            search_input: new_input(),
            filtered_commands: Vec::new(),
            form: CommandForm::default(),
            settings_state,
            theme_state,
        };
        app.update_filter();
        proof {
            crate::ranking::law_favorites_first(app.config.commands@, app.filtered_commands@);
            if app.config.commands.len() > 0 {
                assert(app.filtered_commands@.contains(0usize));
            } else if app.filtered_commands.len() > 0 {
                let order = app.filtered_commands@;
                assert(order[0] < crate::ranking::ranks(app.config.commands@, Seq::empty()).len());
            }
        }
        app
    }

    /// Recomputes the listed commands for the current search text and keeps
    /// the selection within the new list.
    pub fn update_filter(&mut self)
        ensures
            final(self).list_ok(),
            filtered(*old(self), *final(self)),
    {
        let order = rank_commands(&self.config.commands, input_value(&self.search_input));
        self.filtered_commands = order;
        let n = self.filtered_commands.len();
        if n == 0 {
            self.list_state.select(None);
        } else {
            match self.list_state.selected() {
                None => self.list_state.select(Some(0)),
                Some(i) => if i >= n {
                    self.list_state.select(Some(0));
                },
            }
        }
        proof {
            self.lemma_refiltered_list_ok(*old(self));
        }
    }

    /// Moves the selection down one row, from the last row to the first.
    pub fn next(&mut self)
        ensures
            old(self).list_ok() ==> final(self).list_ok(),
            moved_down(*old(self), *final(self)),
    {
        if self.filtered_commands.len() == 0 {
            return;
        }
        let i = match self.list_state.selected() {
            Some(i) => if i >= self.filtered_commands.len() - 1 { 0 } else { i + 1 },
            None => 0,
        };
        self.list_state.select(Some(i));
    }

    /// Moves the selection up one row, from the first row to the last.
    pub fn previous(&mut self)
        ensures
            old(self).list_ok() ==> final(self).list_ok(),
            moved_up(*old(self), *final(self)),
    {
        if self.filtered_commands.len() == 0 {
            return;
        }
        let i = match self.list_state.selected() {
            Some(i) => if i == 0 { self.filtered_commands.len() - 1 } else { i - 1 },
            None => 0,
        };
        self.list_state.select(Some(i));
    }

    /// The selected row, if any, leads to an existing command.
    pub open spec fn selection_valid(&self) -> bool {
        self.selected_entry() matches Some(idx) ==> idx < self.config.commands@.len()
    }

    /// Opens an empty form for a new command.
    pub fn open_new_form(&mut self)
        ensures
            old(self).list_ok() ==> final(self).list_ok(),
            opened_new(*old(self), *final(self)),
    {
        self.form = CommandForm::default();
        self.active_block = ActiveBlock::Form;
    }

    /// Opens the form on the selected command; does nothing when no row is
    /// selected.
    pub fn open_edit_form(&mut self)
        requires
            old(self).selection_valid(),
        ensures
            old(self).list_ok() ==> final(self).list_ok(),
            opened_edit(*old(self), *final(self)),
    {
        if let Some(i) = self.list_state.selected() {
            if i < self.filtered_commands.len() {
                let idx = self.filtered_commands[i];
                let cmd = &self.config.commands[idx];
                self.form = CommandForm {
                    is_edit: true,
                    edit_idx: Some(idx),
                    active_field: 0,
                    name: input_with_value(cmd.name.clone()),
                    display_name: input_with_value(text_or_empty(&cmd.display_name)),
                    description: input_with_value(text_or_empty(&cmd.description)),
                    category: input_with_value(text_or_empty(&cmd.category)),
                    command: input_with_value(cmd.command.clone()),
                    favorite: cmd.favorite,
                    confirm: cmd.confirmation_required,
                };
                self.active_block = ActiveBlock::Form;
            }
        }
    }

    /// Saves the form: a new command is appended unless its name is taken,
    /// an edited one replaces its entry. A form with a blank name or command
    /// is refused. Returns whether the commands changed and must be stored;
    /// on success the list is recomputed and the command list takes focus.
    pub fn submit_form(&mut self) -> (saved: bool)
        requires
            old(self).form.complete() ==> old(self).form.target_ok(old(self).config.commands@.len()),
        ensures
            old(self).list_ok() ==> final(self).list_ok(),
            submitted(*old(self), *final(self), saved),
    {
        let name_t = trim_str(input_value(&self.form.name));
        let command_t = trim_str(input_value(&self.form.command));
        if name_t.is_empty() || command_t.is_empty() {
            return false;
        }
        let new_cmd = CmdEntry {
            name: String::from_str(name_t),
            display_name: trimmed_field(&self.form.display_name),
            description: trimmed_field(&self.form.description),
            category: trimmed_field(&self.form.category),
            command: String::from_str(command_t),
            favorite: self.form.favorite,
            confirmation_required: self.form.confirm,
            working_directory: None,
        };
        if self.form.is_edit {
            if let Some(idx) = self.form.edit_idx {
                self.config.commands.set(idx, new_cmd);
            }
        } else {
            if name_taken(&self.config.commands, &new_cmd.name) {
                return false;
            }
            self.config.commands.push(new_cmd);
            assert(self.config.commands@.drop_last() =~= old(self).config.commands@);
        }
        self.update_filter();
        self.active_block = ActiveBlock::List;
        true
    }

    /// Deletes the selected command. Returns whether the commands changed
    /// and must be stored. The command list takes focus in either case.
    pub fn delete_selected(&mut self) -> (saved: bool)
        requires
            old(self).selection_valid(),
        ensures
            old(self).list_ok() ==> final(self).list_ok(),
            deleted(*old(self), *final(self), saved),
    {
        let mut saved = false;
        if let Some(i) = self.list_state.selected() {
            if i < self.filtered_commands.len() {
                let idx = self.filtered_commands[i];
                self.config.commands.remove(idx);
                self.update_filter();
                saved = true;
            }
        }
        self.active_block = ActiveBlock::List;
        saved
    }

    /// Flips the favorite mark of the selected command. Returns whether the
    /// commands changed and must be stored.
    pub fn toggle_favorite(&mut self) -> (saved: bool)
        requires
            old(self).selection_valid(),
        ensures
            old(self).list_ok() ==> final(self).list_ok(),
            toggled(*old(self), *final(self), saved),
    {
        if let Some(i) = self.list_state.selected() {
            if i < self.filtered_commands.len() {
                let idx = self.filtered_commands[i];
                let fav = self.config.commands[idx].favorite;
                self.config.commands[idx].favorite = !fav;
                self.update_filter();
                return true;
            }
        }
        false
    }

    /// In a consistent state the selected row leads to an existing command.
    pub proof fn lemma_wf_selection_valid(&self)
        requires
            self.wf(),
        ensures
            self.selection_valid(),
    {
        if let Some(i) = self.list_state.selected {
            if i < self.filtered_commands.len() {
                let order = self.filtered_commands@;
                assert(order[i as int] < crate::ranking::ranks(self.config.commands@, input_text(self.search_input)).len());
            }
        }
    }
}


/// Two entries hold the same texts and flags.
pub open spec fn same_entry(a: CmdEntry, b: CmdEntry) -> bool {
    &&& a.name@ == b.name@
    &&& opt_view(a.display_name) == opt_view(b.display_name)
    &&& opt_view(a.description) == opt_view(b.description)
    &&& a.command@ == b.command@
    &&& opt_view(a.category) == opt_view(b.category)
    &&& a.favorite == b.favorite
    &&& a.confirmation_required == b.confirmation_required
    &&& opt_view(a.working_directory) == opt_view(b.working_directory)
}

/// An optional text that the form gives back unchanged: absent, or present
/// without white space at its ends and not empty.
pub open spec fn opt_normal(o: Option<String>) -> bool {
    match o {
        Some(s) => s@.len() > 0 && trim(s@) == s@,
        None => true,
    }
}

/// An entry as the form writes it: trimmed, non-empty name and command,
/// optional texts absent or trimmed and non-empty, no working directory.
pub open spec fn normal_entry(e: CmdEntry) -> bool {
    &&& e.name@.len() > 0 && trim(e.name@) == e.name@
    &&& e.command@.len() > 0 && trim(e.command@) == e.command@
    &&& opt_normal(e.display_name)
    &&& opt_normal(e.description)
    &&& opt_normal(e.category)
    &&& e.working_directory is None
}

/// No two commands share a name.
pub open spec fn names_unique(cmds: Seq<CmdEntry>) -> bool {
    forall|i: int, j: int| 0 <= i < j < cmds.len() ==> (#[trigger] cmds[i]).name@ != (#[trigger] cmds[j]).name@
}

proof fn lemma_opt_roundtrip(o: Option<String>)
    requires
        opt_normal(o),
    ensures
        opt_trimmed(crate::model::opt_text(o)) == opt_view(o),
{
    match o {
        Some(s) => {},
        None => {
            assert(trim(Seq::<char>::empty()) == Seq::<char>::empty());
        },
    }
}

/// Opening the form on a command and submitting it unchanged gives every
/// command back as it was, for a command as the form writes it.
pub proof fn law_edit_round_trip(a: App, b: App, c: App, saved: bool)
    requires
        a.selection_valid(),
        a.selected_entry() is Some,
        normal_entry(a.config.commands@[a.selected_entry()->0 as int]),
        opened_edit(a, b),
        submitted(b, c, saved),
    ensures
        saved,
        c.config.commands@.len() == a.config.commands@.len(),
        forall|j: int| 0 <= j < a.config.commands@.len() ==>
            same_entry(#[trigger] c.config.commands@[j], a.config.commands@[j]),
{
    let idx = a.selected_entry()->0;
    let e = a.config.commands@[idx as int];
    lemma_opt_roundtrip(e.display_name);
    lemma_opt_roundtrip(e.description);
    lemma_opt_roundtrip(e.category);
    assert(b.form.complete());
    assert forall|j: int| 0 <= j < a.config.commands@.len() implies
        same_entry(#[trigger] c.config.commands@[j], a.config.commands@[j]) by {
        if j != idx {
            assert(c.config.commands@[j] == b.config.commands@[j]);
        }
    }
}

/// Adding a command keeps command names unique: a new command whose name is
/// taken is refused.
pub proof fn law_add_keeps_names_unique(a: App, b: App, saved: bool)
    requires
        names_unique(a.config.commands@),
        !a.form.is_edit,
        submitted(a, b, saved),
    ensures
        names_unique(b.config.commands@),
{
    if saved {
        let before = a.config.commands@;
        let after = b.config.commands@;
        assert forall|i: int, j: int| 0 <= i < j < after.len() implies
            (#[trigger] after[i]).name@ != (#[trigger] after[j]).name@ by {
            assert(after[i] == after.drop_last()[i]);
            if j < after.len() - 1 {
                assert(after[j] == after.drop_last()[j]);
            } else {
                assert(before[i].name@ != trim(input_text(a.form.name)));
            }
        }
    }
}

/// Recomputing the list twice in a row changes nothing the second time.
pub proof fn law_refilter_idempotent(a: App, b: App, c: App)
    requires
        filtered(a, b),
        filtered(b, c),
    ensures
        c.filtered_commands@ == b.filtered_commands@,
        c.list_state == b.list_state,
{
    crate::ranking::law_order_is_unique(
        crate::ranking::ranks(b.config.commands@, input_text(b.search_input)),
        c.filtered_commands@,
        b.filtered_commands@,
    );
}

/// Toggling the favorite mark negates the selected command's mark, keeps
/// its other fields, and leaves every other command as it was.
pub proof fn law_toggle_negates_mark(old: App, new: App, saved: bool)
    requires
        toggled(old, new, saved),
        old.selection_valid(),
        old.selected_entry() is Some,
    ensures
        saved,
        new.config.commands@.len() == old.config.commands@.len(),
        ({
            let idx = old.selected_entry()->0 as int;
            let o = old.config.commands@[idx];
            let n = new.config.commands@[idx];
            &&& n.favorite == !o.favorite
            &&& n.name == o.name
            &&& n.display_name == o.display_name
            &&& n.description == o.description
            &&& n.command == o.command
            &&& n.category == o.category
            &&& n.confirmation_required == o.confirmation_required
            &&& n.working_directory == o.working_directory
        }),
        forall|j: int| 0 <= j < old.config.commands@.len() && j != old.selected_entry()->0 ==>
            #[trigger] new.config.commands@[j] == old.config.commands@[j],
{
}

/// Toggling twice on the same command gives the commands back unchanged.
pub proof fn law_toggle_twice_restores(a: App, b: App, c: App, s1: bool, s2: bool)
    requires
        toggled(a, b, s1),
        toggled(b, c, s2),
        a.selection_valid(),
        a.selected_entry() is Some,
        b.selected_entry() == a.selected_entry(),
    ensures
        c.config.commands@ == a.config.commands@,
{
    law_toggle_negates_mark(a, b, s1);
    law_toggle_negates_mark(b, c, s2);
    let idx = a.selected_entry()->0 as int;
    assert(c.config.commands@[idx] == a.config.commands@[idx]);
    assert(c.config.commands@ =~= a.config.commands@);
}

/// An optional field as saved: absent when its trimmed text is empty, else
/// that trimmed text.
pub open spec fn saved_as(o: Option<String>, field: Seq<char>) -> bool {
    if trim(field).len() == 0 {
        o is None
    } else {
        o matches Some(t) && t@ == trim(field)
    }
}

/// Submitting a new command: it is refused, changing nothing, when the
/// trimmed name or command is empty or the trimmed name is taken;
/// otherwise the entry is appended with the trimmed name and command, each
/// optional field trimmed (absent when blank), the two boxes, and no working
/// directory, and the command list takes focus.
pub proof fn law_submit_new(old: App, new: App, saved: bool)
    requires
        submitted(old, new, saved),
        !old.form.is_edit,
    ensures
        ({
            let name = trim(input_text(old.form.name));
            let command = trim(input_text(old.form.command));
            saved == (name.len() > 0 && command.len() > 0 && forall|j: int|
                0 <= j < old.config.commands@.len() ==> (#[trigger] old.config.commands@[j]).name@ != name)
        }),
        !saved ==> new == old,
        saved ==> {
            let e = new.config.commands@.last();
            &&& new.config.commands@.len() == old.config.commands@.len() + 1
            &&& forall|j: int| 0 <= j < old.config.commands@.len() ==> #[trigger] new.config.commands@[j]
                == old.config.commands@[j]
            &&& e.name@ == trim(input_text(old.form.name))
            &&& e.command@ == trim(input_text(old.form.command))
            &&& saved_as(e.display_name, input_text(old.form.display_name))
            &&& saved_as(e.description, input_text(old.form.description))
            &&& saved_as(e.category, input_text(old.form.category))
            &&& e.favorite == old.form.favorite
            &&& e.confirmation_required == old.form.confirm
            &&& e.working_directory is None
            &&& new.active_block == ActiveBlock::List
        },
{
    if saved {
        let before = old.config.commands@;
        let after = new.config.commands@;
        assert forall|j: int| 0 <= j < before.len() implies #[trigger] after[j] == before[j] by {
            assert(after[j] == after.drop_last()[j]);
        }
    }
}

/// Submitting an edit of entry `idx`: refused, changing nothing, when the
/// trimmed name or command is empty; otherwise entry `idx` is replaced by
/// the trimmed form values and every other entry is kept.
pub proof fn law_submit_edit(old: App, new: App, saved: bool, idx: usize)
    requires
        submitted(old, new, saved),
        old.form.is_edit,
        old.form.edit_idx == Some(idx),
        idx < old.config.commands@.len(),
    ensures
        saved == (trim(input_text(old.form.name)).len() > 0 && trim(input_text(old.form.command)).len() > 0),
        !saved ==> new == old,
        saved ==> {
            let e = new.config.commands@[idx as int];
            &&& new.config.commands@.len() == old.config.commands@.len()
            &&& forall|j: int| 0 <= j < old.config.commands@.len() && j != idx ==> #[trigger] new.config.commands@[j]
                == old.config.commands@[j]
            &&& e.name@ == trim(input_text(old.form.name))
            &&& e.command@ == trim(input_text(old.form.command))
            &&& saved_as(e.display_name, input_text(old.form.display_name))
            &&& saved_as(e.description, input_text(old.form.description))
            &&& saved_as(e.category, input_text(old.form.category))
            &&& e.favorite == old.form.favorite
            &&& e.confirmation_required == old.form.confirm
            &&& e.working_directory is None
            &&& new.active_block == ActiveBlock::List
        },
{
}

/// Deleting removes exactly the command behind the selected row, keeping the
/// others in order; with no selected row nothing is removed. The command
/// list takes focus either way.
pub proof fn law_delete_removes_selected(old: App, new: App, saved: bool)
    requires
        deleted(old, new, saved),
        old.selection_valid(),
    ensures
        new.active_block == ActiveBlock::List,
        match old.list_state.selected {
            Some(i) if i < old.filtered_commands@.len() => {
                let idx = old.filtered_commands@[i as int] as int;
                &&& saved
                &&& new.config.commands@.len() == old.config.commands@.len() - 1
                &&& forall|j: int| 0 <= j < idx ==> #[trigger] new.config.commands@[j] == old.config.commands@[j]
                &&& forall|j: int| idx <= j < new.config.commands@.len() ==> #[trigger] new.config.commands@[j]
                    == old.config.commands@[j + 1]
            },
            _ => !saved && new.config.commands == old.config.commands,
        },
{
}

/// After the list is recomputed, an empty list has no selection (and is
/// scrolled to the top), a selection still inside the list is kept, and
/// otherwise the first row is selected.
pub proof fn law_refilter_selection(old: App, new: App)
    requires
        filtered(old, new),
    ensures
        new.filtered_commands@.len() == 0 ==> new.list_state.selected is None && new.list_state.offset == 0,
        new.filtered_commands@.len() > 0 && (old.list_state.selected matches Some(i) && i < new.filtered_commands@.len())
            ==> new.list_state == old.list_state,
        new.filtered_commands@.len() > 0 && !(old.list_state.selected matches Some(i) && i
            < new.filtered_commands@.len()) ==> new.list_state.selected == Some(0usize)
            && new.list_state.offset == old.list_state.offset,
{
}

} // verus!

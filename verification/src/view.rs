use vstd::prelude::*;
use crate::app::App;
use crate::model::CmdEntry;

verus! {

/// The row label of an entry in the command list: a star for a favorite
/// (two spaces otherwise), then the name.
pub open spec fn row_label(e: CmdEntry) -> Seq<char> {
    (if e.favorite { seq!['★', ' '] } else { seq![' ', ' '] }) + e.name@
}

/// One line of the details pane: a label, a value, and whether the value is
/// the command to run (shown emphasised).
pub struct DetailLine {
    pub label: String,
    pub value: String,
    pub command: bool,
}

/// A details line given by its texts.
pub open spec fn line_view(l: DetailLine) -> (Seq<char>, Seq<char>, bool) {
    (l.label@, l.value@, l.command)
}

/// A labelled value followed by an empty line.
pub open spec fn field_lines(label: Seq<char>, value: Seq<char>) -> Seq<(Seq<char>, Seq<char>, bool)> {
    seq![(label, value, false), (Seq::empty(), Seq::empty(), false)]
}

/// The details pane of an entry: its name, its display name and its
/// description when present (each followed by an empty line), then the
/// command under a heading, prefixed by `$ `.
pub open spec fn details_of(e: CmdEntry) -> Seq<(Seq<char>, Seq<char>, bool)> {
    field_lines("Name: "@, e.name@)
        + (match e.display_name {
        Some(d) => field_lines("Display Name: "@, d@),
        None => Seq::empty(),
    }) + (match e.description {
        Some(d) => field_lines("Description: "@, d@),
        None => Seq::empty(),
    }) + seq![("Command String:"@, Seq::empty(), false), (Seq::empty(), "$ "@ + e.command@, true)]
}

/// Whether the screen is tall enough for the large title (more than 25 rows).
pub fn shows_big_title(height: u16) -> (r: bool)
    ensures
        r == (height > 25),
{
    height > 25
}

/// Whether the screen is wide enough for the list and details side by side
/// (more than 60 columns).
pub fn shows_two_panes(width: u16) -> (r: bool)
    ensures
        r == (width > 60),
{
    width > 60
}

/// A details line.
fn detail_line(label: &str, value: String, command: bool) -> (l: DetailLine)
    ensures
        line_view(l) == (label@, value@, command),
{
    DetailLine { label: String::from_str(label), value, command }
}

/// An empty details line.
fn blank_line() -> (l: DetailLine)
    ensures
        line_view(l) == (Seq::<char>::empty(), Seq::<char>::empty(), false),
{
    DetailLine { label: String::new(), value: String::new(), command: false }
}

impl App {
    /// Every listed row leads to an existing command.
    pub open spec fn rows_valid(&self) -> bool {
        forall|k: int| 0 <= k < self.filtered_commands@.len() ==>
            (#[trigger] self.filtered_commands@[k]) < self.config.commands@.len()
    }

    /// The labels of the listed rows, in list order.
    pub fn row_labels(&self) -> (labels: Vec<String>)
        requires
            self.rows_valid(),
        ensures
            labels@.len() == self.filtered_commands@.len(),
            forall|k: int| 0 <= k < labels@.len() ==>
                (#[trigger] labels@[k])@ == row_label(self.config.commands@[self.filtered_commands@[k] as int]),
    {
        let mut labels: Vec<String> = Vec::new();
        let mut k: usize = 0;
        while k < self.filtered_commands.len()
            invariant
                self.rows_valid(),
                k <= self.filtered_commands.len(),
                labels@.len() == k,
                forall|m: int| 0 <= m < k ==>
                    (#[trigger] labels@[m])@ == row_label(self.config.commands@[self.filtered_commands@[m] as int]),
            decreases self.filtered_commands.len() - k,
        {
            let cmd = &self.config.commands[self.filtered_commands[k]];
            let mut label = if cmd.favorite {
                proof {
                    reveal_strlit("★ ");
                }
                String::from_str("★ ")
            } else {
                proof {
                    reveal_strlit("  ");
                }
                String::from_str("  ")
            };
            label.append(cmd.name.as_str());
            labels.push(label);
            k = k + 1;
        }
        labels
    }

    /// The position in the command list of the selected row, if a row that
    /// shows a command is selected.
    pub fn selected_command(&self) -> (r: Option<usize>)
        ensures
            r == self.selected_entry(),
    {
        match self.list_state.selected() {
            Some(i) => if i < self.filtered_commands.len() {
                Some(self.filtered_commands[i])
            } else {
                None
            },
            None => None,
        }
    }

    /// The lines of the details pane for command `idx`.
    pub fn detail_lines(&self, idx: usize) -> (lines: Vec<DetailLine>)
        requires
            idx < self.config.commands@.len(),
        ensures
            lines@.map_values(|l: DetailLine| line_view(l)) == details_of(self.config.commands@[idx as int]),
    {
        let cmd = &self.config.commands[idx];
        let mut lines: Vec<DetailLine> = Vec::new();
        lines.push(detail_line("Name: ", cmd.name.clone(), false));
        lines.push(blank_line());
        let ghost mut expected = field_lines("Name: "@, cmd.name@);
        assert(lines@.map_values(|l: DetailLine| line_view(l)) =~= expected);
        if let Some(d) = &cmd.display_name {
            lines.push(detail_line("Display Name: ", d.clone(), false));
            lines.push(blank_line());
            proof {
                expected = expected + field_lines("Display Name: "@, d@);
            }
        } else {
            proof {
                expected = expected + Seq::empty();
            }
        }
        assert(lines@.map_values(|l: DetailLine| line_view(l)) =~= expected);
        if let Some(d) = &cmd.description {
            lines.push(detail_line("Description: ", d.clone(), false));
            lines.push(blank_line());
            proof {
                expected = expected + field_lines("Description: "@, d@);
            }
        } else {
            proof {
                expected = expected + Seq::empty();
            }
        }
        assert(lines@.map_values(|l: DetailLine| line_view(l)) =~= expected);
        lines.push(detail_line("Command String:", String::new(), false));
        let mut shown = String::from_str("$ ");
        shown.append(cmd.command.as_str());
        proof {
            reveal_strlit("");
        }
        let last = detail_line("", shown, true);
        assert(line_view(last) == (Seq::<char>::empty(), "$ "@ + cmd.command@, true));
        lines.push(last);
        proof {
            expected = expected + seq![("Command String:"@, Seq::empty(), false), (Seq::empty(), "$ "@ + cmd.command@, true)];
        }
        assert(lines@.map_values(|l: DetailLine| line_view(l)) =~= expected);
        assert(expected =~= details_of(*cmd));
        lines
    }

    /// In a consistent state every listed row leads to an existing command.
    pub proof fn lemma_wf_rows_valid(&self)
        requires
            self.wf(),
        ensures
            self.rows_valid(),
    {
        assert forall|k: int| 0 <= k < self.filtered_commands@.len() implies
            (#[trigger] self.filtered_commands@[k]) < self.config.commands@.len() by {
            let order = self.filtered_commands@;
            assert(order[k] < crate::ranking::ranks(self.config.commands@, crate::input::input_text(self.search_input)).len());
        }
    }
}

} // verus!

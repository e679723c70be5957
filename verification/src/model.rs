use vstd::prelude::*;

verus! {

/// One saved shell command.
#[derive(Debug, Clone)]
pub struct CmdEntry {
    pub name: String,
    pub display_name: Option<String>,
    pub description: Option<String>,
    pub command: String,
    pub category: Option<String>,
    pub favorite: bool,
    pub confirmation_required: bool,
    pub working_directory: Option<String>,
}

/// User preferences kept with the commands.
#[derive(Debug, Clone)]
pub struct Preferences {
    pub theme: String,
}

/// Everything the launcher stores: the commands and the preferences.
#[derive(Debug, Clone)]
pub struct Config {
    pub commands: Vec<CmdEntry>,
    pub preferences: Preferences,
}

/// The view of an optional text: its characters, or nothing when absent.
pub open spec fn opt_text(o: Option<String>) -> Seq<char> {
    match o {
        Some(s) => s@,
        None => Seq::empty(),
    }
}

/// Finds the first command whose name is `alias`.
pub fn find_command(commands: &Vec<CmdEntry>, alias: &str) -> (r: Option<usize>)
    ensures
        match r {
            Some(i) => {
                &&& i < commands.len()
                &&& commands@[i as int].name@ == alias@
                &&& forall|j: int| 0 <= j < i ==> commands@[j].name@ != alias@
            },
            None => forall|j: int| 0 <= j < commands.len() ==> commands@[j].name@ != alias@,
        },
{
    let wanted = String::from_str(alias);
    let mut i: usize = 0;
    while i < commands.len()
        invariant
            i <= commands.len(),
            wanted@ == alias@,
            forall|j: int| 0 <= j < i ==> commands@[j].name@ != alias@,
        decreases commands.len() - i,
    {
        if commands[i].name == wanted {
            return Some(i);
        }
        i = i + 1;
    }
    None
}

} // verus!

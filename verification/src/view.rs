//! The pure side of drawing: from the navigation state to the cell text
//! of the entry table and the static legend. Putting widgets on a screen
//! is I/O the unverified shell performs from these values.

use vstd::prelude::*;
use crate::nav::{Entry, NavState};

verus! {

/// The three text cells of one table row: name, kind and path.
pub struct RowCells {
    pub name: String,
    pub kind: String,
    pub path: String,
}

/// The kind column's label for an entry.
pub open spec fn kind_label(is_dir: bool) -> Seq<char> {
    if is_dir {
        "Directory"@
    } else {
        "File"@
    }
}

/// The table row for one entry: its name, `"Directory"` or `"File"`, and
/// its path.
pub fn entry_row(e: &Entry) -> (r: RowCells)
    ensures
        r.name@ == e.name@,
        r.kind@ == kind_label(e.is_dir),
        r.path@ == e.path@,
{
    let kind: String = if e.is_dir {
        String::from_str("Directory")
    } else {
        String::from_str("File")
    };
    RowCells { name: e.name.clone(), kind, path: e.path.clone() }
}

/// One table row per entry, in listing order; the row to mark as
/// selected is the state's `selected_index`.
pub fn table_rows(s: &NavState) -> (r: Vec<RowCells>)
    ensures
        r@.len() == s.entries@.len(),
        forall|i: int| 0 <= i < r@.len() ==> {
            &&& (#[trigger] r@[i]).name@ == s.entries@[i].name@
            &&& r@[i].kind@ == kind_label(s.entries@[i].is_dir)
            &&& r@[i].path@ == s.entries@[i].path@
        },
{
    let mut rows: Vec<RowCells> = Vec::new();
    let mut i: usize = 0;
    while i < s.entries.len()
        invariant
            i <= s.entries.len(),
            rows@.len() == i,
            forall|j: int| 0 <= j < i ==> {
                &&& (#[trigger] rows@[j]).name@ == s.entries@[j].name@
                &&& rows@[j].kind@ == kind_label(s.entries@[j].is_dir)
                &&& rows@[j].path@ == s.entries@[j].path@
            },
        decreases s.entries.len() - i,
    {
        rows.push(entry_row(&s.entries[i]));
        i = i + 1;
    }
    rows
}

/// The table's column headers: Name, Type, Path.
pub fn header_titles() -> (r: Vec<String>)
    ensures
        r@.len() == 3,
        r@[0]@ == "Name"@,
        r@[1]@ == "Type"@,
        r@[2]@ == "Path"@,
{
    let mut r: Vec<String> = Vec::new();
    r.push(String::from_str("Name"));
    r.push(String::from_str("Type"));
    r.push(String::from_str("Path"));
    r
}

/// The static keybinding legend: each line pairs a description with the
/// keys that trigger it.
pub fn help_lines() -> (r: Vec<(String, String)>)
    ensures
        r@.len() == 3,
        r@[0].0@ == "Open folder :"@ && r@[0].1@ == "Enter"@,
        r@[1].0@ == "Back folder :"@ && r@[1].1@ == "Esc OR h"@,
        r@[2].0@ == "Quit App :"@ && r@[2].1@ == "q"@,
{
    let mut r: Vec<(String, String)> = Vec::new();
    r.push((String::from_str("Open folder :"), String::from_str("Enter")));
    r.push((String::from_str("Back folder :"), String::from_str("Esc OR h")));
    r.push((String::from_str("Quit App :"), String::from_str("q")));
    r
}

} // verus!

//! The navigation state machine: current directory, listed entries,
//! selected row, and the pure transitions between them.

use vstd::prelude::*;

verus! {

/// One filesystem child shown as a row: its base name, whether it is a
/// directory, and its full path.
pub struct Entry {
    pub name: String,
    pub is_dir: bool,
    pub path: String,
}

/// The single mutable unit the render loop owns.
///
/// `root` is the fixed top-level directory beyond which going back never
/// navigates. `current_directory` is the directory whose children are
/// listed in `entries`, and `selected_index` is the highlighted row.
pub struct NavState {
    pub root: String,
    pub current_directory: String,
    pub entries: Vec<Entry>,
    pub selected_index: usize,
}

/// A navigation command, as the fixed keymap produces it from one key.
#[derive(Clone, Copy)]
pub enum Command {
    MoveDown,
    MoveUp,
    Enter,
    GoBack,
    Quit,
}

/// One key press, reduced to the shapes the keymap distinguishes.
#[derive(Clone, Copy)]
pub enum Key {
    Char(char),
    Esc,
    Enter,
    Down,
    Up,
    Other,
}

/// What the render loop must do after a command was applied: keep going,
/// list the named directory and hand the result to [`NavState::navigate`],
/// or leave the loop.
pub enum Action {
    Stay,
    Load(String),
    Quit,
}

/// The fixed keymap: `q` quits, `Esc` or `h` goes back, `Enter` descends,
/// the arrow keys move the selection; every other key is ignored.
pub open spec fn spec_map_key(k: Key) -> Option<Command> {
    match k {
        Key::Char(c) => if c == 'q' {
            Some(Command::Quit)
        } else if c == 'h' {
            Some(Command::GoBack)
        } else {
            None
        },
        Key::Esc => Some(Command::GoBack),
        Key::Enter => Some(Command::Enter),
        Key::Down => Some(Command::MoveDown),
        Key::Up => Some(Command::MoveUp),
        Key::Other => None,
    }
}

/// Translate one key press into a command per the fixed keymap; an
/// unmapped key yields nothing.
pub fn map_key(k: Key) -> (r: Option<Command>)
    ensures
        r == spec_map_key(k),
{
    match k {
        Key::Char(c) => {
            if c == 'q' {
                Some(Command::Quit)
            } else if c == 'h' {
                Some(Command::GoBack)
            } else {
                None
            }
        },
        Key::Esc => Some(Command::GoBack),
        Key::Enter => Some(Command::Enter),
        Key::Down => Some(Command::MoveDown),
        Key::Up => Some(Command::MoveUp),
        Key::Other => None,
    }
}

/// The selected index after one downward move: advance by one, wrapping
/// from the last row to the first; an empty list is left untouched.
pub open spec fn move_down_index(sel: int, len: int) -> int {
    if len == 0 {
        sel
    } else {
        (sel + 1) % len
    }
}

/// The selected index after one upward move: retreat by one, wrapping
/// from the first row to the last; an empty list is left untouched.
pub open spec fn move_up_index(sel: int, len: int) -> int {
    if len == 0 {
        sel
    } else if sel == 0 {
        len - 1
    } else {
        sel - 1
    }
}

/// The parent of a path: the prefix that stands before the last path
/// separator. A name that holds no separator yields the empty path, as
/// popping the last component of a single-component path does.
pub open spec fn parent_of(s: Seq<char>) -> Seq<char>
    decreases s.len(),
{
    if s.len() == 0 {
        s
    } else if s.last() == '/' {
        s.drop_last()
    } else {
        parent_of(s.drop_last())
    }
}

proof fn lemma_parent_of_no_separator(s: Seq<char>)
    requires
        forall|j: int| 0 <= j < s.len() ==> s[j] != '/',
    ensures
        parent_of(s) == Seq::<char>::empty(),
    decreases s.len(),
{
    if s.len() == 0 {
        assert(parent_of(s) =~= Seq::<char>::empty());
    } else {
        lemma_parent_of_no_separator(s.drop_last());
    }
}

proof fn lemma_parent_of_at_separator(s: Seq<char>, k: int)
    requires
        0 <= k < s.len(),
        s[k] == '/',
        forall|j: int| k < j < s.len() ==> s[j] != '/',
    ensures
        parent_of(s) == s.subrange(0, k),
    decreases s.len(),
{
    if k == s.len() - 1 {
        assert(s.drop_last() =~= s.subrange(0, k));
    } else {
        lemma_parent_of_at_separator(s.drop_last(), k);
        assert(s.drop_last().subrange(0, k) =~= s.subrange(0, k));
    }
}

/// The parent path of `s`: everything before the last `/`, or the empty
/// path when `s` holds none.
pub fn parent_path(s: &String) -> (r: String)
    ensures
        r@ == parent_of(s@),
{
    let st: &str = s.as_str();
    let n: usize = st.unicode_len();
    let mut i: usize = n;
    while i > 0
        invariant
            st@ == s@,
            n == st@.len(),
            i <= n,
            forall|j: int| i <= j < n ==> st@[j] != '/',
        decreases i,
    {
        if st.get_char(i - 1) == '/' {
            let pre = st.substring_char(0, i - 1);
            proof {
                lemma_parent_of_at_separator(s@, i - 1);
            }
            return pre.to_owned();
        }
        i = i - 1;
    }
    proof {
        lemma_parent_of_no_separator(s@);
    }
    String::new()
}

impl NavState {
    /// The selected index is a valid row whenever any rows exist, and is
    /// pinned to zero when none do.
    pub open spec fn wf(self) -> bool {
        if self.entries.len() == 0 {
            self.selected_index == 0
        } else {
            self.selected_index < self.entries.len()
        }
    }

    /// Move the selection one row down, wrapping from the last row to the
    /// first; a no-op when the entry list is empty.
    pub fn move_down(&mut self)
        requires
            old(self).wf(),
        ensures
            final(self).wf(),
            final(self).root == old(self).root,
            final(self).current_directory == old(self).current_directory,
            final(self).entries == old(self).entries,
            final(self).selected_index as int == move_down_index(
                old(self).selected_index as int,
                old(self).entries.len() as int,
            ),
    {
        let len = self.entries.len();
        if len != 0 {
            if self.selected_index >= len - 1 {
                proof {
                    vstd::arithmetic::div_mod::lemma_mod_self_0(len as int);
                }
                self.selected_index = 0;
            } else {
                proof {
                    vstd::arithmetic::div_mod::lemma_small_mod(
                        (self.selected_index + 1) as nat,
                        len as nat,
                    );
                }
                self.selected_index = self.selected_index + 1;
            }
        }
    }

    /// Move the selection one row up, wrapping from the first row to the
    /// last; a no-op when the entry list is empty.
    pub fn move_up(&mut self)
        requires
            old(self).wf(),
        ensures
            final(self).wf(),
            final(self).root == old(self).root,
            final(self).current_directory == old(self).current_directory,
            final(self).entries == old(self).entries,
            final(self).selected_index as int == move_up_index(
                old(self).selected_index as int,
                old(self).entries.len() as int,
            ),
    {
        let len = self.entries.len();
        if len != 0 {
            if self.selected_index == 0 {
                self.selected_index = len - 1;
            } else {
                self.selected_index = self.selected_index - 1;
            }
        }
    }

    /// The state at startup: both the fixed root and the current directory
    /// are `root`, the given listing is shown, and the first row is
    /// selected.
    pub fn new(root: String, entries: Vec<Entry>) -> (s: NavState)
        ensures
            s.root == root,
            s.current_directory == root,
            s.entries == entries,
            s.selected_index == 0,
            s.wf(),
    {
        let current = root.clone();
        NavState { root, current_directory: current, entries, selected_index: 0 }
    }

    /// The directory that descending into the selected row would open:
    /// the selected entry's path when that entry is a directory, nothing
    /// when it is a file or when no rows exist.
    pub fn enter_target(&self) -> (r: Option<String>)
        requires
            self.wf(),
        ensures
            match r {
                Some(p) => self.entries.len() > 0
                    && self.entries@[self.selected_index as int].is_dir
                    && p@ == self.entries@[self.selected_index as int].path@,
                None => self.entries.len() == 0
                    || !self.entries@[self.selected_index as int].is_dir,
            },
    {
        if self.entries.len() == 0 {
            None
        } else {
            let e = &self.entries[self.selected_index];
            if e.is_dir {
                Some(e.path.clone())
            } else {
                None
            }
        }
    }

    /// The directory that going back would open: the parent of the
    /// current directory, or nothing when the browser already stands at
    /// the configured root.
    pub fn go_back_target(&self) -> (r: Option<String>)
        ensures
            self.current_directory@ == self.root@ ==> r is None,
            self.current_directory@ != self.root@ ==> (r matches Some(p) && p@ == parent_of(
                self.current_directory@,
            )),
    {
        if self.current_directory == self.root {
            None
        } else {
            Some(parent_path(&self.current_directory))
        }
    }

    /// Install the outcome of a directory change: `dir` becomes the
    /// current directory, `listed` replaces the entries wholesale, and
    /// the selection resets to the first row.
    pub fn navigate(&mut self, dir: String, listed: Vec<Entry>)
        ensures
            final(self).root == old(self).root,
            final(self).current_directory == dir,
            final(self).entries == listed,
            final(self).selected_index == 0,
            final(self).wf(),
    {
        self.current_directory = dir;
        self.entries = listed;
        self.selected_index = 0;
    }

    /// Apply one command. Moves mutate the selection in place; `Enter` on
    /// a directory row and `GoBack` away from the root name the directory
    /// the caller must list and hand to [`NavState::navigate`]; every
    /// other case leaves the state untouched.
    pub fn apply(&mut self, cmd: Command) -> (a: Action)
        requires
            old(self).wf(),
        ensures
            final(self).wf(),
            match cmd {
                Command::MoveDown => {
                    &&& *final(self) == (NavState {
                        selected_index: final(self).selected_index,
                        ..*old(self)
                    })
                    &&& final(self).selected_index as int == move_down_index(
                        old(self).selected_index as int,
                        old(self).entries.len() as int,
                    )
                    &&& a matches Action::Stay
                },
                Command::MoveUp => {
                    &&& *final(self) == (NavState {
                        selected_index: final(self).selected_index,
                        ..*old(self)
                    })
                    &&& final(self).selected_index as int == move_up_index(
                        old(self).selected_index as int,
                        old(self).entries.len() as int,
                    )
                    &&& a matches Action::Stay
                },
                Command::Enter => {
                    &&& *final(self) == *old(self)
                    &&& if old(self).entries.len() > 0 && old(self).entries@[old(
                        self,
                    ).selected_index as int].is_dir {
                        a matches Action::Load(p) && p@ == old(self).entries@[old(
                            self,
                        ).selected_index as int].path@
                    } else {
                        a matches Action::Stay
                    }
                },
                Command::GoBack => {
                    &&& *final(self) == *old(self)
                    &&& if old(self).current_directory@ != old(self).root@ {
                        a matches Action::Load(p) && p@ == parent_of(
                            old(self).current_directory@,
                        )
                    } else {
                        a matches Action::Stay
                    }
                },
                Command::Quit => (*final(self) == *old(self)) && (a matches Action::Quit),
            },
    {
        match cmd {
            Command::MoveDown => {
                self.move_down();
                Action::Stay
            },
            Command::MoveUp => {
                self.move_up();
                Action::Stay
            },
            Command::Enter => {
                match self.enter_target() {
                    Some(p) => Action::Load(p),
                    None => Action::Stay,
                }
            },
            Command::GoBack => {
                match self.go_back_target() {
                    Some(p) => Action::Load(p),
                    None => Action::Stay,
                }
            },
            Command::Quit => Action::Quit,
        }
    }
}

/// The selected index that a whole sequence of commands leaves behind
/// when only the moves act on it, applied left to right.
pub open spec fn moves_result(sel: int, len: int, ops: Seq<Command>) -> int
    decreases ops.len(),
{
    if ops.len() == 0 {
        sel
    } else {
        let prev = moves_result(sel, len, ops.drop_last());
        match ops.last() {
            Command::MoveDown => move_down_index(prev, len),
            Command::MoveUp => move_up_index(prev, len),
            _ => prev,
        }
    }
}

/// Moving down wraps: from the last row of a non-empty list, one
/// downward move lands on the first row.
pub proof fn lemma_move_down_wraps(len: int)
    requires
        0 < len,
    ensures
        move_down_index(len - 1, len) == 0,
{
    vstd::arithmetic::div_mod::lemma_mod_self_0(len);
}

/// Moving up wraps: from the first row of a non-empty list, one upward
/// move lands on the last row.
pub proof fn lemma_move_up_wraps(len: int)
    requires
        0 < len,
    ensures
        move_up_index(0, len) == len - 1,
{
}

/// For every non-empty entry list, a selection that starts within bounds
/// stays within bounds under any sequence of move commands.
pub proof fn lemma_moves_stay_in_bounds(sel: int, len: int, ops: Seq<Command>)
    requires
        0 < len,
        0 <= sel < len,
    ensures
        0 <= moves_result(sel, len, ops) < len,
    decreases ops.len(),
{
    if ops.len() > 0 {
        lemma_moves_stay_in_bounds(sel, len, ops.drop_last());
        let prev = moves_result(sel, len, ops.drop_last());
        match ops.last() {
            Command::MoveDown => {
                vstd::arithmetic::div_mod::lemma_mod_bound(prev + 1, len);
            },
            _ => {},
        }
    }
}

} // verus!

use vstd::prelude::*;
use uuid::Uuid;
use crate::ids::same_id;
use crate::keys::KeyInput;

verus! {

/// One row of a sprint picker: the "(None)" row, a section header, or a
/// sprint, with whether the sprint is active and not yet past its end date.
#[derive(Debug, Clone, Copy, PartialEq)]
pub enum SprintEntry {
    NoSprint,
    Header,
    Sprint { id: Uuid, active_now: bool },
}

/// What the picker has checked. An identity, not a row, so that it
/// survives changes of the rows between frames.
#[derive(Debug, Clone, Copy, PartialEq)]
pub enum Selection {
    /// Nothing checked yet.
    Unset,
    /// "(None)" checked: the user chose no sprint.
    NoSprint,
    /// A sprint checked.
    Sprint(Uuid),
}

/// Where the picker's keyboard cursor is, as an identity.
#[derive(Debug, Clone, Copy, PartialEq)]
pub enum Cursor {
    NoSprint,
    Sprint(Uuid),
}

/// Which sprints the picker lists: create-card flows hide finished sprints,
/// assign flows show them all.
#[derive(Debug, Clone, Copy, PartialEq, Eq, Structural)]
pub enum SprintFilter {
    ActiveOnly,
    All,
}

/// A sprint picker: a cursor moved by the arrow keys and a checked entry
/// set by Space.
#[derive(Debug, Clone, Copy)]
pub struct SprintPicker {
    pub selection: Selection,
    pub cursor: Cursor,
    pub filter: SprintFilter,
}

pub open spec fn selectable(e: SprintEntry) -> bool {
    !(e is Header)
}

/// The cursor that a row stands for (headers stand for "(None)").
pub open spec fn entry_cursor(e: SprintEntry) -> Cursor {
    match e {
        SprintEntry::Sprint { id, .. } => Cursor::Sprint(id),
        _ => Cursor::NoSprint,
    }
}

/// Row `i` is the row of cursor `c`.
pub open spec fn row_of_cursor(e: SprintEntry, c: Cursor) -> bool {
    match c {
        Cursor::NoSprint => e is NoSprint,
        Cursor::Sprint(id) => e matches SprintEntry::Sprint { id: x, .. } && x == id,
    }
}

/// The first row that `c` is on, if any.
pub open spec fn first_row(entries: Seq<SprintEntry>, c: Cursor, r: Option<usize>) -> bool {
    match r {
        Some(i) => i < entries.len() && row_of_cursor(entries[i as int], c) && forall|k: int|
            0 <= k < i ==> !row_of_cursor(entries[k], c),
        None => forall|k: int| 0 <= k < entries.len() ==> !row_of_cursor(entries[k], c),
    }
}

/// The first selectable row after `cur` (from the top when there is no
/// current row), if any.
pub open spec fn next_row(entries: Seq<SprintEntry>, cur: Option<usize>, r: Option<usize>) -> bool {
    let from: int = match cur {
        Some(i) => i + 1,
        None => 0,
    };
    match r {
        Some(j) => from <= j < entries.len() && selectable(entries[j as int]) && forall|k: int|
            from <= k < j ==> !selectable(entries[k]),
        None => forall|k: int| from <= k < entries.len() ==> !selectable(entries[k]),
    }
}

/// The last selectable row before `cur`, if any (none without a current row).
pub open spec fn prev_row(entries: Seq<SprintEntry>, cur: Option<usize>, r: Option<usize>) -> bool {
    match cur {
        Some(i) => match r {
            Some(j) => j < i && j < entries.len() && selectable(entries[j as int]) && forall|k: int|
                j < k < i && k < entries.len() ==> !selectable(entries[k]),
            None => forall|k: int| 0 <= k < i && k < entries.len() ==> !selectable(entries[k]),
        },
        None => r is None,
    }
}

/// The selection that Space at cursor `c` places.
pub open spec fn cursor_selection(c: Cursor) -> Selection {
    match c {
        Cursor::NoSprint => Selection::NoSprint,
        Cursor::Sprint(id) => Selection::Sprint(id),
    }
}

pub open spec fn is_active_now(e: SprintEntry) -> bool {
    e matches SprintEntry::Sprint { active_now: true, .. }
}

/// Rows of the active, unfinished sprints, in order.
pub open spec fn active_row_list(entries: Seq<SprintEntry>) -> Seq<int>
    decreases entries.len(),
{
    if entries.len() == 0 {
        Seq::empty()
    } else {
        let r = active_row_list(entries.drop_last());
        if is_active_now(entries.last()) {
            r.push(entries.len() - 1)
        } else {
            r
        }
    }
}

/// Row of the sole active, unfinished sprint, or the first row.
pub open spec fn initial_row(entries: Seq<SprintEntry>) -> int {
    let actives = active_row_list(entries);
    if actives.len() == 1 { actives[0] } else { 0 }
}

fn same_selection(a: Selection, b: Selection) -> (r: bool)
    ensures
        r == (a == b),
{
    match (a, b) {
        (Selection::Unset, Selection::Unset) => true,
        (Selection::NoSprint, Selection::NoSprint) => true,
        (Selection::Sprint(x), Selection::Sprint(y)) => same_id(&x, &y),
        _ => false,
    }
}

fn entry_is_cursor(e: SprintEntry, c: Cursor) -> (r: bool)
    ensures
        r == row_of_cursor(e, c),
{
    match (e, c) {
        (SprintEntry::NoSprint, Cursor::NoSprint) => true,
        (SprintEntry::Sprint { id, .. }, Cursor::Sprint(x)) => same_id(&id, &x),
        _ => false,
    }
}

fn to_cursor(e: SprintEntry) -> (c: Cursor)
    ensures
        c == entry_cursor(e),
{
    match e {
        SprintEntry::Sprint { id, .. } => Cursor::Sprint(id),
        _ => Cursor::NoSprint,
    }
}

/// Rows whose sprint is active and unfinished, in order.
fn active_rows(entries: &Vec<SprintEntry>) -> (r: Vec<usize>)
    ensures
        r@.len() == active_row_list(entries@).len(),
        forall|k: int| 0 <= k < r@.len() ==> r@[k] == #[trigger] active_row_list(entries@)[k],
{
    let mut r: Vec<usize> = Vec::new();
    let mut i: usize = 0;
    assert(entries@.take(0) =~= Seq::<SprintEntry>::empty());
    while i < entries.len()
        invariant
            i <= entries@.len(),
            r@.len() == active_row_list(entries@.take(i as int)).len(),
            forall|k: int| 0 <= k < r@.len() ==> r@[k] == #[trigger] active_row_list(entries@.take(i as int))[k],
        decreases entries@.len() - i,
    {
        assert(entries@.take(i + 1).drop_last() =~= entries@.take(i as int));
        let hit = match entries[i] {
            SprintEntry::Sprint { active_now, .. } => active_now,
            _ => false,
        };
        if hit {
            r.push(i);
        }
        i = i + 1;
    }
    assert(entries@.take(entries@.len() as int) =~= entries@);
    r
}

impl SprintPicker {
    /// A picker for the create-card dialog: finished sprints hidden.
    pub fn new() -> (p: Self)
        ensures
            p.selection == Selection::Unset,
            p.cursor == Cursor::NoSprint,
            p.filter == SprintFilter::ActiveOnly,
    {
        SprintPicker { selection: Selection::Unset, cursor: Cursor::NoSprint, filter: SprintFilter::ActiveOnly }
    }

    /// A picker listing the sprints that `filter` admits.
    pub fn with_filter(filter: SprintFilter) -> (p: Self)
        ensures
            p.selection == Selection::Unset,
            p.cursor == Cursor::NoSprint,
            p.filter == filter,
    {
        SprintPicker { selection: Selection::Unset, cursor: Cursor::NoSprint, filter }
    }

    /// Resets for a new card over `entries`: with exactly one active,
    /// unfinished sprint the cursor lands on it and it is checked; otherwise
    /// the cursor lands on the first row and nothing is checked.
    pub fn reset_for_board(&mut self, entries: &Vec<SprintEntry>)
        ensures
            final(self).filter == old(self).filter,
            ({
                let i = initial_row(entries@);
                let c = if 0 <= i < entries@.len() { entry_cursor(entries@[i]) } else { Cursor::NoSprint };
                &&& final(self).cursor == c
                &&& final(self).selection == (match c {
                    Cursor::Sprint(id) => Selection::Sprint(id),
                    Cursor::NoSprint => Selection::Unset,
                })
            }),
    {
        let actives = active_rows(entries);
        let idx: usize = if actives.len() == 1 { actives[0] } else { 0 };
        assert(idx == initial_row(entries@));
        self.cursor = if idx < entries.len() { to_cursor(entries[idx]) } else { Cursor::NoSprint };
        self.selection = match self.cursor {
            Cursor::Sprint(id) => Selection::Sprint(id),
            Cursor::NoSprint => Selection::Unset,
        };
    }

    /// Resets for assigning a card whose sprint is `current_sprint_id`: the
    /// card's sprint is under the cursor and checked when it is listed;
    /// a card with no sprint has "(None)" checked.
    pub fn reset_for_card_assignment(&mut self, current_sprint_id: Option<Uuid>, entries: &Vec<SprintEntry>)
        ensures
            final(self).filter == old(self).filter,
            match current_sprint_id {
                Some(id) => if exists|k: int| 0 <= k < entries@.len() && row_of_cursor(entries@[k], Cursor::Sprint(id)) {
                    final(self).cursor == Cursor::Sprint(id) && final(self).selection == Selection::Sprint(id)
                } else {
                    final(self).cursor == Cursor::NoSprint && final(self).selection == Selection::Unset
                },
                None => final(self).cursor == Cursor::NoSprint && final(self).selection == Selection::NoSprint,
            },
    {
        match current_sprint_id {
            Some(id) => {
                match Self::row_index(Cursor::Sprint(id), entries) {
                    Some(_) => {
                        self.cursor = Cursor::Sprint(id);
                        self.selection = Selection::Sprint(id);
                    },
                    None => {
                        self.cursor = Cursor::NoSprint;
                        self.selection = Selection::Unset;
                    },
                }
            },
            None => {
                self.cursor = Cursor::NoSprint;
                self.selection = Selection::NoSprint;
            },
        }
    }

    /// Nothing checked, cursor on "(None)".
    pub fn clear(&mut self)
        ensures
            final(self).selection == Selection::Unset,
            final(self).cursor == Cursor::NoSprint,
            final(self).filter == old(self).filter,
    {
        self.selection = Selection::Unset;
        self.cursor = Cursor::NoSprint;
    }

    /// First row of cursor `c` in `entries`.
    fn row_index(c: Cursor, entries: &Vec<SprintEntry>) -> (r: Option<usize>)
        ensures
            first_row(entries@, c, r),
    {
        let mut i: usize = 0;
        while i < entries.len()
            invariant
                i <= entries@.len(),
                forall|k: int| 0 <= k < i ==> !row_of_cursor(entries@[k], c),
            decreases entries@.len() - i,
        {
            if entry_is_cursor(entries[i], c) {
                return Some(i);
            }
            i = i + 1;
        }
        None
    }

    /// Row the cursor is on.
    pub fn cursor_index(&self, entries: &Vec<SprintEntry>) -> (r: Option<usize>)
        ensures
            first_row(entries@, self.cursor, r),
    {
        Self::row_index(self.cursor, entries)
    }

    /// Row of the checked entry (none when nothing is checked).
    pub fn current_index(&self, entries: &Vec<SprintEntry>) -> (r: Option<usize>)
        ensures
            match self.selection {
                Selection::Unset => r is None,
                Selection::NoSprint => first_row(entries@, Cursor::NoSprint, r),
                Selection::Sprint(id) => first_row(entries@, Cursor::Sprint(id), r),
            },
    {
        match self.selection {
            Selection::Unset => None,
            Selection::NoSprint => Self::row_index(Cursor::NoSprint, entries),
            Selection::Sprint(id) => Self::row_index(Cursor::Sprint(id), entries),
        }
    }

    /// Handles a key over the listed `entries`. Space checks the row under
    /// the cursor, or unchecks it when it is the checked one; Up/Down/`j`/`k`
    /// move the cursor to the previous or next selectable row (staying put
    /// at either end). Returns whether the key was used; other keys are left
    /// to the host.
    pub fn handle_key(&mut self, key: KeyInput, entries: &Vec<SprintEntry>) -> (used: bool)
        ensures
            final(self).filter == old(self).filter,
            key == KeyInput::Char(' ') ==> used && final(self).cursor == old(self).cursor
                && final(self).selection == (if old(self).selection == cursor_selection(old(self).cursor) {
                    Selection::Unset
                } else {
                    cursor_selection(old(self).cursor)
                }),
            key != KeyInput::Char(' ') ==> final(self).selection == old(self).selection,
            key != KeyInput::Char(' ') ==> (used <==> (key == KeyInput::Down || key == KeyInput::Char('j')
                || key == KeyInput::Up || key == KeyInput::Char('k'))),
            !used ==> final(self).cursor == old(self).cursor,
            used && key != KeyInput::Char(' ') ==> exists|cur: Option<usize>, nxt: Option<usize>| {
                &&& first_row(entries@, old(self).cursor, cur)
                &&& if key == KeyInput::Down || key == KeyInput::Char('j') { next_row(entries@, cur, nxt) } else { prev_row(entries@, cur, nxt) }
                &&& final(self).cursor == (match nxt {
                    Some(j) => entry_cursor(entries@[j as int]),
                    None => old(self).cursor,
                })
            },
    {
        if key == KeyInput::Char(' ') {
            let here = match self.cursor {
                Cursor::NoSprint => Selection::NoSprint,
                Cursor::Sprint(id) => Selection::Sprint(id),
            };
            self.selection = if same_selection(self.selection, here) { Selection::Unset } else { here };
            return true;
        }
        let down = key == KeyInput::Down || key == KeyInput::Char('j');
        let up = key == KeyInput::Up || key == KeyInput::Char('k');
        if !down && !up {
            return false;
        }
        let cur = self.cursor_index(entries);
        let nxt = if down { next_selectable(entries, cur) } else { prev_selectable(entries, cur) };
        if let Some(j) = nxt {
            self.cursor = to_cursor(entries[j]);
        }
        true
    }

    /// Id of the checked sprint; none when nothing or "(None)" is checked.
    pub fn selected_sprint_id(&self) -> (r: Option<Uuid>)
        ensures
            r == (match self.selection {
                Selection::Sprint(id) => Some(id),
                _ => None,
            }),
    {
        match self.selection {
            Selection::Sprint(id) => Some(id),
            _ => None,
        }
    }

    /// Whether the user checked "(None)", asking to take the card out of its
    /// sprint (as opposed to leaving the picker untouched).
    pub fn explicitly_unassigned(&self) -> (r: bool)
        ensures
            r == (self.selection is NoSprint),
    {
        match self.selection {
            Selection::NoSprint => true,
            _ => false,
        }
    }
}

/// The first selectable row after `cur`.
pub fn next_selectable(entries: &Vec<SprintEntry>, cur: Option<usize>) -> (r: Option<usize>)
    requires
        cur matches Some(i) ==> i < entries@.len(),
    ensures
        next_row(entries@, cur, r),
{
    let n = entries.len();
    let mut j: usize = match cur {
        Some(i) => if i < n { i + 1 } else { n },
        None => 0,
    };
    let ghost from = j;
    while j < entries.len()
        invariant
            from <= j,
            from == (match cur { Some(i) => i + 1, None => 0 }),
            forall|k: int| from <= k < j && k < entries@.len() ==> !selectable(entries@[k]),
        decreases entries@.len() - j,
    {
        match entries[j] {
            SprintEntry::Header => {},
            _ => {
                return Some(j);
            },
        }
        j = j + 1;
    }
    None
}

/// The last selectable row before `cur`.
pub fn prev_selectable(entries: &Vec<SprintEntry>, cur: Option<usize>) -> (r: Option<usize>)
    requires
        cur matches Some(i) ==> i < entries@.len(),
    ensures
        prev_row(entries@, cur, r),
{
    match cur {
        None => None,
        Some(i) => {
            let mut j = i;
            while j > 0
                invariant
                    j <= i < entries@.len(),
                    cur == Some(i),
                    forall|k: int| j <= k < i ==> !selectable(entries@[k]),
                decreases j,
            {
                let e = entries[j - 1];
                let header = match e {
                    SprintEntry::Header => true,
                    _ => false,
                };
                if !header {
                    assert(selectable(entries@[j - 1]));
                    return Some(j - 1);
                }
                j = j - 1;
            }
            None
        },
    }
}

/// The rows of a sprint picker, the sprint the card is in (if any), and
/// the row the cursor starts on.
pub struct SprintPickerView {
    pub entries: Vec<SprintEntry>,
    pub current_sprint_id: Option<Uuid>,
    pub initial: Option<usize>,
}

impl SprintPickerView {
    /// Rows for assigning a card in sprint `current_sprint_id`: the cursor
    /// starts on that sprint's row when it is listed, else on the first row.
    pub fn for_card_assignment(entries: Vec<SprintEntry>, current_sprint_id: Option<Uuid>) -> (v: Self)
        ensures
            v.entries@ == entries@,
            v.current_sprint_id == current_sprint_id,
            match current_sprint_id {
                Some(id) => exists|r: Option<usize>| first_row(entries@, Cursor::Sprint(id), r)
                    && v.initial == (match r { Some(i) => Some(i), None => Some(0usize) }),
                None => v.initial == Some(0usize),
            },
    {
        let initial = match current_sprint_id {
            Some(id) => match SprintPicker::row_index(Cursor::Sprint(id), &entries) {
                Some(i) => Some(i),
                None => Some(0),
            },
            None => Some(0),
        };
        SprintPickerView { entries, current_sprint_id, initial }
    }

    /// Rows for a new card: the cursor starts on the sole active, unfinished
    /// sprint, or on the first row.
    pub fn for_board(entries: Vec<SprintEntry>) -> (v: Self)
        ensures
            v.entries@ == entries@,
            v.current_sprint_id is None,
            v.initial == Some(initial_row(entries@) as usize),
    {
        let actives = active_rows(&entries);
        let idx: usize = if actives.len() == 1 { actives[0] } else { 0 };
        SprintPickerView { entries, current_sprint_id: None, initial: Some(idx) }
    }

    pub fn initial_selection(&self) -> (r: Option<usize>)
        ensures
            r == self.initial,
    {
        self.initial
    }

    /// What row `idx` stands for: a sprint, "(None)" (`Some(None)`), or
    /// nothing for a header or a row past the end.
    pub fn value_at(&self, idx: usize) -> (r: Option<Option<Uuid>>)
        ensures
            r == (if idx < self.entries@.len() {
                match self.entries@[idx as int] {
                    SprintEntry::Header => None,
                    SprintEntry::NoSprint => Some(None),
                    SprintEntry::Sprint { id, .. } => Some(Some(id)),
                }
            } else {
                None
            }),
    {
        if idx < self.entries.len() {
            match self.entries[idx] {
                SprintEntry::Header => None,
                SprintEntry::NoSprint => Some(None),
                SprintEntry::Sprint { id, .. } => Some(Some(id)),
            }
        } else {
            None
        }
    }

    pub fn len(&self) -> (r: usize)
        ensures
            r == self.entries@.len(),
    {
        self.entries.len()
    }

    pub fn is_empty(&self) -> (r: bool)
        ensures
            r == (self.entries@.len() == 0),
    {
        self.entries.len() == 0
    }
}

/// Space checks the row under the cursor and a second Space unchecks it:
/// from a picker with nothing checked, or with the cursor's row checked,
/// two presses give back the selection.
pub proof fn lemma_space_twice_restores(sel: Selection, c: Cursor)
    requires
        sel == Selection::Unset || sel == cursor_selection(c),
    ensures
        ({
            let once = if sel == cursor_selection(c) { Selection::Unset } else { cursor_selection(c) };
            let twice = if once == cursor_selection(c) { Selection::Unset } else { cursor_selection(c) };
            twice == sel
        }),
{
}

/// Row of the sprint-assignment list for a card in sprint `card_sprint`:
/// the first row of that sprint, or the first row when the card has no
/// sprint or its sprint is not listed.
pub fn sprint_selection_index(card_sprint: Option<Uuid>, entries: &Vec<SprintEntry>) -> (r: usize)
    ensures
        match card_sprint {
            Some(id) => exists|row: Option<usize>| #![trigger first_row(entries@, Cursor::Sprint(id), row)]
                first_row(entries@, Cursor::Sprint(id), row) && r == (match row {
                    Some(i) => i,
                    None => 0,
                }),
            None => r == 0,
        },
{
    match card_sprint {
        Some(id) => match SprintPicker::row_index(Cursor::Sprint(id), entries) {
            Some(i) => i,
            None => 0,
        },
        None => 0,
    }
}

} // verus!

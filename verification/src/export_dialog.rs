use vstd::prelude::*;
use crate::keys::KeyInput;
use crate::text::{chars_of, string_from_chars, string_push};

verus! {

/// The two pages of the export dialog.
#[derive(Debug, Clone, Copy, PartialEq, Eq, Structural)]
pub enum ExportStep {
    SelectBoards,
    ExportOptions,
}

/// File format of an export.
#[derive(Debug, Clone, Copy, PartialEq, Eq, Structural)]
pub enum ExportFormat {
    Json,
    Sqlite,
}

impl Default for ExportFormat {
    fn default() -> (f: Self)
        ensures
            f == ExportFormat::Json,
    {
        ExportFormat::Json
    }
}

/// State of the export dialog: which boards go into the file, the cursor of
/// the board list, the page shown, the format and the file name.
#[derive(Debug)]
pub struct ExportDialogState {
    pub board_selections: Vec<bool>,
    pub cursor: usize,
    pub step: ExportStep,
    pub format: ExportFormat,
    pub filename: String,
}

/// What the host does after the dialog has handled a key.
#[derive(Debug, Clone, Copy, PartialEq, Eq, Structural)]
pub enum ExportDialogOutcome {
    /// Keep the dialog open.
    Continue,
    /// Close the dialog and return to the previous view.
    Close,
    /// Export the selected boards to the file name.
    Execute,
}

/// Characters a file name typed in the dialog may not contain.
pub open spec fn forbidden_in_filename(c: char) -> bool {
    c == '/' || c == '\\' || c == '\0' || c == ':' || c == '*' || c == '?' || c == '"' || c
        == '<' || c == '>' || c == '|'
}

/// Index of the last `c` in `s`, or -1.
pub open spec fn last_index_of(s: Seq<char>, c: char) -> int
    decreases s.len(),
{
    if s.len() == 0 {
        -1
    } else if s.last() == c {
        s.len() - 1
    } else {
        last_index_of(s.drop_last(), c)
    }
}

/// `name` without its extension: everything before the last `.`.
pub open spec fn file_stem(name: Seq<char>) -> Seq<char> {
    let i = last_index_of(name, '.');
    if i >= 0 {
        name.take(i)
    } else {
        name
    }
}

/// The extension, with its dot, that a format writes.
pub open spec fn format_extension(f: ExportFormat) -> Seq<char> {
    match f {
        ExportFormat::Json => ".json"@,
        ExportFormat::Sqlite => ".sqlite"@,
    }
}

pub open spec fn other_format(f: ExportFormat) -> ExportFormat {
    match f {
        ExportFormat::Json => ExportFormat::Sqlite,
        ExportFormat::Sqlite => ExportFormat::Json,
    }
}

/// Every board selected.
pub open spec fn all_true(s: Seq<bool>) -> bool {
    forall|i: int| 0 <= i < s.len() ==> s[i]
}

/// Some board selected.
pub open spec fn any_true(s: Seq<bool>) -> bool {
    exists|i: int| 0 <= i < s.len() && s[i]
}

pub(crate) proof fn lemma_last_index_of_bounds(s: Seq<char>, c: char)
    ensures
        -1 <= last_index_of(s, c) < s.len(),
        last_index_of(s, c) >= 0 ==> s[last_index_of(s, c)] == c,
        forall|k: int| last_index_of(s, c) < k < s.len() ==> s[k] != c,
    decreases s.len(),
{
    if s.len() > 0 && s.last() != c {
        lemma_last_index_of_bounds(s.drop_last(), c);
        assert forall|k: int| last_index_of(s, c) < k < s.len() implies s[k] != c by {
            if k < s.len() - 1 {
                assert(s.drop_last()[k] == s[k]);
            }
        }
    }
}

/// Index of the last `c` in `chars`.
fn last_index_in(chars: &Vec<char>, c: char) -> (r: Option<usize>)
    ensures
        match r {
            Some(i) => i == last_index_of(chars@, c),
            None => last_index_of(chars@, c) == -1,
        },
{
    let mut i = chars.len();
    assert(chars@.take(i as int) =~= chars@);
    while i > 0
        invariant
            i <= chars@.len(),
            last_index_of(chars@, c) == last_index_of(chars@.take(i as int), c),
        decreases i,
    {
        if chars[i - 1] == c {
            assert(chars@.take(i as int).last() == c);
            return Some(i - 1);
        }
        assert(chars@.take(i as int).drop_last() =~= chars@.take(i - 1));
        i = i - 1;
    }
    None
}

proof fn lemma_step_down_mod(a: int, n: int)
    requires
        a >= 0,
        n > 0,
    ensures
        (a + 1) % n == (if a % n + 1 == n { 0 } else { a % n + 1 }),
{
    vstd::arithmetic::div_mod::lemma_add_mod_noop(a, 1, n);
    vstd::arithmetic::div_mod::lemma_mod_bound(a, n);
    if n == 1 {
        vstd::arithmetic::div_mod::lemma_mod_self_0(1);
        vstd::arithmetic::div_mod::lemma_small_mod(0nat, 1nat);
    } else {
        vstd::arithmetic::div_mod::lemma_small_mod(1nat, n as nat);
        if a % n + 1 == n {
            vstd::arithmetic::div_mod::lemma_mod_self_0(n);
        } else {
            vstd::arithmetic::div_mod::lemma_small_mod((a % n + 1) as nat, n as nat);
        }
    }
}

proof fn lemma_step_up_mod(a: int, n: int)
    requires
        a >= 0,
        n > 0,
    ensures
        (a + n - 1) % n == (if a % n == 0 { n - 1 } else { a % n - 1 }),
{
    vstd::arithmetic::div_mod::lemma_add_mod_noop(a, n - 1, n);
    vstd::arithmetic::div_mod::lemma_mod_bound(a, n);
    vstd::arithmetic::div_mod::lemma_small_mod((n - 1) as nat, n as nat);
    if a % n == 0 {
        vstd::arithmetic::div_mod::lemma_small_mod((n - 1) as nat, n as nat);
    } else {
        vstd::arithmetic::div_mod::lemma_mod_add_multiples_vanish(a % n - 1, n);
        vstd::arithmetic::div_mod::lemma_small_mod((a % n - 1) as nat, n as nat);
    }
}

proof fn lemma_last_index_of_suffix(a: Seq<char>, b: Seq<char>, c: char)
    requires
        b.len() > 0,
        b[0] == c,
        forall|k: int| 1 <= k < b.len() ==> b[k] != c,
    ensures
        last_index_of(a + b, c) == a.len(),
    decreases b.len(),
{
    if b.len() > 1 {
        assert((a + b).drop_last() =~= a + b.drop_last());
        lemma_last_index_of_suffix(a, b.drop_last(), c);
    }
}

/// Switching the export format strips the extension and appends the new
/// one: the stem of `x` followed by a format's extension is `x`, so
/// switching twice gives back a file name that carried its format's
/// extension.
pub proof fn lemma_switching_format_twice_restores_filename(x: Seq<char>, f: ExportFormat)
    ensures
        file_stem(x + format_extension(f)) == x,
        file_stem(file_stem(x + format_extension(f)) + format_extension(other_format(f)))
            + format_extension(other_format(other_format(f))) == x + format_extension(f),
{
    reveal_strlit(".json");
    reveal_strlit(".sqlite");
    lemma_last_index_of_suffix(x, format_extension(f), '.');
    lemma_last_index_of_suffix(x, format_extension(other_format(f)), '.');
    assert((x + format_extension(f)).take(x.len() as int) =~= x);
    assert((x + format_extension(other_format(f))).take(x.len() as int) =~= x);
}

impl ExportDialogState {
    /// A dialog over `board_count` boards, none selected, exporting JSON to
    /// `export.json`.
    pub fn new(board_count: usize) -> (d: Self)
        ensures
            d.board_selections@ == Seq::new(board_count as nat, |i: int| false),
            d.cursor == 0,
            d.step == ExportStep::SelectBoards,
            d.format == ExportFormat::Json,
            d.filename@ == "export.json"@,
    {
        let mut board_selections: Vec<bool> = Vec::new();
        let mut i: usize = 0;
        while i < board_count
            invariant
                i <= board_count,
                board_selections@ == Seq::new(i as nat, |k: int| false),
            decreases board_count - i,
        {
            board_selections.push(false);
            i = i + 1;
            assert(board_selections@ =~= Seq::new(i as nat, |k: int| false));
        }
        ExportDialogState {
            board_selections,
            cursor: 0,
            step: ExportStep::SelectBoards,
            format: ExportFormat::Json,
            filename: String::from_str("export.json"),
        }
    }

    /// Flips the selection of board `index`, when there is such a board.
    pub fn toggle(&mut self, index: usize)
        ensures
            final(self).board_selections@ == (if index < old(self).board_selections@.len() {
                old(self).board_selections@.update(
                    index as int,
                    !old(self).board_selections@[index as int],
                )
            } else {
                old(self).board_selections@
            }),
            final(self).cursor == old(self).cursor,
            final(self).step == old(self).step,
            final(self).format == old(self).format,
            final(self).filename@ == old(self).filename@,
    {
        if index < self.board_selections.len() {
            let v = self.board_selections[index];
            self.board_selections.set(index, !v);
        }
    }

    /// Selects every board, or clears them all when all were selected.
    pub fn select_all(&mut self)
        ensures
            final(self).board_selections@ == Seq::new(
                old(self).board_selections@.len(),
                |i: int| !all_true(old(self).board_selections@),
            ),
            final(self).cursor == old(self).cursor,
            final(self).step == old(self).step,
            final(self).format == old(self).format,
            final(self).filename@ == old(self).filename@,
    {
        let all_selected = !self.any_unselected();
        let n = self.board_selections.len();
        let mut i: usize = 0;
        while i < n
            invariant
                i <= n,
                n == self.board_selections@.len(),
                n == old(self).board_selections@.len(),
                all_selected == all_true(old(self).board_selections@),
                forall|k: int| 0 <= k < i ==> self.board_selections@[k] == !all_selected,
                self.cursor == old(self).cursor,
                self.step == old(self).step,
                self.format == old(self).format,
                self.filename@ == old(self).filename@,
            decreases n - i,
        {
            self.board_selections.set(i, !all_selected);
            i = i + 1;
        }
        assert(self.board_selections@ =~= Seq::new(n as nat, |k: int| !all_selected));
    }

    fn any_unselected(&self) -> (r: bool)
        ensures
            r == !all_true(self.board_selections@),
    {
        let mut i: usize = 0;
        while i < self.board_selections.len()
            invariant
                i <= self.board_selections@.len(),
                forall|k: int| 0 <= k < i ==> self.board_selections@[k],
            decreases self.board_selections@.len() - i,
        {
            if !self.board_selections[i] {
                return true;
            }
            i = i + 1;
        }
        false
    }

    /// Whether some board is selected.
    pub fn any_selected(&self) -> (r: bool)
        ensures
            r == any_true(self.board_selections@),
    {
        let mut i: usize = 0;
        while i < self.board_selections.len()
            invariant
                i <= self.board_selections@.len(),
                forall|k: int| 0 <= k < i ==> !self.board_selections@[k],
            decreases self.board_selections@.len() - i,
        {
            if self.board_selections[i] {
                return true;
            }
            i = i + 1;
        }
        false
    }

    /// Indices of the selected boards, in increasing order.
    pub fn selected_indices(&self) -> (r: Vec<usize>)
        ensures
            forall|i: int, j: int| 0 <= i < j < r@.len() ==> r@[i] < r@[j],
            forall|i: int| 0 <= i < r@.len() ==> r@[i] < self.board_selections@.len(),
            forall|k: int|
                0 <= k < self.board_selections@.len() ==> (self.board_selections@[k]
                    <==> r@.contains(k as usize)),
    {
        let mut r: Vec<usize> = Vec::new();
        let mut i: usize = 0;
        while i < self.board_selections.len()
            invariant
                i <= self.board_selections@.len(),
                forall|a: int, b: int| 0 <= a < b < r@.len() ==> r@[a] < r@[b],
                forall|a: int| 0 <= a < r@.len() ==> r@[a] < i,
                forall|k: int| 0 <= k < i ==> (self.board_selections@[k] <==> r@.contains(k as usize)),
            decreases self.board_selections@.len() - i,
        {
            let ghost old_r = r@;
            if self.board_selections[i] {
                r.push(i);
            }
            proof {
                assert forall|k: int| 0 <= k < i + 1 implies (self.board_selections@[k]
                    <==> r@.contains(k as usize)) by {
                    if k < i {
                        if r@.contains(k as usize) {
                            let j = choose|j: int| 0 <= j < r@.len() && r@[j] == k as usize;
                            if j < old_r.len() {
                                assert(old_r[j] == k as usize);
                            }
                        }
                        if old_r.contains(k as usize) {
                            let j = choose|j: int| 0 <= j < old_r.len() && old_r[j] == k as usize;
                            assert(r@[j] == k as usize);
                        }
                    } else {
                        if self.board_selections@[k] {
                            assert(r@[r@.len() - 1] == k as usize);
                        } else {
                            assert(r@ == old_r);
                            if r@.contains(k as usize) {
                                let j = choose|j: int| 0 <= j < r@.len() && r@[j] == k as usize;
                            }
                        }
                    }
                }
            }
            i = i + 1;
        }
        r
    }

    /// The boards to export when the dialog is confirmed, in increasing
    /// order: `None` (the export is refused) when no board is selected or
    /// the file name is empty.
    pub fn export_request(&self) -> (r: Option<Vec<usize>>)
        ensures
            r is None <==> (!any_true(self.board_selections@) || self.filename@.len() == 0),
            r matches Some(v) ==> {
                &&& forall|i: int, j: int| 0 <= i < j < v@.len() ==> v@[i] < v@[j]
                &&& forall|i: int| 0 <= i < v@.len() ==> v@[i] < self.board_selections@.len()
                &&& forall|k: int| 0 <= k < self.board_selections@.len() ==> (self.board_selections@[k] <==> v@.contains(k as usize))
            },
    {
        let name = chars_of(self.filename.as_str());
        if !self.any_selected() || name.len() == 0 {
            return None;
        }
        Some(self.selected_indices())
    }

    /// Reacts to a key. On the board page: Space toggles the board under the
    /// cursor, `a` selects or clears all, `j`/`k` and the arrows move the
    /// cursor round the list, Enter goes on to the options when a board is
    /// selected, Esc closes the dialog. On the options page: Tab switches the
    /// format and the file extension with it, Backspace and typed characters
    /// edit the file name (characters a path cannot hold are ignored), Enter
    /// exports, Esc goes back to the board page.
    pub fn handle_key(&mut self, key: KeyInput) -> (outcome: ExportDialogOutcome)
        ensures
            handle_key_effect(*old(self), key, *final(self), outcome),
    {
        let len = self.board_selections.len();
        match self.step {
            ExportStep::SelectBoards => match key {
                KeyInput::Char(' ') => {
                    let c = self.cursor;
                    self.toggle(c);
                    ExportDialogOutcome::Continue
                },
                KeyInput::Char('a') => {
                    self.select_all();
                    ExportDialogOutcome::Continue
                },
                KeyInput::Char('j') | KeyInput::Down => {
                    if len > 0 {
                        let c = self.cursor % len;
                        proof {
                            lemma_step_down_mod(self.cursor as int, len as int);
                        }
                        self.cursor = if c + 1 == len { 0 } else { c + 1 };
                    }
                    ExportDialogOutcome::Continue
                },
                KeyInput::Char('k') | KeyInput::Up => {
                    if len > 0 {
                        let c = self.cursor % len;
                        proof {
                            lemma_step_up_mod(self.cursor as int, len as int);
                        }
                        self.cursor = if c == 0 { len - 1 } else { c - 1 };
                    }
                    ExportDialogOutcome::Continue
                },
                KeyInput::Enter => {
                    if self.any_selected() {
                        self.step = ExportStep::ExportOptions;
                    }
                    ExportDialogOutcome::Continue
                },
                KeyInput::Esc => ExportDialogOutcome::Close,
                _ => ExportDialogOutcome::Continue,
            },
            ExportStep::ExportOptions => match key {
                KeyInput::Tab | KeyInput::BackTab => {
                    self.format = match self.format {
                        ExportFormat::Json => ExportFormat::Sqlite,
                        ExportFormat::Sqlite => ExportFormat::Json,
                    };
                    let chars = chars_of(self.filename.as_str());
                    let end = match last_index_in(&chars, '.') {
                        Some(i) => i,
                        None => chars.len(),
                    };
                    proof {
                        lemma_last_index_of_bounds(chars@, '.');
                    }
                    let mut name = string_from_chars(&chars, 0, end);
                    assert(name@ =~= file_stem(chars@));
                    match self.format {
                        ExportFormat::Json => name.append(".json"),
                        ExportFormat::Sqlite => name.append(".sqlite"),
                    }
                    self.filename = name;
                    ExportDialogOutcome::Continue
                },
                KeyInput::Backspace => {
                    let chars = chars_of(self.filename.as_str());
                    if chars.len() > 0 {
                        self.filename = string_from_chars(&chars, 0, chars.len() - 1);
                    }
                    ExportDialogOutcome::Continue
                },
                KeyInput::Char(c) => {
                    if !(c == '/' || c == '\\' || c == '\0' || c == ':' || c == '*' || c == '?'
                        || c == '"' || c == '<' || c == '>' || c == '|') {
                        string_push(&mut self.filename, c);
                    }
                    ExportDialogOutcome::Continue
                },
                KeyInput::Enter => ExportDialogOutcome::Execute,
                KeyInput::Esc => {
                    self.step = ExportStep::SelectBoards;
                    ExportDialogOutcome::Continue
                },
                _ => ExportDialogOutcome::Continue,
            },
        }
    }
}

/// Dialog states `a` and `b` agree on everything but the board selections.
pub open spec fn same_but_selections(a: ExportDialogState, b: ExportDialogState) -> bool {
    a.cursor == b.cursor && a.step == b.step && a.format == b.format && a.filename@ == b.filename@
}

/// `b` is `a` with only the cursor changed to `cursor`.
pub open spec fn only_cursor(a: ExportDialogState, b: ExportDialogState, cursor: int) -> bool {
    b.board_selections@ == a.board_selections@ && b.cursor == cursor && b.step == a.step
        && b.format == a.format && b.filename@ == a.filename@
}

/// `b` equals `a`.
pub open spec fn unchanged(a: ExportDialogState, b: ExportDialogState) -> bool {
    only_cursor(a, b, a.cursor as int)
}

/// The effect of `key` on the dialog `a`, giving `b` and `outcome`.
pub open spec fn handle_key_effect(
    a: ExportDialogState,
    key: KeyInput,
    b: ExportDialogState,
    outcome: ExportDialogOutcome,
) -> bool {
    let sel = a.board_selections@;
    let len = sel.len() as int;
    match a.step {
        ExportStep::SelectBoards => {
            if key == KeyInput::Char(' ') {
                &&& outcome == ExportDialogOutcome::Continue
                &&& same_but_selections(a, b)
                &&& b.board_selections@ == (if a.cursor < len {
                    sel.update(a.cursor as int, !sel[a.cursor as int])
                } else {
                    sel
                })
            } else if key == KeyInput::Char('a') {
                &&& outcome == ExportDialogOutcome::Continue
                &&& same_but_selections(a, b)
                &&& b.board_selections@ == Seq::new(sel.len(), |i: int| !all_true(sel))
            } else if key == KeyInput::Char('j') || key == KeyInput::Down {
                &&& outcome == ExportDialogOutcome::Continue
                &&& only_cursor(a, b, if len > 0 { (a.cursor + 1) % len } else { a.cursor as int })
            } else if key == KeyInput::Char('k') || key == KeyInput::Up {
                &&& outcome == ExportDialogOutcome::Continue
                &&& only_cursor(
                    a,
                    b,
                    if len > 0 { (a.cursor + len - 1) % len } else { a.cursor as int },
                )
            } else if key == KeyInput::Enter {
                &&& outcome == ExportDialogOutcome::Continue
                &&& b.board_selections@ == sel && b.cursor == a.cursor && b.format == a.format
                    && b.filename@ == a.filename@
                &&& b.step == (if any_true(sel) { ExportStep::ExportOptions } else { a.step })
            } else if key == KeyInput::Esc {
                outcome == ExportDialogOutcome::Close && unchanged(a, b)
            } else {
                outcome == ExportDialogOutcome::Continue && unchanged(a, b)
            }
        },
        ExportStep::ExportOptions => {
            if key == KeyInput::Tab || key == KeyInput::BackTab {
                &&& outcome == ExportDialogOutcome::Continue
                &&& b.board_selections@ == sel && b.cursor == a.cursor && b.step == a.step
                &&& b.format == other_format(a.format)
                &&& b.filename@ == file_stem(a.filename@) + format_extension(b.format)
            } else if key == KeyInput::Backspace {
                &&& outcome == ExportDialogOutcome::Continue
                &&& b.board_selections@ == sel && b.cursor == a.cursor && b.step == a.step
                    && b.format == a.format
                &&& b.filename@ == (if a.filename@.len() > 0 {
                    a.filename@.drop_last()
                } else {
                    a.filename@
                })
            } else if key is Char {
                &&& outcome == ExportDialogOutcome::Continue
                &&& b.board_selections@ == sel && b.cursor == a.cursor && b.step == a.step
                    && b.format == a.format
                &&& b.filename@ == (if forbidden_in_filename(key->Char_0) {
                    a.filename@
                } else {
                    a.filename@.push(key->Char_0)
                })
            } else if key == KeyInput::Enter {
                outcome == ExportDialogOutcome::Execute && unchanged(a, b)
            } else if key == KeyInput::Esc {
                &&& outcome == ExportDialogOutcome::Continue
                &&& b.board_selections@ == sel && b.cursor == a.cursor && b.format == a.format
                    && b.filename@ == a.filename@
                &&& b.step == ExportStep::SelectBoards
            } else {
                outcome == ExportDialogOutcome::Continue && unchanged(a, b)
            }
        },
    }
}

} // verus!

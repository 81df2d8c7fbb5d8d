use vstd::prelude::*;
use crate::app_state::CardFocus;
use crate::generic_list::{
    ListComponent, list_at_bottom, list_at_top, scroll_after_count, scroll_after_up,
    selection_after_count, selection_after_down, selection_after_up,
};
use crate::keys::KeyInput;
use crate::card_list::first_position;
use crate::ids::same_id;
use crate::export::{ColumnKey, card_of_board};
use uuid::Uuid;

verus! {

/// Cursor state of the card detail view: the focused section and the lists
/// of the card's parents and children.
pub struct CardDetailNav {
    pub focus: CardFocus,
    pub parents_list: ListComponent,
    pub children_list: ListComponent,
}

/// What a key does in the card detail view.
#[derive(Debug, Clone, Copy, PartialEq, Eq, Structural)]
pub enum CardDetailCommand {
    Close,
    Focus(CardFocus),
    NavigateDown,
    NavigateUp,
    CopyBranchName,
    CopyCheckoutCommand,
    EditTitle,
    EditDescription,
    EditMetadata,
    Archive,
    AssignSprint,
    SetPoints,
    SetPriority,
    ManageParents,
    ManageChildren,
    OpenSelectedParent,
    OpenSelectedChild,
    /// Back to the card this one was opened from.
    Back,
    Nothing,
}

/// `b` is `a` with the given selection, item count and scroll offset.
pub open spec fn list_is(a: ListComponent, b: ListComponent, sel: Option<usize>, count: usize, scroll: usize) -> bool {
    &&& b.selection.selected == sel
    &&& b.item_count() == count
    &&& b.scroll() == scroll
    &&& b.multi_selected@ == a.multi_selected@
    &&& b.allow_multi_select == a.allow_multi_select
}

/// `b` is `a`.
pub open spec fn list_same(a: ListComponent, b: ListComponent) -> bool {
    list_is(a, b, a.selection.selected, a.item_count(), a.scroll())
}

/// The section after `f` going down (round from the children to the title).
pub open spec fn section_below(f: CardFocus) -> CardFocus {
    match f {
        CardFocus::Title => CardFocus::Metadata,
        CardFocus::Metadata => CardFocus::Description,
        CardFocus::Description => CardFocus::Parents,
        CardFocus::Parents => CardFocus::Children,
        CardFocus::Children => CardFocus::Title,
    }
}

/// The section before `f` going up (round from the title to the children).
pub open spec fn section_above(f: CardFocus) -> CardFocus {
    match f {
        CardFocus::Title => CardFocus::Children,
        CardFocus::Metadata => CardFocus::Title,
        CardFocus::Description => CardFocus::Metadata,
        CardFocus::Parents => CardFocus::Description,
        CardFocus::Children => CardFocus::Parents,
    }
}

/// The command of `key` with `focus` on the given section.
pub open spec fn card_detail_command(key: KeyInput, focus: CardFocus) -> CardDetailCommand {
    let in_list = focus == CardFocus::Parents || focus == CardFocus::Children;
    match key {
        KeyInput::Esc => CardDetailCommand::Close,
        KeyInput::Down => CardDetailCommand::NavigateDown,
        KeyInput::Up => CardDetailCommand::NavigateUp,
        KeyInput::Enter => match focus {
            CardFocus::Parents => CardDetailCommand::OpenSelectedParent,
            CardFocus::Children => CardDetailCommand::OpenSelectedChild,
            _ => CardDetailCommand::Nothing,
        },
        KeyInput::Backspace => if in_list { CardDetailCommand::Back } else { CardDetailCommand::Nothing },
        KeyInput::Char(c) => if c == '1' {
            CardDetailCommand::Focus(CardFocus::Title)
        } else if c == '2' {
            CardDetailCommand::Focus(CardFocus::Metadata)
        } else if c == '3' {
            CardDetailCommand::Focus(CardFocus::Description)
        } else if c == '4' {
            CardDetailCommand::Focus(CardFocus::Parents)
        } else if c == '5' {
            CardDetailCommand::Focus(CardFocus::Children)
        } else if c == 'j' {
            CardDetailCommand::NavigateDown
        } else if c == 'k' {
            CardDetailCommand::NavigateUp
        } else if c == 'y' {
            CardDetailCommand::CopyBranchName
        } else if c == 'Y' {
            CardDetailCommand::CopyCheckoutCommand
        } else if c == 'e' {
            match focus {
                CardFocus::Title => CardDetailCommand::EditTitle,
                CardFocus::Description => CardDetailCommand::EditDescription,
                CardFocus::Metadata => CardDetailCommand::EditMetadata,
                _ => CardDetailCommand::Nothing,
            }
        } else if c == 'd' {
            CardDetailCommand::Archive
        } else if c == 'a' {
            CardDetailCommand::AssignSprint
        } else if c == 'p' {
            CardDetailCommand::SetPoints
        } else if c == 'P' {
            CardDetailCommand::SetPriority
        } else if c == 'r' {
            CardDetailCommand::ManageParents
        } else if c == 'R' {
            CardDetailCommand::ManageChildren
        } else if c == 'h' && in_list {
            CardDetailCommand::Back
        } else {
            CardDetailCommand::Nothing
        },
        _ => CardDetailCommand::Nothing,
    }
}

/// What `key` does in the card detail view with `focus` on a section.
pub fn route_card_detail_key(key: KeyInput, focus: CardFocus) -> (r: CardDetailCommand)
    ensures
        r == card_detail_command(key, focus),
        key == KeyInput::Char('e') ==> r == (match focus {
            CardFocus::Title => CardDetailCommand::EditTitle,
            CardFocus::Description => CardDetailCommand::EditDescription,
            CardFocus::Metadata => CardDetailCommand::EditMetadata,
            _ => CardDetailCommand::Nothing,
        }),
{
    let in_list = focus == CardFocus::Parents || focus == CardFocus::Children;
    match key {
        KeyInput::Esc => CardDetailCommand::Close,
        KeyInput::Down => CardDetailCommand::NavigateDown,
        KeyInput::Up => CardDetailCommand::NavigateUp,
        KeyInput::Enter => match focus {
            CardFocus::Parents => CardDetailCommand::OpenSelectedParent,
            CardFocus::Children => CardDetailCommand::OpenSelectedChild,
            _ => CardDetailCommand::Nothing,
        },
        KeyInput::Backspace => if in_list { CardDetailCommand::Back } else { CardDetailCommand::Nothing },
        KeyInput::Char(c) => if c == '1' {
            CardDetailCommand::Focus(CardFocus::Title)
        } else if c == '2' {
            CardDetailCommand::Focus(CardFocus::Metadata)
        } else if c == '3' {
            CardDetailCommand::Focus(CardFocus::Description)
        } else if c == '4' {
            CardDetailCommand::Focus(CardFocus::Parents)
        } else if c == '5' {
            CardDetailCommand::Focus(CardFocus::Children)
        } else if c == 'j' {
            CardDetailCommand::NavigateDown
        } else if c == 'k' {
            CardDetailCommand::NavigateUp
        } else if c == 'y' {
            CardDetailCommand::CopyBranchName
        } else if c == 'Y' {
            CardDetailCommand::CopyCheckoutCommand
        } else if c == 'e' {
            match focus {
                CardFocus::Title => CardDetailCommand::EditTitle,
                CardFocus::Description => CardDetailCommand::EditDescription,
                CardFocus::Metadata => CardDetailCommand::EditMetadata,
                _ => CardDetailCommand::Nothing,
            }
        } else if c == 'd' {
            CardDetailCommand::Archive
        } else if c == 'a' {
            CardDetailCommand::AssignSprint
        } else if c == 'p' {
            CardDetailCommand::SetPoints
        } else if c == 'P' {
            CardDetailCommand::SetPriority
        } else if c == 'r' {
            CardDetailCommand::ManageParents
        } else if c == 'R' {
            CardDetailCommand::ManageChildren
        } else if c == 'h' && in_list {
            CardDetailCommand::Back
        } else {
            CardDetailCommand::Nothing
        },
        _ => CardDetailCommand::Nothing,
    }
}

/// In the card detail view `e` edits the field of the focused section: the
/// title on the title, the description on the description, the metadata
/// on the metadata; on the parent and child lists it does nothing.
pub proof fn lemma_edit_key_edits_the_focused_section()
    ensures
        card_detail_command(KeyInput::Char('e'), CardFocus::Title) == CardDetailCommand::EditTitle,
        card_detail_command(KeyInput::Char('e'), CardFocus::Description) == CardDetailCommand::EditDescription,
        card_detail_command(KeyInput::Char('e'), CardFocus::Metadata) == CardDetailCommand::EditMetadata,
        card_detail_command(KeyInput::Char('e'), CardFocus::Parents) == CardDetailCommand::Nothing,
        card_detail_command(KeyInput::Char('e'), CardFocus::Children) == CardDetailCommand::Nothing,
{
}

impl CardDetailNav {
    /// Moves down, given the numbers of the card's parents and children.
    /// In the parents or children list the selection moves down the list;
    /// from its last row (or from an empty list) the cursor goes on to the
    /// next section: the parents' last row leads to the first child, the
    /// children's to the title. Other sections step to the next section.
    pub fn navigate_down(&mut self, parent_count: usize, child_count: usize)
        ensures
            ({
                let o = *old(self);
                let f = *final(self);
                match o.focus {
                    CardFocus::Parents => if parent_count == 0 {
                        f.focus == CardFocus::Children && list_same(o.parents_list, f.parents_list)
                            && list_same(o.children_list, f.children_list)
                    } else if list_at_bottom(o.parents_list) {
                        &&& f.focus == CardFocus::Children
                        &&& list_is(o.parents_list, f.parents_list, None, o.parents_list.item_count(), o.parents_list.scroll())
                        &&& list_is(o.children_list, f.children_list,
                            if child_count > 0 { Some(0usize) } else { None },
                            child_count,
                            scroll_after_count(o.children_list.scroll(), child_count))
                    } else {
                        &&& f.focus == CardFocus::Parents
                        &&& list_is(o.parents_list, f.parents_list, selection_after_down(o.parents_list), o.parents_list.item_count(), o.parents_list.scroll())
                        &&& list_same(o.children_list, f.children_list)
                    },
                    CardFocus::Children => if child_count == 0 {
                        f.focus == CardFocus::Title && list_same(o.parents_list, f.parents_list)
                            && list_same(o.children_list, f.children_list)
                    } else if list_at_bottom(o.children_list) {
                        &&& f.focus == CardFocus::Title
                        &&& list_same(o.parents_list, f.parents_list)
                        &&& list_is(o.children_list, f.children_list, None, o.children_list.item_count(), o.children_list.scroll())
                    } else {
                        &&& f.focus == CardFocus::Children
                        &&& list_same(o.parents_list, f.parents_list)
                        &&& list_is(o.children_list, f.children_list, selection_after_down(o.children_list), o.children_list.item_count(), o.children_list.scroll())
                    },
                    _ => f.focus == section_below(o.focus) && list_same(o.parents_list, f.parents_list)
                        && list_same(o.children_list, f.children_list),
                }
            }),
    {
        match self.focus {
            CardFocus::Parents => {
                if parent_count > 0 {
                    let at_boundary = self.parents_list.navigate_down();
                    if at_boundary {
                        self.focus = CardFocus::Children;
                        self.parents_list.selection.clear();
                        self.children_list.update_item_count(child_count);
                        if child_count > 0 {
                            self.children_list.selection.set(Some(0));
                        }
                    }
                } else {
                    self.focus = CardFocus::Children;
                }
            },
            CardFocus::Children => {
                if child_count > 0 {
                    let at_boundary = self.children_list.navigate_down();
                    if at_boundary {
                        self.focus = CardFocus::Title;
                        self.children_list.selection.clear();
                    }
                } else {
                    self.focus = CardFocus::Title;
                }
            },
            CardFocus::Title => {
                self.focus = CardFocus::Metadata;
            },
            CardFocus::Metadata => {
                self.focus = CardFocus::Description;
            },
            CardFocus::Description => {
                self.focus = CardFocus::Parents;
            },
        }
    }

    /// Moves up, given the numbers of the card's parents and children.
    /// In a list the selection moves up; from its first row (or an empty
    /// list) the cursor goes on to the section above: the first parent
    /// leads to the description, the first child to the last parent. Other
    /// sections step to the section above.
    pub fn navigate_up(&mut self, parent_count: usize, child_count: usize)
        ensures
            ({
                let o = *old(self);
                let f = *final(self);
                match o.focus {
                    CardFocus::Parents => if parent_count == 0 {
                        f.focus == CardFocus::Description && list_same(o.parents_list, f.parents_list)
                            && list_same(o.children_list, f.children_list)
                    } else if list_at_top(o.parents_list) {
                        &&& f.focus == CardFocus::Description
                        &&& list_is(o.parents_list, f.parents_list, None, o.parents_list.item_count(), o.parents_list.scroll())
                        &&& list_same(o.children_list, f.children_list)
                    } else {
                        &&& f.focus == CardFocus::Parents
                        &&& list_is(o.parents_list, f.parents_list, selection_after_up(o.parents_list), o.parents_list.item_count(), scroll_after_up(o.parents_list))
                        &&& list_same(o.children_list, f.children_list)
                    },
                    CardFocus::Children => if child_count == 0 {
                        f.focus == CardFocus::Parents && list_same(o.parents_list, f.parents_list)
                            && list_same(o.children_list, f.children_list)
                    } else if list_at_top(o.children_list) {
                        &&& f.focus == CardFocus::Parents
                        &&& list_is(o.children_list, f.children_list, None, o.children_list.item_count(), o.children_list.scroll())
                        &&& list_is(o.parents_list, f.parents_list,
                            if parent_count > 0 { Some((parent_count - 1) as usize) } else { None },
                            parent_count,
                            scroll_after_count(o.parents_list.scroll(), parent_count))
                    } else {
                        &&& f.focus == CardFocus::Children
                        &&& list_same(o.parents_list, f.parents_list)
                        &&& list_is(o.children_list, f.children_list, selection_after_up(o.children_list), o.children_list.item_count(), scroll_after_up(o.children_list))
                    },
                    _ => f.focus == section_above(o.focus) && list_same(o.parents_list, f.parents_list)
                        && list_same(o.children_list, f.children_list),
                }
            }),
    {
        match self.focus {
            CardFocus::Parents => {
                if parent_count > 0 {
                    let at_boundary = self.parents_list.navigate_up();
                    if at_boundary {
                        self.focus = CardFocus::Description;
                        self.parents_list.selection.clear();
                    }
                } else {
                    self.focus = CardFocus::Description;
                }
            },
            CardFocus::Children => {
                if child_count > 0 {
                    let at_boundary = self.children_list.navigate_up();
                    if at_boundary {
                        self.focus = CardFocus::Parents;
                        self.children_list.selection.clear();
                        self.parents_list.update_item_count(parent_count);
                        if parent_count > 0 {
                            self.parents_list.selection.set(Some(parent_count - 1));
                        }
                    }
                } else {
                    self.focus = CardFocus::Parents;
                }
            },
            CardFocus::Title => {
                self.focus = CardFocus::Children;
            },
            CardFocus::Metadata => {
                self.focus = CardFocus::Title;
            },
            CardFocus::Description => {
                self.focus = CardFocus::Metadata;
            },
        }
    }
}

/// Stepping between sections one way and back returns to the section:
/// `section_above` undoes `section_below` and the other way round.
pub proof fn lemma_sections_round_trip(f: CardFocus)
    ensures
        section_above(section_below(f)) == f,
        section_below(section_above(f)) == f,
{
}

/// Row of the first occurrence of `id` in `ids`.
fn position_of(ids: &Vec<Uuid>, id: Uuid) -> (r: Option<usize>)
    ensures
        first_position(ids@, id, r),
{
    let mut i: usize = 0;
    while i < ids.len()
        invariant
            i <= ids@.len(),
            forall|k: int| 0 <= k < i ==> ids@[k] != id,
        decreases ids@.len() - i,
    {
        if same_id(&ids[i], &id) {
            return Some(i);
        }
        i = i + 1;
    }
    None
}

/// The card opened from a list of related cards (`related`, with `selected`
/// its selected row) among all cards (`cards`): the selected related card,
/// or else the first related card, as a row of `cards`; none when neither is
/// found.
pub open spec fn related_target(related: Seq<Uuid>, selected: Option<usize>, cards: Seq<Uuid>, r: Option<usize>) -> bool {
    let chosen = match selected {
        Some(i) => i < related.len() && cards.contains(related[i as int]),
        None => false,
    };
    if chosen {
        first_position(cards, related[selected->0 as int], r)
    } else if related.len() > 0 {
        first_position(cards, related[0], r)
    } else {
        r is None
    }
}

/// See `related_target`.
pub fn related_card_target(related: &Vec<Uuid>, selected: Option<usize>, cards: &Vec<Uuid>) -> (r: Option<usize>)
    ensures
        related_target(related@, selected, cards@, r),
{
    if let Some(i) = selected {
        if i < related.len() {
            if let Some(row) = position_of(cards, related[i]) {
                return Some(row);
            }
        }
    }
    if related.len() > 0 {
        position_of(cards, related[0])
    } else {
        None
    }
}

/// Opens the card on row `target` from the card on row `current`,
/// remembering `current` so that going back returns to it. Returns the card
/// now open.
pub fn open_related(history: &mut Vec<usize>, current: usize, target: Option<usize>) -> (r: usize)
    ensures
        match target {
            Some(t) => r == t && final(history)@ == old(history)@.push(current),
            None => r == current && final(history)@ == old(history)@,
        },
{
    match target {
        Some(t) => {
            history.push(current);
            t
        },
        None => current,
    }
}

/// Goes back to the card the open one was reached from, if any.
pub fn go_back(history: &mut Vec<usize>) -> (r: Option<usize>)
    ensures
        old(history)@.len() == 0 ==> r is None && final(history)@ == old(history)@,
        old(history)@.len() > 0 ==> r == Some(old(history)@.last()) && final(history)@
            == old(history)@.drop_last(),
{
    history.pop()
}

/// Going back after opening a related card returns to the card it was
/// opened from, with the history as it was.
pub proof fn lemma_back_returns_to_opener(history: Seq<usize>, current: usize)
    ensures
        history.push(current).len() > 0,
        history.push(current).last() == current,
        history.push(current).drop_last() == history,
{
    assert(history.push(current).drop_last() =~= history);
}

/// A card and the column it is in.
#[derive(Debug, Clone, Copy)]
pub struct CardRef {
    pub id: Uuid,
    pub column_id: Uuid,
}

/// The board of the first column with id `column`, if any.
pub open spec fn board_of_column(columns: Seq<ColumnKey>, column: Uuid, r: Option<Uuid>) -> bool {
    match r {
        Some(b) => exists|j: int| #![trigger columns[j]] 0 <= j < columns.len() && columns[j].id == column && columns[j].board_id == b
            && forall|k: int| #![trigger columns[k]] 0 <= k < j ==> columns[k].id != column,
        None => forall|k: int| #![trigger columns[k]] 0 <= k < columns.len() ==> columns[k].id != column,
    }
}

/// Card `c` may be linked to the card `card` of `board`: it is on the
/// board, it is another card, and it is not `excluded` (the cards a link
/// would put in a cycle).
pub open spec fn eligible(columns: Seq<ColumnKey>, board: Uuid, card: Uuid, excluded: Seq<Uuid>, c: CardRef) -> bool {
    card_of_board(columns, board, c.column_id) && c.id != card && !excluded.contains(c.id)
}

/// The ids of the cards of `cards` that may be linked, in order.
pub open spec fn eligible_ids(columns: Seq<ColumnKey>, board: Uuid, card: Uuid, excluded: Seq<Uuid>, cards: Seq<CardRef>) -> Seq<Uuid>
    decreases cards.len(),
{
    if cards.len() == 0 {
        Seq::empty()
    } else {
        let r = eligible_ids(columns, board, card, excluded, cards.drop_last());
        if eligible(columns, board, card, excluded, cards.last()) { r.push(cards.last().id) } else { r }
    }
}

fn contains_id(ids: &Vec<Uuid>, id: Uuid) -> (r: bool)
    ensures
        r == ids@.contains(id),
{
    match position_of(ids, id) {
        Some(i) => {
            assert(ids@[i as int] == id);
            true
        },
        None => false,
    }
}

fn column_on_board(columns: &Vec<ColumnKey>, board: Uuid, column: Uuid) -> (r: bool)
    ensures
        r == card_of_board(columns@, board, column),
{
    let mut i: usize = 0;
    while i < columns.len()
        invariant
            i <= columns@.len(),
            forall|k: int| 0 <= k < i ==> !(columns@[k].board_id == board && columns@[k].id == column),
        decreases columns@.len() - i,
    {
        if same_id(&columns[i].board_id, &board) && same_id(&columns[i].id, &column) {
            return true;
        }
        i = i + 1;
    }
    false
}

/// The board of the first column with id `column`.
fn board_of(columns: &Vec<ColumnKey>, column: Uuid) -> (r: Option<Uuid>)
    ensures
        board_of_column(columns@, column, r),
{
    let mut j: usize = 0;
    while j < columns.len()
        invariant
            j <= columns@.len(),
            forall|k: int| #![trigger columns@[k]] 0 <= k < j ==> columns@[k].id != column,
        decreases columns@.len() - j,
    {
        if same_id(&columns[j].id, &column) {
            assert(columns@[j as int].id == column);
            return Some(columns[j].board_id);
        }
        j = j + 1;
    }
    None
}

/// The cards of `board` that the card `card` may be linked to as parents
/// or children: the other cards of the board not in `excluded` (its
/// descendants when choosing parents, its ancestors when choosing
/// children), in order.
pub fn board_relationship_candidates(
    cards: &Vec<CardRef>,
    columns: &Vec<ColumnKey>,
    card: Uuid,
    board: Uuid,
    excluded: &Vec<Uuid>,
) -> (r: Vec<Uuid>)
    ensures
        r@ == eligible_ids(columns@, board, card, excluded@, cards@),
{
    let mut out: Vec<Uuid> = Vec::new();
    let mut i: usize = 0;
    while i < cards.len()
        invariant
            i <= cards@.len(),
            out@ == eligible_ids(columns@, board, card, excluded@, cards@.take(i as int)),
        decreases cards@.len() - i,
    {
        let c = cards[i];
        assert(cards@.take(i + 1).drop_last() =~= cards@.take(i as int));
        if column_on_board(columns, board, c.column_id) && !same_id(&c.id, &card) && !contains_id(excluded, c.id) {
            out.push(c.id);
        }
        i = i + 1;
    }
    assert(cards@.take(i as int) =~= cards@);
    out
}

/// The cards the card `card` (in column `card_column`) may be linked to as
/// parents or children: those of `board_relationship_candidates` for the
/// board of its column. `None` when its column belongs to no listed board.
pub fn relationship_candidates(
    cards: &Vec<CardRef>,
    columns: &Vec<ColumnKey>,
    card: Uuid,
    card_column: Uuid,
    excluded: &Vec<Uuid>,
) -> (r: Option<Vec<Uuid>>)
    ensures
        exists|b: Option<Uuid>| #![trigger board_of_column(columns@, card_column, b)]
            board_of_column(columns@, card_column, b) && match b {
                None => r is None,
                Some(board) => r matches Some(v) && v@ == eligible_ids(columns@, board, card, excluded@, cards@),
            },
{
    match board_of(columns, card_column) {
        None => None,
        Some(b) => Some(board_relationship_candidates(cards, columns, card, b, excluded)),
    }
}

/// The relationship dialogs never offer a link that would make a cycle: no
/// candidate is the card itself or one of the `excluded` cards.
pub proof fn lemma_candidates_never_close_a_cycle(
    columns: Seq<ColumnKey>,
    board: Uuid,
    card: Uuid,
    excluded: Seq<Uuid>,
    cards: Seq<CardRef>,
    k: int,
)
    requires
        0 <= k < eligible_ids(columns, board, card, excluded, cards).len(),
    ensures
        eligible_ids(columns, board, card, excluded, cards)[k] != card,
        !excluded.contains(eligible_ids(columns, board, card, excluded, cards)[k]),
    decreases cards.len(),
{
    let r = eligible_ids(columns, board, card, excluded, cards.drop_last());
    if k < r.len() {
        lemma_candidates_never_close_a_cycle(columns, board, card, excluded, cards.drop_last(), k);
    }
}

} // verus!

use vstd::prelude::*;
use uuid::Uuid;
use crate::ids::same_id;
use crate::app_state::{CreateCardFocus, SprintTaskPanel};
use crate::banner::Banner;
use crate::card_list::{CardList, CardListId};
use crate::card_list_component::{CardListComponent, CardListComponentConfig};
use crate::generic_list::ListComponent;
use crate::page::scroll_to_show;
use crate::selection::SelectionState;
use crate::sprint_picker::SprintPicker;

verus! {

/// Input state of the dialogs: files offered for import, the selected row
/// of each selection dialog, the sprint a carry-over starts from, and the
/// create-card dialog's sprint picker and focused field.
pub struct DialogInputState {
    pub import_files: Vec<String>,
    pub import_selection: SelectionState,
    pub priority_selection: SelectionState,
    pub column_selection: SelectionState,
    pub column_scroll: usize,
    pub sprint_assign_selection: SelectionState,
    pub task_list_view_selection: SelectionState,
    pub carry_over_sprint_selection: SelectionState,
    pub carry_over_source_sprint_id: Option<Uuid>,
    pub create_card_sprint_picker: SprintPicker,
    pub create_card_focus: CreateCardFocus,
}

impl Default for DialogInputState {
    /// No import files, nothing selected, a fresh sprint picker, focus on
    /// the title field.
    fn default() -> (d: Self)
        ensures
            d.import_files@.len() == 0,
            d.import_selection.selected is None,
            d.priority_selection.selected is None,
            d.column_selection.selected is None,
            d.column_scroll == 0,
            d.sprint_assign_selection.selected is None,
            d.task_list_view_selection.selected is None,
            d.carry_over_sprint_selection.selected is None,
            d.carry_over_source_sprint_id is None,
            d.create_card_focus == CreateCardFocus::Title,
    {
        DialogInputState {
            import_files: Vec::new(),
            import_selection: SelectionState::new(),
            priority_selection: SelectionState::new(),
            column_selection: SelectionState::new(),
            column_scroll: 0,
            sprint_assign_selection: SelectionState::new(),
            task_list_view_selection: SelectionState::new(),
            carry_over_sprint_selection: SelectionState::new(),
            carry_over_source_sprint_id: None,
            create_card_sprint_picker: SprintPicker::new(),
            create_card_focus: CreateCardFocus::Title,
        }
    }
}

impl DialogInputState {
    pub fn create_card_focus_is_title(&self) -> (r: bool)
        ensures
            r == (self.create_card_focus == CreateCardFocus::Title),
    {
        self.create_card_focus == CreateCardFocus::Title
    }

    /// Moves focus between the title field and the sprint picker.
    pub fn toggle_create_card_focus(&mut self)
        ensures
            final(self).create_card_focus == (match old(self).create_card_focus {
                CreateCardFocus::Title => CreateCardFocus::Sprint,
                CreateCardFocus::Sprint => CreateCardFocus::Title,
            }),
    {
        self.create_card_focus = match self.create_card_focus {
            CreateCardFocus::Title => CreateCardFocus::Sprint,
            CreateCardFocus::Sprint => CreateCardFocus::Title,
        };
    }

    pub fn reset_create_card_focus(&mut self)
        ensures
            final(self).create_card_focus == CreateCardFocus::Title,
    {
        self.create_card_focus = CreateCardFocus::Title;
    }
}

/// Selection state of the boards, the active board and card, the sprints
/// and the settings panels.
pub struct SelectionHub {
    pub board: SelectionState,
    pub active_board_index: Option<usize>,
    pub active_card_index: Option<usize>,
    pub active_card_id: Option<Uuid>,
    pub sprint: SelectionState,
    pub sprint_scroll: usize,
    pub active_sprint_index: Option<usize>,
    pub card_navigation_history: Vec<usize>,
    pub settings_config: SelectionState,
    pub settings_config_file: SelectionState,
    pub settings_storage: SelectionState,
}

impl Default for SelectionHub {
    /// Nothing selected and nothing active.
    fn default() -> (h: Self)
        ensures
            h.board.selected is None,
            h.active_board_index is None,
            h.active_card_index is None,
            h.active_card_id is None,
            h.sprint.selected is None,
            h.sprint_scroll == 0,
            h.active_sprint_index is None,
            h.card_navigation_history@.len() == 0,
            h.settings_config.selected is None,
            h.settings_config_file.selected is None,
            h.settings_storage.selected is None,
    {
        SelectionHub {
            board: SelectionState::new(),
            active_board_index: None,
            active_card_index: None,
            active_card_id: None,
            sprint: SelectionState::new(),
            sprint_scroll: 0,
            active_sprint_index: None,
            card_navigation_history: Vec::new(),
            settings_config: SelectionState::new(),
            settings_config_file: SelectionState::new(),
            settings_storage: SelectionState::new(),
        }
    }
}

impl SelectionHub {
    /// Makes card `id`, at row `idx`, the active card.
    pub fn set_active_card(&mut self, idx: usize, id: Uuid)
        ensures
            final(self).active_card_index == Some(idx),
            final(self).active_card_id == Some(id),
            final(self).active_board_index == old(self).active_board_index,
            final(self).active_sprint_index == old(self).active_sprint_index,
    {
        self.active_card_index = Some(idx);
        self.active_card_id = Some(id);
    }

    pub fn clear_active_card(&mut self)
        ensures
            final(self).active_card_index is None,
            final(self).active_card_id is None,
            final(self).active_board_index == old(self).active_board_index,
            final(self).active_sprint_index == old(self).active_sprint_index,
    {
        self.active_card_index = None;
        self.active_card_id = None;
    }
}

/// Cards chosen for a bulk action (each id at most once), and whether
/// selection mode is on.
pub struct MultiSelectState {
    pub selected_cards: Vec<Uuid>,
    pub selection_mode_active: bool,
}

impl Default for MultiSelectState {
    fn default() -> (s: Self)
        ensures
            s.selected_cards@.len() == 0,
            !s.selection_mode_active,
    {
        MultiSelectState { selected_cards: Vec::new(), selection_mode_active: false }
    }
}

/// `s` with `id` added at the end unless it holds it already.
pub open spec fn with_card(s: Seq<Uuid>, id: Uuid) -> Seq<Uuid> {
    if s.contains(id) { s } else { s.push(id) }
}

/// `acc` with each of `ids` added in turn (see `with_card`).
pub open spec fn with_cards(acc: Seq<Uuid>, ids: Seq<Uuid>) -> Seq<Uuid>
    decreases ids.len(),
{
    if ids.len() == 0 {
        acc
    } else {
        with_card(with_cards(acc, ids.drop_last()), ids.last())
    }
}

fn holds(v: &Vec<Uuid>, id: Uuid) -> (r: bool)
    ensures
        r == v@.contains(id),
{
    let mut i: usize = 0;
    while i < v.len()
        invariant
            i <= v@.len(),
            forall|k: int| 0 <= k < i ==> v@[k] != id,
        decreases v@.len() - i,
    {
        if same_id(&v[i], &id) {
            assert(v@[i as int] == id);
            return true;
        }
        i = i + 1;
    }
    false
}

impl MultiSelectState {
    pub fn new() -> (s: Self)
        ensures
            s.selected_cards@.len() == 0,
            !s.selection_mode_active,
    {
        MultiSelectState::default()
    }

    /// The selection key with the cards panel focused (`cards_focused`):
    /// leaves selection mode keeping the chosen cards, or enters it and
    /// chooses the card under the cursor (`current`, if any).
    pub fn toggle_selection_mode(&mut self, cards_focused: bool, current: Option<Uuid>)
        ensures
            !cards_focused ==> final(self).selection_mode_active == old(self).selection_mode_active
                && final(self).selected_cards@ == old(self).selected_cards@,
            cards_focused && old(self).selection_mode_active ==> !final(self).selection_mode_active
                && final(self).selected_cards@ == old(self).selected_cards@,
            cards_focused && !old(self).selection_mode_active ==> final(self).selection_mode_active
                && final(self).selected_cards@ == (match current {
                    Some(id) => with_card(old(self).selected_cards@, id),
                    None => old(self).selected_cards@,
                }),
    {
        if cards_focused {
            if self.selection_mode_active {
                self.selection_mode_active = false;
            } else {
                self.selection_mode_active = true;
                if let Some(id) = current {
                    if !holds(&self.selected_cards, id) {
                        self.selected_cards.push(id);
                    }
                }
            }
        }
    }

    /// Chooses every card shown (`cards`), entering selection mode when
    /// there is one.
    pub fn select_all_in_view(&mut self, cards: &Vec<Uuid>)
        ensures
            final(self).selected_cards@ == with_cards(old(self).selected_cards@, cards@),
            final(self).selection_mode_active == (old(self).selection_mode_active || cards@.len() > 0),
    {
        let mut i: usize = 0;
        while i < cards.len()
            invariant
                i <= cards@.len(),
                self.selected_cards@ == with_cards(old(self).selected_cards@, cards@.take(i as int)),
                self.selection_mode_active == old(self).selection_mode_active,
            decreases cards@.len() - i,
        {
            let id = cards[i];
            assert(cards@.take(i + 1).drop_last() =~= cards@.take(i as int));
            if !holds(&self.selected_cards, id) {
                self.selected_cards.push(id);
            }
            i = i + 1;
        }
        assert(cards@.take(i as int) =~= cards@);
        if cards.len() > 0 {
            self.selection_mode_active = true;
        }
    }

    /// Drops every chosen card.
    pub fn clear(&mut self)
        ensures
            final(self).selected_cards@.len() == 0,
            final(self).selection_mode_active == old(self).selection_mode_active,
    {
        self.selected_cards.clear();
    }
}

/// Adding cards one at a time never chooses a card twice.
pub proof fn lemma_with_cards_keeps_cards_distinct(acc: Seq<Uuid>, ids: Seq<Uuid>)
    requires
        acc.no_duplicates(),
    ensures
        with_cards(acc, ids).no_duplicates(),
        forall|k: int| 0 <= k < ids.len() ==> with_cards(acc, ids).contains(#[trigger] ids[k]),
    decreases ids.len(),
{
    if ids.len() > 0 {
        let rest = ids.drop_last();
        lemma_with_cards_keeps_cards_distinct(acc, rest);
        let a = with_cards(acc, rest);
        let last = ids.last();
        if !a.contains(last) {
            assert forall|i: int, j: int| 0 <= i < j < a.push(last).len() implies a.push(last)[i] != a.push(last)[j] by {
                if j == a.len() as int {
                    assert(a[i] == a.push(last)[i]);
                }
            }
            assert(a.push(last)[a.len() as int] == last);
        }
        assert forall|k: int| 0 <= k < ids.len() implies with_cards(acc, ids).contains(#[trigger] ids[k]) by {
            if k < ids.len() - 1 {
                assert(ids[k] == rest[k]);
                assert(a.contains(rest[k]));
                if !a.contains(last) {
                    let w = choose|w: int| 0 <= w < a.len() && a[w] == rest[k];
                    assert(a.push(last)[w] == rest[k]);
                }
            } else if !a.contains(last) {
                assert(a.push(last)[a.len() as int] == last);
            }
        }
    }
}

/// Transient interface state: the banner shown and the help list.
pub struct UiState {
    pub banner: Option<Banner>,
    pub help_list: ListComponent,
}

impl Default for UiState {
    /// No banner; an empty help list without multi-selection.
    fn default() -> (s: Self)
        ensures
            s.banner is None,
            s.help_list.item_count() == 0,
            !s.help_list.allow_multi_select,
            s.help_list.selection.selected is None,
    {
        UiState { banner: None, help_list: ListComponent::new(false) }
    }
}

/// The sprint detail view: the focused panel and the lists of its
/// uncompleted and completed cards.
pub struct SprintViewState {
    pub panel: SprintTaskPanel,
    pub uncompleted_cards: CardList,
    pub completed_cards: CardList,
    pub uncompleted_component: CardListComponent,
    pub completed_component: CardListComponent,
}

impl Default for SprintViewState {
    /// The uncompleted panel focused; empty lists with every action enabled.
    fn default() -> (s: Self)
        ensures
            s.panel == SprintTaskPanel::Uncompleted,
            s.uncompleted_cards.cards@.len() == 0,
            s.completed_cards.cards@.len() == 0,
    {
        SprintViewState {
            panel: SprintTaskPanel::Uncompleted,
            uncompleted_cards: CardList::new(CardListId::All),
            completed_cards: CardList::new(CardListId::All),
            uncompleted_component: CardListComponent::new(CardListId::All, CardListComponentConfig::new()),
            completed_component: CardListComponent::new(CardListId::All, CardListComponentConfig::new()),
        }
    }
}

impl SprintViewState {
    /// Scrolls both panels so their selected cards are shown, given the
    /// heights of their viewports.
    pub fn sync_scroll(&mut self, uncompleted_viewport: usize, completed_viewport: usize)
        ensures
            final(self).uncompleted_cards.scroll_offset == (match old(self).uncompleted_cards.selection.selected {
                Some(i) => scroll_to_show(old(self).uncompleted_cards.scroll_offset, i, uncompleted_viewport),
                None => old(self).uncompleted_cards.scroll_offset,
            }),
            final(self).completed_cards.scroll_offset == (match old(self).completed_cards.selection.selected {
                Some(i) => scroll_to_show(old(self).completed_cards.scroll_offset, i, completed_viewport),
                None => old(self).completed_cards.scroll_offset,
            }),
            final(self).uncompleted_cards.selection == old(self).uncompleted_cards.selection,
            final(self).completed_cards.selection == old(self).completed_cards.selection,
            final(self).panel == old(self).panel,
    {
        self.uncompleted_cards.ensure_selected_visible(uncompleted_viewport);
        self.completed_cards.ensure_selected_visible(completed_viewport);
    }
}

} // verus!

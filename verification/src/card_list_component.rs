use vstd::prelude::*;
use uuid::Uuid;
use crate::card_list::{CardList, CardListId, after_down, after_up, first_position, selected_id};
use crate::ids::same_id;
use crate::keys::KeyInput;
use crate::text::{join, join_strs, str_views};

verus! {

/// What a key press in a card list asks the host to do.
#[derive(Debug, Clone, Copy, PartialEq)]
pub enum CardListAction {
    Select(Uuid),
    Edit(Uuid),
    Complete(Uuid),
    TogglePriority(Uuid),
    AssignSprint(Uuid),
    ReassignSprint(Uuid),
    Sort,
    OrderCards,
    MoveColumn(Uuid, bool),
    Create,
    ToggleMultiSelect(Uuid),
    ClearMultiSelect,
    SelectAll,
}

/// Groups of card-list actions that a list may enable.
#[derive(Debug, Clone, Copy, PartialEq, Eq, Hash, Structural)]
pub enum CardListActionType {
    Navigation,
    Selection,
    Editing,
    Completion,
    Priority,
    Sprint,
    Sorting,
    Movement,
    Creation,
    MultiSelect,
}

/// Which actions a card list offers.
pub struct CardListComponentConfig {
    pub enabled_actions: Vec<CardListActionType>,
    pub allow_multi_select: bool,
    pub allow_reordering: bool,
    pub allow_movement: bool,
    pub show_sprint_names: bool,
}

/// Every action group, in the order of the default configuration.
pub open spec fn all_action_types() -> Seq<CardListActionType> {
    seq![
        CardListActionType::Navigation,
        CardListActionType::Selection,
        CardListActionType::Editing,
        CardListActionType::Completion,
        CardListActionType::Priority,
        CardListActionType::Sprint,
        CardListActionType::Sorting,
        CardListActionType::Movement,
        CardListActionType::Creation,
        CardListActionType::MultiSelect,
    ]
}

/// `seq![part]` when `cond` holds, else nothing.
pub open spec fn opt_part(cond: bool, part: Seq<char>) -> Seq<Seq<char>> {
    if cond {
        seq![part]
    } else {
        Seq::empty()
    }
}

/// The parts of the help line of a list with `actions` enabled.
pub open spec fn help_parts(actions: Seq<CardListActionType>, multi: bool) -> Seq<Seq<char>> {
    seq!["ESC: cancel"@]
        + opt_part(actions.contains(CardListActionType::Navigation), "j/k: navigate"@)
        + opt_part(actions.contains(CardListActionType::Selection), "Enter/Space: select"@)
        + opt_part(actions.contains(CardListActionType::Editing), "e: edit"@)
        + opt_part(actions.contains(CardListActionType::Completion), "c: complete"@)
        + opt_part(actions.contains(CardListActionType::Priority), "p: priority"@)
        + opt_part(actions.contains(CardListActionType::Sprint), "s: assign sprint"@)
        + opt_part(actions.contains(CardListActionType::Sorting), "o: sort"@)
        + opt_part(actions.contains(CardListActionType::Movement), "H/L: move"@)
        + opt_part(actions.contains(CardListActionType::Creation), "n: new"@)
        + opt_part(multi, "v: select card | V: multi-select"@)
}

impl Default for CardListComponentConfig {
    /// Every action enabled, multi-selection, reordering, movement and sprint
    /// names on.
    fn default() -> (c: Self)
        ensures
            c.enabled_actions@ == all_action_types(),
            c.allow_multi_select,
            c.allow_reordering,
            c.allow_movement,
            c.show_sprint_names,
    {
        CardListComponentConfig::new()
    }
}

impl CardListComponentConfig {
    /// Every action enabled, multi-selection, reordering, movement and sprint
    /// names on.
    pub fn new() -> (c: Self)
        ensures
            c.enabled_actions@ == all_action_types(),
            c.allow_multi_select,
            c.allow_reordering,
            c.allow_movement,
            c.show_sprint_names,
    {
        let enabled_actions = vec![
            CardListActionType::Navigation,
            CardListActionType::Selection,
            CardListActionType::Editing,
            CardListActionType::Completion,
            CardListActionType::Priority,
            CardListActionType::Sprint,
            CardListActionType::Sorting,
            CardListActionType::Movement,
            CardListActionType::Creation,
            CardListActionType::MultiSelect,
        ];
        assert(enabled_actions@ =~= all_action_types());
        CardListComponentConfig {
            enabled_actions,
            allow_multi_select: true,
            allow_reordering: true,
            allow_movement: true,
            show_sprint_names: true,
        }
    }

    pub fn with_actions(self, actions: Vec<CardListActionType>) -> (c: Self)
        ensures
            c.enabled_actions@ == actions@,
            c.allow_multi_select == self.allow_multi_select,
            c.allow_reordering == self.allow_reordering,
            c.allow_movement == self.allow_movement,
            c.show_sprint_names == self.show_sprint_names,
    {
        let mut c = self;
        c.enabled_actions = actions;
        c
    }

    pub fn with_multi_select(self, allow: bool) -> (c: Self)
        ensures
            c.enabled_actions@ == self.enabled_actions@,
            c.allow_multi_select == allow,
            c.allow_reordering == self.allow_reordering,
            c.allow_movement == self.allow_movement,
            c.show_sprint_names == self.show_sprint_names,
    {
        let mut c = self;
        c.allow_multi_select = allow;
        c
    }

    pub fn with_reordering(self, allow: bool) -> (c: Self)
        ensures
            c.enabled_actions@ == self.enabled_actions@,
            c.allow_multi_select == self.allow_multi_select,
            c.allow_reordering == allow,
            c.allow_movement == self.allow_movement,
            c.show_sprint_names == self.show_sprint_names,
    {
        let mut c = self;
        c.allow_reordering = allow;
        c
    }

    pub fn with_movement(self, allow: bool) -> (c: Self)
        ensures
            c.enabled_actions@ == self.enabled_actions@,
            c.allow_multi_select == self.allow_multi_select,
            c.allow_reordering == self.allow_reordering,
            c.allow_movement == allow,
            c.show_sprint_names == self.show_sprint_names,
    {
        let mut c = self;
        c.allow_movement = allow;
        c
    }

    pub fn with_sprint_names(self, show: bool) -> (c: Self)
        ensures
            c.enabled_actions@ == self.enabled_actions@,
            c.allow_multi_select == self.allow_multi_select,
            c.allow_reordering == self.allow_reordering,
            c.allow_movement == self.allow_movement,
            c.show_sprint_names == show,
    {
        let mut c = self;
        c.show_sprint_names = show;
        c
    }

    pub fn is_action_enabled(&self, action_type: &CardListActionType) -> (r: bool)
        ensures
            r == self.enabled_actions@.contains(*action_type),
    {
        let mut i: usize = 0;
        while i < self.enabled_actions.len()
            invariant
                i <= self.enabled_actions@.len(),
                forall|k: int| 0 <= k < i ==> self.enabled_actions@[k] != *action_type,
            decreases self.enabled_actions@.len() - i,
        {
            if self.enabled_actions[i] == *action_type {
                assert(self.enabled_actions@[i as int] == *action_type);
                return true;
            }
            i = i + 1;
        }
        false
    }

    /// Key hints for the enabled actions, separated by `" | "`.
    pub fn help_text(&self) -> (r: String)
        ensures
            r@ == join(help_parts(self.enabled_actions@, self.allow_multi_select), " | "@),
    {
        let mut parts: Vec<&str> = Vec::new();
        parts.push("ESC: cancel");
        assert(str_views(parts@) =~= seq!["ESC: cancel"@]);
        let nav = self.is_action_enabled(&CardListActionType::Navigation);
        push_part(&mut parts, nav, "j/k: navigate");
        let sel = self.is_action_enabled(&CardListActionType::Selection);
        push_part(&mut parts, sel, "Enter/Space: select");
        let edit = self.is_action_enabled(&CardListActionType::Editing);
        push_part(&mut parts, edit, "e: edit");
        let done = self.is_action_enabled(&CardListActionType::Completion);
        push_part(&mut parts, done, "c: complete");
        let prio = self.is_action_enabled(&CardListActionType::Priority);
        push_part(&mut parts, prio, "p: priority");
        let sprint = self.is_action_enabled(&CardListActionType::Sprint);
        push_part(&mut parts, sprint, "s: assign sprint");
        let sort = self.is_action_enabled(&CardListActionType::Sorting);
        push_part(&mut parts, sort, "o: sort");
        let mv = self.is_action_enabled(&CardListActionType::Movement);
        push_part(&mut parts, mv, "H/L: move");
        let create = self.is_action_enabled(&CardListActionType::Creation);
        push_part(&mut parts, create, "n: new");
        push_part(&mut parts, self.allow_multi_select, "v: select card | V: multi-select");
        join_strs(&parts, " | ")
    }
}

/// Appends `part` when `cond` holds.
fn push_part<'a>(parts: &mut Vec<&'a str>, cond: bool, part: &'a str)
    ensures
        str_views(final(parts)@) == str_views(old(parts)@) + opt_part(cond, part@),
{
    if cond {
        parts.push(part);
        assert(str_views(parts@) =~= str_views(old(parts)@) + opt_part(cond, part@));
    } else {
        assert(str_views(parts@) =~= str_views(old(parts)@) + opt_part(cond, part@));
    }
}

/// A card list with the actions its configuration enables and a set of
/// multi-selected cards (each id at most once, in the order selected).
pub struct CardListComponent {
    pub card_list: CardList,
    pub config: CardListComponentConfig,
    pub multi_selected: Vec<Uuid>,
}

/// The action a key asks for, given the enabled actions and the selected
/// card. Navigation keys move the selection and ask for nothing.
pub open spec fn key_action(
    actions: Seq<CardListActionType>,
    allow_movement: bool,
    allow_multi: bool,
    selected: Option<Uuid>,
    key: KeyInput,
) -> Option<CardListAction> {
    let on = |t: CardListActionType| actions.contains(t);
    match key {
        KeyInput::Enter | KeyInput::Char(' ') => if on(CardListActionType::Selection) {
            match selected { Some(id) => Some(CardListAction::Select(id)), None => None }
        } else { None },
        KeyInput::Char('e') => if on(CardListActionType::Editing) {
            match selected { Some(id) => Some(CardListAction::Edit(id)), None => None }
        } else { None },
        KeyInput::Char('c') => if on(CardListActionType::Completion) {
            match selected { Some(id) => Some(CardListAction::Complete(id)), None => None }
        } else { None },
        KeyInput::Char('p') => if on(CardListActionType::Priority) {
            match selected { Some(id) => Some(CardListAction::TogglePriority(id)), None => None }
        } else { None },
        KeyInput::Char('s') => if on(CardListActionType::Sprint) {
            match selected { Some(id) => Some(CardListAction::AssignSprint(id)), None => None }
        } else { None },
        KeyInput::Char('S') => if on(CardListActionType::Sprint) {
            match selected { Some(id) => Some(CardListAction::ReassignSprint(id)), None => None }
        } else { None },
        KeyInput::Char('o') => if on(CardListActionType::Sorting) {
            Some(CardListAction::Sort)
        } else { None },
        KeyInput::Char('O') => if on(CardListActionType::Sorting) {
            Some(CardListAction::OrderCards)
        } else { None },
        KeyInput::Char('H') => if on(CardListActionType::Movement) && allow_movement {
            match selected { Some(id) => Some(CardListAction::MoveColumn(id, false)), None => None }
        } else { None },
        KeyInput::Char('L') => if on(CardListActionType::Movement) && allow_movement {
            match selected { Some(id) => Some(CardListAction::MoveColumn(id, true)), None => None }
        } else { None },
        KeyInput::Char('n') => if on(CardListActionType::Creation) {
            Some(CardListAction::Create)
        } else { None },
        KeyInput::Char('v') => if on(CardListActionType::MultiSelect) {
            match selected { Some(id) => Some(CardListAction::ToggleMultiSelect(id)), None => None }
        } else { None },
        KeyInput::Char('V') => if on(CardListActionType::MultiSelect) && allow_multi {
            Some(CardListAction::SelectAll)
        } else { None },
        _ => None,
    }
}

/// Keys that move the selection down (`j`, Down) and up (`k`, Up).
pub open spec fn is_down_key(key: KeyInput) -> bool {
    key == KeyInput::Char('j') || key == KeyInput::Down
}

pub open spec fn is_up_key(key: KeyInput) -> bool {
    key == KeyInput::Char('k') || key == KeyInput::Up
}

/// `acc` followed by the items of `items` it does not hold yet, in order
/// (each added once).
pub open spec fn add_missing(acc: Seq<Uuid>, items: Seq<Uuid>) -> Seq<Uuid>
    decreases items.len(),
{
    if items.len() == 0 {
        acc
    } else {
        let a = add_missing(acc, items.drop_last());
        if a.contains(items.last()) {
            a
        } else {
            a.push(items.last())
        }
    }
}

impl CardListComponent {
    pub fn new(list_id: CardListId, config: CardListComponentConfig) -> (c: Self)
        ensures
            c.card_list.id == list_id,
            c.card_list.cards@.len() == 0,
            c.card_list.selection.selected is None,
            c.card_list.scroll_offset == 0,
            c.config == config,
            c.multi_selected@.len() == 0,
    {
        CardListComponent { card_list: CardList::new(list_id), config, multi_selected: Vec::new() }
    }

    pub fn with_config(list_id: CardListId, config: CardListComponentConfig) -> (c: Self)
        ensures
            c.card_list.id == list_id,
            c.card_list.cards@.len() == 0,
            c.card_list.selection.selected is None,
            c.card_list.scroll_offset == 0,
            c.config == config,
            c.multi_selected@.len() == 0,
    {
        Self::new(list_id, config)
    }

    /// Replaces the cards of the list (see `CardList::update_cards`).
    pub fn update_cards(&mut self, cards: Vec<Uuid>)
        ensures
            final(self).card_list.cards@ == cards@,
            final(self).card_list.id == old(self).card_list.id,
            final(self).card_list.scroll_offset == old(self).card_list.scroll_offset,
            crate::card_list::selection_after_update(
                old(self).card_list.cards@,
                old(self).card_list.selection.selected,
                cards@,
                final(self).card_list.selection.selected,
            ),
            final(self).config == old(self).config,
            final(self).multi_selected@ == old(self).multi_selected@,
    {
        self.card_list.update_cards(cards);
    }

    pub fn get_selected_card_id(&self) -> (r: Option<Uuid>)
        ensures
            r == selected_id(self.card_list.cards@, self.card_list.selection.selected),
    {
        self.card_list.get_selected_card_id()
    }

    pub fn get_multi_selected(&self) -> (r: Vec<Uuid>)
        ensures
            r@ == self.multi_selected@,
    {
        let mut r: Vec<Uuid> = Vec::new();
        let mut i: usize = 0;
        while i < self.multi_selected.len()
            invariant
                i <= self.multi_selected@.len(),
                r@ == self.multi_selected@.take(i as int),
            decreases self.multi_selected@.len() - i,
        {
            r.push(self.multi_selected[i]);
            i = i + 1;
            assert(r@ =~= self.multi_selected@.take(i as int));
        }
        assert(self.multi_selected@.take(i as int) =~= self.multi_selected@);
        r
    }

    /// Adds `card_id` to the multi-selection or removes it when present,
    /// when multi-selection is allowed.
    pub fn toggle_multi_select(&mut self, card_id: Uuid)
        ensures
            !old(self).config.allow_multi_select ==> final(self).multi_selected@ == old(
                self,
            ).multi_selected@,
            old(self).config.allow_multi_select && old(self).multi_selected@.contains(card_id)
                ==> exists|i: usize|
                first_position(old(self).multi_selected@, card_id, Some(i))
                    && final(self).multi_selected@ == old(self).multi_selected@.remove(i as int),
            old(self).config.allow_multi_select && !old(self).multi_selected@.contains(card_id)
                ==> final(self).multi_selected@ == old(self).multi_selected@.push(card_id),
            final(self).card_list.cards@ == old(self).card_list.cards@,
            final(self).card_list.selection == old(self).card_list.selection,
            final(self).card_list.scroll_offset == old(self).card_list.scroll_offset,
            final(self).card_list.id == old(self).card_list.id,
            final(self).config == old(self).config,
    {
        if self.config.allow_multi_select {
            let mut i: usize = 0;
            while i < self.multi_selected.len()
                invariant
                    i <= self.multi_selected@.len(),
                    forall|k: int| 0 <= k < i ==> self.multi_selected@[k] != card_id,
                    self.multi_selected@ == old(self).multi_selected@,
                    self.card_list.cards@ == old(self).card_list.cards@,
                    self.card_list.selection == old(self).card_list.selection,
                    self.card_list.scroll_offset == old(self).card_list.scroll_offset,
                    self.card_list.id == old(self).card_list.id,
                    self.config == old(self).config,
                    old(self).config.allow_multi_select,
                decreases self.multi_selected@.len() - i,
            {
                if same_id(&self.multi_selected[i], &card_id) {
                    self.multi_selected.remove(i);
                    assert(old(self).config.allow_multi_select);
                    assert(first_position(old(self).multi_selected@, card_id, Some(i)));
                    return ;
                }
                i = i + 1;
            }
            self.multi_selected.push(card_id);
        }
    }

    pub fn clear_multi_select(&mut self)
        ensures
            final(self).multi_selected@.len() == 0,
            final(self).card_list.cards@ == old(self).card_list.cards@,
            final(self).card_list.selection == old(self).card_list.selection,
            final(self).card_list.scroll_offset == old(self).card_list.scroll_offset,
            final(self).card_list.id == old(self).card_list.id,
            final(self).config == old(self).config,
    {
        self.multi_selected.clear();
    }

    /// Adds every card of the list not yet multi-selected, in list order,
    /// when multi-selection is allowed.
    pub fn select_all(&mut self)
        ensures
            !old(self).config.allow_multi_select ==> final(self).multi_selected@ == old(
                self,
            ).multi_selected@,
            old(self).config.allow_multi_select ==> final(self).multi_selected@ == add_missing(
                old(self).multi_selected@,
                old(self).card_list.cards@,
            ),
            old(self).config.allow_multi_select ==> final(self).multi_selected@.to_set()
                == old(self).multi_selected@.to_set().union(old(self).card_list.cards@.to_set()),
            old(self).config.allow_multi_select && old(self).multi_selected@.no_duplicates()
                ==> final(self).multi_selected@.no_duplicates(),
            final(self).card_list.cards@ == old(self).card_list.cards@,
            final(self).card_list.selection == old(self).card_list.selection,
            final(self).card_list.scroll_offset == old(self).card_list.scroll_offset,
            final(self).card_list.id == old(self).card_list.id,
            final(self).config == old(self).config,
    {
        if self.config.allow_multi_select {
            let mut i: usize = 0;
            while i < self.card_list.cards.len()
                invariant
                    i <= self.card_list.cards@.len(),
                    self.card_list.cards@ == old(self).card_list.cards@,
                    self.card_list.selection == old(self).card_list.selection,
                    self.card_list.scroll_offset == old(self).card_list.scroll_offset,
                    self.card_list.id == old(self).card_list.id,
                    self.config == old(self).config,
                    self.multi_selected@.to_set() == old(self).multi_selected@.to_set().union(
                        self.card_list.cards@.take(i as int).to_set(),
                    ),
                    self.multi_selected@ == add_missing(
                        old(self).multi_selected@,
                        self.card_list.cards@.take(i as int),
                    ),
                    old(self).multi_selected@.no_duplicates()
                        ==> self.multi_selected@.no_duplicates(),
                decreases self.card_list.cards@.len() - i,
            {
                let id = self.card_list.cards[i];
                let mut present = false;
                let mut j: usize = 0;
                while j < self.multi_selected.len()
                    invariant
                        j <= self.multi_selected@.len(),
                        !present ==> forall|k: int| 0 <= k < j ==> self.multi_selected@[k] != id,
                        present ==> self.multi_selected@.contains(id),
                    decreases self.multi_selected@.len() - j,
                {
                    if same_id(&self.multi_selected[j], &id) {
                        present = true;
                    }
                    j = j + 1;
                }
                let ghost before = self.multi_selected@;
                if !present {
                    self.multi_selected.push(id);
                }
                proof {
                    let cards = self.card_list.cards@;
                    assert(cards.take(i + 1) =~= cards.take(i as int).push(id));
                    assert(cards.take(i + 1).drop_last() =~= cards.take(i as int));
                    if !present {
                        assert(!before.contains(id));
                    }
                    cards.take(i as int).lemma_push_to_set_commute(id);
                    if !present {
                        before.lemma_push_to_set_commute(id);
                    } else {
                        assert(before.to_set().contains(id));
                    }
                    assert(self.multi_selected@.to_set() =~= old(self).multi_selected@.to_set().union(
                        cards.take(i + 1).to_set(),
                    ));
                }
                i = i + 1;
            }
            assert(self.card_list.cards@.take(i as int) =~= self.card_list.cards@);
        }
    }

    pub fn navigate_up(&mut self, viewport_height: usize) -> (r: bool)
        ensures
            r == (old(self).card_list.cards@.len() == 0 || old(self).card_list.selection.selected is None
                || old(self).card_list.selection.selected == Some(0usize)),
            final(self).card_list.cards@ == old(self).card_list.cards@,
            final(self).config == old(self).config,
            final(self).multi_selected@ == old(self).multi_selected@,
            (final(self).card_list.selection.selected, final(self).card_list.scroll_offset as int) == after_up(
                old(self).card_list.cards@.len() as int,
                old(self).card_list.scroll_offset as int,
                viewport_height as int,
                old(self).card_list.selection.selected,
            ),
    {
        self.card_list.navigate_up(viewport_height)
    }

    pub fn navigate_down(&mut self, viewport_height: usize) -> (r: bool)
        ensures
            r == (old(self).card_list.cards@.len() == 0 || old(self).card_list.selection.selected
                == Some((old(self).card_list.cards@.len() - 1) as usize)),
            final(self).card_list.cards@ == old(self).card_list.cards@,
            final(self).config == old(self).config,
            final(self).multi_selected@ == old(self).multi_selected@,
            (final(self).card_list.selection.selected, final(self).card_list.scroll_offset as int) == after_down(
                old(self).card_list.cards@.len() as int,
                old(self).card_list.scroll_offset as int,
                viewport_height as int,
                old(self).card_list.selection.selected,
            ),
    {
        self.card_list.navigate_down(viewport_height)
    }

    pub fn is_empty(&self) -> (r: bool)
        ensures
            r == (self.card_list.cards@.len() == 0),
    {
        self.card_list.is_empty()
    }

    pub fn len(&self) -> (r: usize)
        ensures
            r == self.card_list.cards@.len(),
    {
        self.card_list.len()
    }

    pub fn get_selected_index(&self) -> (r: Option<usize>)
        ensures
            r == self.card_list.selection.selected,
    {
        self.card_list.get_selected_index()
    }

    pub fn set_selected_index(&mut self, index: Option<usize>)
        ensures
            final(self).card_list.selection.selected == (match index {
                Some(i) => if i < old(self).card_list.cards@.len() {
                    Some(i)
                } else {
                    None
                },
                None => None,
            }),
            final(self).card_list.cards@ == old(self).card_list.cards@,
            final(self).card_list.scroll_offset == old(self).card_list.scroll_offset,
            final(self).config == old(self).config,
            final(self).multi_selected@ == old(self).multi_selected@,
    {
        self.card_list.set_selected_index(index);
    }

    pub fn help_text(&self) -> (r: String)
        ensures
            r@ == join(
                help_parts(self.config.enabled_actions@, self.config.allow_multi_select),
                " | "@,
            ),
    {
        self.config.help_text()
    }

    /// Reacts to a key: `j`/Down and `k`/Up move the selection (when
    /// navigation is enabled) in a viewport of `viewport_height` lines; other
    /// keys ask for the action that `key_action` names for the selected card.
    pub fn handle_key(&mut self, key: KeyInput, viewport_height: usize) -> (r: Option<
        CardListAction,
    >)
        ensures
            r == (if is_down_key(key) || is_up_key(key) {
                None
            } else {
                key_action(
                    old(self).config.enabled_actions@,
                    old(self).config.allow_movement,
                    old(self).config.allow_multi_select,
                    selected_id(old(self).card_list.cards@, old(self).card_list.selection.selected),
                    key,
                )
            }),
            final(self).card_list.cards@ == old(self).card_list.cards@,
            final(self).config == old(self).config,
            final(self).multi_selected@ == old(self).multi_selected@,
            !((is_down_key(key) || is_up_key(key)) && old(self).config.enabled_actions@.contains(
                CardListActionType::Navigation,
            )) ==> final(self).card_list.selection == old(self).card_list.selection
                && final(self).card_list.scroll_offset == old(self).card_list.scroll_offset,
            is_down_key(key) && old(self).config.enabled_actions@.contains(CardListActionType::Navigation)
                ==> (final(self).card_list.selection.selected, final(self).card_list.scroll_offset as int)
                == after_down(
                old(self).card_list.cards@.len() as int,
                old(self).card_list.scroll_offset as int,
                viewport_height as int,
                old(self).card_list.selection.selected,
            ),
            is_up_key(key) && old(self).config.enabled_actions@.contains(CardListActionType::Navigation)
                ==> (final(self).card_list.selection.selected, final(self).card_list.scroll_offset as int)
                == after_up(
                old(self).card_list.cards@.len() as int,
                old(self).card_list.scroll_offset as int,
                viewport_height as int,
                old(self).card_list.selection.selected,
            ),
    {
        let down = match key {
            KeyInput::Char(c) => c == 'j',
            KeyInput::Down => true,
            _ => false,
        };
        let up = match key {
            KeyInput::Char(c) => c == 'k',
            KeyInput::Up => true,
            _ => false,
        };
        if down {
            if self.config.is_action_enabled(&CardListActionType::Navigation) {
                self.navigate_down(viewport_height);
            }
            return None;
        }
        if up {
            if self.config.is_action_enabled(&CardListActionType::Navigation) {
                self.navigate_up(viewport_height);
            }
            return None;
        }
        let selected = self.get_selected_card_id();
        match key {
            KeyInput::Enter => self.with_selected(CardListActionType::Selection, selected, 0),
            KeyInput::Char(c) => {
                if c == ' ' {
                    self.with_selected(CardListActionType::Selection, selected, 0)
                } else if c == 'e' {
                    self.with_selected(CardListActionType::Editing, selected, 1)
                } else if c == 'c' {
                    self.with_selected(CardListActionType::Completion, selected, 2)
                } else if c == 'p' {
                    self.with_selected(CardListActionType::Priority, selected, 3)
                } else if c == 's' {
                    self.with_selected(CardListActionType::Sprint, selected, 4)
                } else if c == 'S' {
                    self.with_selected(CardListActionType::Sprint, selected, 5)
                } else if c == 'o' {
                    if self.config.is_action_enabled(&CardListActionType::Sorting) {
                        Some(CardListAction::Sort)
                    } else {
                        None
                    }
                } else if c == 'O' {
                    if self.config.is_action_enabled(&CardListActionType::Sorting) {
                        Some(CardListAction::OrderCards)
                    } else {
                        None
                    }
                } else if c == 'H' || c == 'L' {
                    if self.config.is_action_enabled(&CardListActionType::Movement)
                        && self.config.allow_movement {
                        match selected {
                            Some(id) => Some(CardListAction::MoveColumn(id, c == 'L')),
                            None => None,
                        }
                    } else {
                        None
                    }
                } else if c == 'n' {
                    if self.config.is_action_enabled(&CardListActionType::Creation) {
                        Some(CardListAction::Create)
                    } else {
                        None
                    }
                } else if c == 'v' {
                    self.with_selected(CardListActionType::MultiSelect, selected, 6)
                } else if c == 'V' {
                    if self.config.is_action_enabled(&CardListActionType::MultiSelect)
                        && self.config.allow_multi_select {
                        Some(CardListAction::SelectAll)
                    } else {
                        None
                    }
                } else {
                    None
                }
            },
            _ => None,
        }
    }

    /// The action numbered `which` on the selected card, when `group` is
    /// enabled and a card is selected.
    fn with_selected(&self, group: CardListActionType, selected: Option<Uuid>, which: u8) -> (r:
        Option<CardListAction>)
        requires
            which <= 6,
        ensures
            r == (if self.config.enabled_actions@.contains(group) {
                match selected {
                    Some(id) => Some(action_on(which, id)),
                    None => None,
                }
            } else {
                None
            }),
    {
        if self.config.is_action_enabled(&group) {
            match selected {
                Some(id) => Some(
                    if which == 0 {
                        CardListAction::Select(id)
                    } else if which == 1 {
                        CardListAction::Edit(id)
                    } else if which == 2 {
                        CardListAction::Complete(id)
                    } else if which == 3 {
                        CardListAction::TogglePriority(id)
                    } else if which == 4 {
                        CardListAction::AssignSprint(id)
                    } else if which == 5 {
                        CardListAction::ReassignSprint(id)
                    } else {
                        CardListAction::ToggleMultiSelect(id)
                    },
                ),
                None => None,
            }
        } else {
            None
        }
    }
}

pub open spec fn action_on(which: u8, id: Uuid) -> CardListAction {
    if which == 0 {
        CardListAction::Select(id)
    } else if which == 1 {
        CardListAction::Edit(id)
    } else if which == 2 {
        CardListAction::Complete(id)
    } else if which == 3 {
        CardListAction::TogglePriority(id)
    } else if which == 4 {
        CardListAction::AssignSprint(id)
    } else if which == 5 {
        CardListAction::ReassignSprint(id)
    } else {
        CardListAction::ToggleMultiSelect(id)
    }
}

} // verus!

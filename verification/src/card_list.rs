use vstd::prelude::*;
use uuid::Uuid;
use crate::ids::same_id;
use crate::selection::{SelectionState, spec_next, spec_prev};

verus! {

/// Which list of cards a `CardList` shows.
#[derive(Debug, Clone, Copy, PartialEq, Eq, Hash)]
pub enum CardListId {
    All,
    Column(Uuid),
}

/// What a card list shows for one viewport position. Indicator lines for
/// cards above and below take room from the cards themselves.
#[derive(Debug, Clone)]
pub struct CardListRenderInfo {
    pub visible_card_indices: Vec<usize>,
    pub show_above_indicator: bool,
    pub cards_above_count: usize,
    pub show_below_indicator: bool,
    pub cards_below_count: usize,
}

struct ViewportInfo {
    has_cards_above: bool,
    has_cards_below: bool,
    cards_to_show: usize,
}

/// A scrollable list of card ids with a selected row.
pub struct CardList {
    pub id: CardListId,
    pub cards: Vec<Uuid>,
    pub selection: SelectionState,
    pub scroll_offset: usize,
}

pub open spec fn sat_sub(a: int, b: int) -> int {
    if a > b { a - b } else { 0 }
}

pub open spec fn min_int(a: int, b: int) -> int {
    if a < b { a } else { b }
}

pub open spec fn max_int(a: int, b: int) -> int {
    if a > b { a } else { b }
}

/// An indicator line is shown above the cards when the list is scrolled.
pub open spec fn shows_above(off: int) -> bool {
    off > 0
}

/// An indicator line is shown below when cards remain past the lines left
/// after the upper indicator.
pub open spec fn shows_below(total: int, off: int, height: int) -> bool {
    off + sat_sub(height, if shows_above(off) { 1 } else { 0 }) < total
}

/// Lines left for cards once the indicators are drawn.
pub open spec fn card_lines(total: int, off: int, height: int) -> int {
    sat_sub(
        height,
        (if shows_above(off) { 1int } else { 0int }) + (if shows_below(total, off, height) {
            1int
        } else {
            0int
        }),
    )
}

/// Number of cards shown from `off`.
pub open spec fn shown_count(total: int, off: int, height: int) -> int {
    if off >= total {
        0
    } else {
        min_int(card_lines(total, off, height), total - off)
    }
}

/// Index of the last row of the viewport (equal to `off` when no card fits).
pub open spec fn last_shown(total: int, off: int, height: int) -> int {
    off + sat_sub(shown_count(total, off, height), 1)
}

/// Row `s` lies in the viewport and names a card.
pub open spec fn row_shown(total: int, off: int, height: int, s: int) -> bool {
    off <= s <= last_shown(total, off, height) && s < total && shown_count(total, off, height) > 0
}

/// Smallest scroll position from `off` on whose viewport reaches row `target`.
pub open spec fn scroll_until_shown(total: int, off: int, height: int, target: int) -> int
    decreases target - off,
{
    if off < target && target > last_shown(total, off, height) && target < total {
        scroll_until_shown(total, off + 1, height, target)
    } else {
        off
    }
}

/// Selection and scroll position after a step down, before the selection
/// is pulled into the viewport.
pub open spec fn down_move(total: int, off: int, height: int, sel: Option<usize>) -> (
    Option<usize>,
    int,
) {
    let cur: int = match sel {
        Some(i) => i as int,
        None => 0,
    };
    let last = last_shown(total, off, height);
    if sel == Some((total - 1) as usize) {
        (sel, off)
    } else if cur == last && cur < total - 1 {
        (Some((cur + 1) as usize), scroll_until_shown(total, off + 1, height, cur + 1))
    } else if cur < last {
        (spec_next(sel, total as usize), off)
    } else {
        (sel, off)
    }
}

/// Selection and scroll position after a step up, before the selection is
/// pulled into the viewport.
pub open spec fn up_move(off: int, sel: Option<usize>) -> (Option<usize>, int) {
    match sel {
        Some(s) => if s == 0 {
            (sel, off)
        } else if s == off && off > 0 {
            (spec_prev(sel), off - 1)
        } else if s > off {
            (spec_prev(sel), off)
        } else {
            (sel, off)
        },
        None => (sel, off),
    }
}

/// The selection moved into the viewport and into the list.
pub open spec fn clamp_to_shown(total: int, off: int, height: int, sel: Option<usize>) -> Option<
    usize,
> {
    match sel {
        Some(s) => {
            let last = off + sat_sub(card_lines(total, off, height), 1);
            Some(min_int(max_int(s as int, off), min_int(last, total - 1)) as usize)
        },
        None => None,
    }
}

/// Selection and scroll position after `navigate_down` on a list of
/// `total` cards shown `height` lines high.
pub open spec fn after_down(total: int, off: int, height: int, sel: Option<usize>) -> (Option<usize>, int) {
    if total == 0 {
        (sel, off)
    } else {
        let (s, o) = down_move(total, off, height, sel);
        (clamp_to_shown(total, o, height, s), o)
    }
}

/// Selection and scroll position after `navigate_up` on a list of `total`
/// cards shown `height` lines high.
pub open spec fn after_up(total: int, off: int, height: int, sel: Option<usize>) -> (Option<usize>, int) {
    if total == 0 {
        (sel, off)
    } else {
        let (s, o) = up_move(off, sel);
        (clamp_to_shown(total, o, height, s), o)
    }
}

/// Replacing the cards of a list keeps a card selected: a list that had a
/// selection still has one inside the new cards when there are any; the
/// card that was selected stays selected when it is still there, and the
/// first card is selected when it is gone; a list with no selection keeps
/// none.
pub proof fn lemma_update_keeps_a_selection(
    old_cards: Seq<Uuid>,
    old_sel: Option<usize>,
    cards: Seq<Uuid>,
    new_sel: Option<usize>,
)
    requires
        selection_after_update(old_cards, old_sel, cards, new_sel),
        cards.len() <= usize::MAX,
    ensures
        old_sel is Some && cards.len() > 0 ==> (new_sel matches Some(i) && i < cards.len()),
        old_sel is None ==> new_sel is None,
        selected_id(old_cards, old_sel) matches Some(id) ==> (if cards.contains(id) {
            selected_id(cards, new_sel) == Some(id)
        } else if cards.len() > 0 {
            new_sel == Some(0usize)
        } else {
            new_sel is None
        }),
{
}

/// Position of the first occurrence of `id` in `cards`, if any.
pub open spec fn first_position(cards: Seq<Uuid>, id: Uuid, r: Option<usize>) -> bool {
    match r {
        Some(i) => i < cards.len() && cards[i as int] == id && forall|k: int|
            0 <= k < i ==> cards[k] != id,
        None => !cards.contains(id),
    }
}

/// Card id under a selection.
pub open spec fn selected_id(cards: Seq<Uuid>, sel: Option<usize>) -> Option<Uuid> {
    match sel {
        Some(i) => if i < cards.len() {
            Some(cards[i as int])
        } else {
            None
        },
        None => None,
    }
}

/// Selection after the cards of a list are replaced: the previously selected
/// card stays selected where it still is; otherwise the first card is
/// selected. With no card selected before, a selection index is pulled back
/// into the new list.
pub open spec fn selection_after_update(
    old_cards: Seq<Uuid>,
    old_sel: Option<usize>,
    cards: Seq<Uuid>,
    new_sel: Option<usize>,
) -> bool {
    match selected_id(old_cards, old_sel) {
        Some(id) => if cards.contains(id) {
            first_position(cards, id, new_sel)
        } else if cards.len() > 0 {
            new_sel == Some(0usize)
        } else {
            new_sel is None
        },
        None => new_sel == (match old_sel {
            Some(i) => if cards.len() > 0 {
                Some(if i < cards.len() { i } else { (cards.len() - 1) as usize })
            } else {
                old_sel
            },
            None => None,
        }),
    }
}

/// `info` describes a list of `total` cards at offset `off` in `height` lines.
pub open spec fn render_info_matches(info: CardListRenderInfo, total: int, off: int, height: int) -> bool {
    if total == 0 {
        &&& info.visible_card_indices@.len() == 0
        &&& !info.show_above_indicator
        &&& info.cards_above_count == 0
        &&& !info.show_below_indicator
        &&& info.cards_below_count == 0
    } else {
        let n = shown_count(total, off, height);
        &&& info.visible_card_indices@.len() == n
        &&& forall|i: int| 0 <= i < n ==> #[trigger] info.visible_card_indices@[i] == off + i
        &&& info.show_above_indicator == shows_above(off)
        &&& info.cards_above_count == off
        &&& info.show_below_indicator == shows_below(total, off, height)
        &&& info.cards_below_count == sat_sub(total - off, n)
    }
}

/// With at least one line for cards, a viewport that starts inside the list
/// shows at least one card.
proof fn lemma_some_card_shown(total: int, off: int, height: int)
    requires
        height >= 3,
        0 <= off < total,
    ensures
        card_lines(total, off, height) >= 1,
        shown_count(total, off, height) >= 1,
        last_shown(total, off, height) <= off + card_lines(total, off, height) - 1,
        last_shown(total, off, height) <= total - 1,
{
}

/// Scrolling down from `off` toward `target` stops at a position at most
/// `target` whose viewport reaches `target`.
proof fn lemma_scroll_until_shown(total: int, off: int, height: int, target: int)
    requires
        height >= 3,
        0 <= off <= target < total,
    ensures
        off <= scroll_until_shown(total, off, height, target) <= target,
        target <= last_shown(total, scroll_until_shown(total, off, height, target), height),
    decreases target - off,
{
    lemma_some_card_shown(total, off, height);
    if off < target && target > last_shown(total, off, height) && target < total {
        lemma_scroll_until_shown(total, off + 1, height, target);
    }
}

/// Navigation never leaves a selection outside a non-empty list.
pub proof fn lemma_clamped_selection_in_list(total: int, off: int, height: int, s: usize)
    requires
        total > 0,
        0 <= off,
    ensures
        clamp_to_shown(total, off, height, Some(s)) matches Some(i) && 0 <= i < total,
{
}

/// Moving down from a shown card that is not the last one selects the next
/// card and keeps it shown, whenever the viewport has at least three lines
/// (room for both indicators and a card).
pub proof fn lemma_down_moves_one_card(total: int, off: int, height: int, s: usize)
    requires
        height >= 3,
        0 <= off,
        row_shown(total, off, height, s as int),
        s + 1 < total <= usize::MAX,
    ensures
        ({
            let (sel, o) = down_move(total, off, height, Some(s));
            &&& clamp_to_shown(total, o, height, sel) == Some((s + 1) as usize)
            &&& row_shown(total, o, height, s + 1)
        }),
{
    lemma_some_card_shown(total, off, height);
    let last = last_shown(total, off, height);
    if s as int == last {
        lemma_scroll_until_shown(total, off + 1, height, s + 1);
        let o = scroll_until_shown(total, off + 1, height, s + 1);
        lemma_some_card_shown(total, o, height);
    }
}

/// Selection and scroll position after `k` calls of `navigate_down`.
pub open spec fn downs(total: int, off: int, height: int, sel: Option<usize>, k: nat) -> (Option<usize>, int)
    decreases k,
{
    if k == 0 {
        (sel, off)
    } else {
        let (s, o) = after_down(total, off, height, sel);
        downs(total, o, height, s, (k - 1) as nat)
    }
}

/// Pressing down again and again walks the list card by card: from a shown
/// card `s`, `k` presses select card `s + k` (the last card once that is
/// passed, where the selection then stays), and it is always shown. So the
/// selection never moves back, and a list of `n` cards is walked to its end
/// in `n - 1` presses from the first card. The viewport needs at least three
/// lines.
pub proof fn lemma_repeated_down_walks_the_list(total: int, off: int, height: int, s: usize, k: nat)
    requires
        height >= 3,
        0 <= off,
        row_shown(total, off, height, s as int),
        total <= usize::MAX,
    ensures
        ({
            let (sel, o) = downs(total, off, height, Some(s), k);
            let want: int = if s + k < total - 1 { s + k } else { total - 1 };
            &&& sel == Some(want as usize)
            &&& row_shown(total, o, height, want)
        }),
    decreases k,
{
    if k > 0 {
        lemma_some_card_shown(total, off, height);
        if s + 1 < total {
            lemma_down_moves_one_card(total, off, height, s);
            let (sel1, o1) = after_down(total, off, height, Some(s));
            lemma_repeated_down_walks_the_list(total, o1, height, (s + 1) as usize, (k - 1) as nat);
        } else {
            let (sel1, o1) = after_down(total, off, height, Some(s));
            assert(sel1 == Some(s) && o1 == off);
            lemma_repeated_down_walks_the_list(total, off, height, s, (k - 1) as nat);
        }
    }
}

/// Moving up from a shown card other than the first selects the previous
/// card and keeps it shown, whenever the viewport has at least three lines.
pub proof fn lemma_up_moves_one_card(total: int, off: int, height: int, s: usize)
    requires
        height >= 3,
        0 <= off,
        row_shown(total, off, height, s as int),
        s > 0,
    ensures
        ({
            let (sel, o) = up_move(off, Some(s));
            &&& clamp_to_shown(total, o, height, sel) == Some((s - 1) as usize)
            &&& row_shown(total, o, height, s - 1)
        }),
{
    lemma_some_card_shown(total, off, height);
    if s as int == off && off > 0 {
        lemma_some_card_shown(total, off - 1, height);
    }
}

impl CardList {
    /// An empty list with nothing selected.
    pub fn new(id: CardListId) -> (l: Self)
        ensures
            l.id == id,
            l.cards@.len() == 0,
            l.selection.selected is None,
            l.scroll_offset == 0,
    {
        CardList { id, cards: Vec::new(), selection: SelectionState::new(), scroll_offset: 0 }
    }

    /// A list holding `cards`, nothing selected.
    pub fn with_cards(id: CardListId, cards: Vec<Uuid>) -> (l: Self)
        ensures
            l.id == id,
            l.cards@ == cards@,
            l.selection.selected is None,
            l.scroll_offset == 0,
    {
        let mut list = Self::new(id);
        list.update_cards(cards);
        list
    }

    /// Replaces the cards, keeping the selected card selected when it is
    /// still in the list.
    pub fn update_cards(&mut self, cards: Vec<Uuid>)
        ensures
            final(self).cards@ == cards@,
            final(self).id == old(self).id,
            final(self).scroll_offset == old(self).scroll_offset,
            selection_after_update(
                old(self).cards@,
                old(self).selection.selected,
                cards@,
                final(self).selection.selected,
            ),
            old(self).selection.selected is Some && cards@.len() > 0 ==> (final(self).selection.selected matches Some(
                i,
            ) && i < cards@.len()),
            old(self).selection.selected is None ==> final(self).selection.selected is None,
            selected_id(old(self).cards@, old(self).selection.selected) matches Some(id) ==> (if cards@.contains(id) {
                selected_id(cards@, final(self).selection.selected) == Some(id)
            } else if cards@.len() > 0 {
                final(self).selection.selected == Some(0usize)
            } else {
                final(self).selection.selected is None
            }),
    {
        let current_card = self.get_selected_card_id();
        self.cards = cards;
        match current_card {
            Some(card_id) => {
                if !self.select_card(card_id) {
                    if self.cards.len() > 0 {
                        self.selection.set(Some(0));
                    } else {
                        self.selection.clear();
                    }
                }
            },
            None => {
                if self.cards.len() > 0 {
                    match self.selection.get() {
                        Some(i) => {
                            let last = self.cards.len() - 1;
                            self.selection.set(Some(if i < last { i } else { last }));
                        },
                        None => {},
                    }
                }
            },
        }
    }

    /// Id of the selected card, when the selection names a card.
    pub fn get_selected_card_id(&self) -> (r: Option<Uuid>)
        ensures
            r == selected_id(self.cards@, self.selection.selected),
    {
        match self.selection.get() {
            Some(idx) => {
                if idx < self.cards.len() {
                    Some(self.cards[idx])
                } else {
                    None
                }
            },
            None => None,
        }
    }

    /// Selects the first occurrence of `card_id`; returns whether it was found
    /// (the selection is left alone when it was not).
    pub fn select_card(&mut self, card_id: Uuid) -> (found: bool)
        ensures
            found == old(self).cards@.contains(card_id),
            found ==> first_position(old(self).cards@, card_id, final(self).selection.selected),
            !found ==> final(self).selection == old(self).selection,
            final(self).cards@ == old(self).cards@,
            final(self).id == old(self).id,
            final(self).scroll_offset == old(self).scroll_offset,
    {
        let mut i: usize = 0;
        while i < self.cards.len()
            invariant
                i <= self.cards@.len(),
                forall|k: int| 0 <= k < i ==> self.cards@[k] != card_id,
                self.cards@ == old(self).cards@,
                self.selection == old(self).selection,
                self.id == old(self).id,
                self.scroll_offset == old(self).scroll_offset,
            decreases self.cards@.len() - i,
        {
            if same_id(&self.cards[i], &card_id) {
                self.selection.set(Some(i));
                return true;
            }
            i = i + 1;
        }
        false
    }

    fn calculate_viewport_info(&self, viewport_height: usize) -> (info: ViewportInfo)
        ensures
            info.has_cards_above == shows_above(self.scroll_offset as int),
            info.has_cards_below == shows_below(
                self.cards@.len() as int,
                self.scroll_offset as int,
                viewport_height as int,
            ),
            info.cards_to_show == card_lines(
                self.cards@.len() as int,
                self.scroll_offset as int,
                viewport_height as int,
            ),
    {
        let total = self.cards.len();
        let off = self.scroll_offset;
        let above = off > 0;
        let up: usize = if above { 1 } else { 0 };
        let available = if viewport_height > up { viewport_height - up } else { 0 };
        let below = off < total && available < total - off;
        let down: usize = if below { 1 } else { 0 };
        let cards_to_show = if viewport_height > up + down { viewport_height - up - down } else { 0 };
        ViewportInfo { has_cards_above: above, has_cards_below: below, cards_to_show }
    }

    /// Index of the last row of the viewport.
    fn last_shown_index(&self, viewport_height: usize) -> (r: usize)
        ensures
            r == last_shown(
                self.cards@.len() as int,
                self.scroll_offset as int,
                viewport_height as int,
            ),
    {
        let total = self.cards.len();
        let off = self.scroll_offset;
        let info = self.calculate_viewport_info(viewport_height);
        let count = if off >= total {
            0
        } else if info.cards_to_show < total - off {
            info.cards_to_show
        } else {
            total - off
        };
        if count > 0 { off + (count - 1) } else { off }
    }

    /// Moves the selection one card up, scrolling by one line when it sits on
    /// the first row of the viewport, then keeps the selection inside the
    /// viewport. Returns whether the selection was at the top already (or the
    /// list is empty, or nothing was selected).
    pub fn navigate_up(&mut self, viewport_height: usize) -> (was_at_top: bool)
        ensures
            was_at_top == (old(self).cards@.len() == 0 || old(self).selection.selected is None
                || old(self).selection.selected == Some(0usize)),
            final(self).cards@ == old(self).cards@,
            final(self).id == old(self).id,
            old(self).cards@.len() == 0 ==> final(self).selection == old(self).selection
                && final(self).scroll_offset == old(self).scroll_offset,
            old(self).cards@.len() > 0 ==> {
                let total = old(self).cards@.len() as int;
                let (sel, off) = up_move(
                    old(self).scroll_offset as int,
                    old(self).selection.selected,
                );
                &&& final(self).scroll_offset == off
                &&& final(self).selection.selected == clamp_to_shown(
                    total,
                    off,
                    viewport_height as int,
                    sel,
                )
            },
            (final(self).selection.selected, final(self).scroll_offset as int) == after_up(
                old(self).cards@.len() as int,
                old(self).scroll_offset as int,
                viewport_height as int,
                old(self).selection.selected,
            ),
    {
        if self.cards.len() == 0 {
            return true;
        }
        let sel = self.selection.get();
        let was_at_top = match sel {
            Some(i) => i == 0,
            None => true,
        };
        if !was_at_top {
            let current_idx = match sel {
                Some(i) => i,
                None => 0,
            };
            let first_visible_idx = self.scroll_offset;
            if current_idx == first_visible_idx && self.scroll_offset > 0 {
                self.scroll_offset = self.scroll_offset - 1;
                self.selection.prev();
            } else if current_idx > first_visible_idx {
                self.selection.prev();
            }
        }
        self.clamp_selection_to_visible(viewport_height);
        was_at_top
    }

    /// Moves the selection one card down. On the last row of the viewport the
    /// list scrolls until the next card is shown. Afterwards the selection is
    /// kept inside the viewport. Returns whether the last card was selected
    /// already (or the list is empty).
    pub fn navigate_down(&mut self, viewport_height: usize) -> (was_at_bottom: bool)
        ensures
            was_at_bottom == (old(self).cards@.len() == 0 || old(self).selection.selected == Some(
                (old(self).cards@.len() - 1) as usize,
            )),
            final(self).cards@ == old(self).cards@,
            final(self).id == old(self).id,
            old(self).cards@.len() == 0 ==> final(self).selection == old(self).selection
                && final(self).scroll_offset == old(self).scroll_offset,
            old(self).cards@.len() > 0 ==> {
                let total = old(self).cards@.len() as int;
                let (sel, off) = down_move(
                    total,
                    old(self).scroll_offset as int,
                    viewport_height as int,
                    old(self).selection.selected,
                );
                &&& final(self).scroll_offset == off
                &&& final(self).selection.selected == clamp_to_shown(
                    total,
                    off,
                    viewport_height as int,
                    sel,
                )
            },
            (final(self).selection.selected, final(self).scroll_offset as int) == after_down(
                old(self).cards@.len() as int,
                old(self).scroll_offset as int,
                viewport_height as int,
                old(self).selection.selected,
            ),
    {
        if self.cards.len() == 0 {
            return true;
        }
        let total = self.cards.len();
        let sel = self.selection.get();
        let was_at_bottom = match sel {
            Some(i) => i == total - 1,
            None => false,
        };
        if !was_at_bottom {
            let current_idx = match sel {
                Some(i) => i,
                None => 0,
            };
            let last_visible_idx = self.last_shown_index(viewport_height);
            if current_idx == last_visible_idx && current_idx < total - 1 {
                let target_selection = current_idx + 1;
                let ghost h = viewport_height as int;
                let ghost start = self.scroll_offset as int + 1;
                self.scroll_offset = self.scroll_offset + 1;
                let mut new_last_visible_idx = self.last_shown_index(viewport_height);
                while target_selection > new_last_visible_idx && self.scroll_offset
                    < target_selection
                    invariant
                        self.cards@ == old(self).cards@,
                        self.id == old(self).id,
                        self.selection == old(self).selection,
                        total == self.cards@.len(),
                        target_selection < total,
                        self.scroll_offset <= target_selection,
                        new_last_visible_idx == last_shown(
                            total as int,
                            self.scroll_offset as int,
                            h,
                        ),
                        h == viewport_height,
                        scroll_until_shown(total as int, start, h, target_selection as int)
                            == scroll_until_shown(
                            total as int,
                            self.scroll_offset as int,
                            h,
                            target_selection as int,
                        ),
                    decreases target_selection - self.scroll_offset,
                {
                    self.scroll_offset = self.scroll_offset + 1;
                    new_last_visible_idx = self.last_shown_index(viewport_height);
                }
                self.selection.set(Some(target_selection));
            } else if current_idx < last_visible_idx {
                self.selection.next(total);
            }
        }
        self.clamp_selection_to_visible(viewport_height);
        was_at_bottom
    }

    pub fn clear(&mut self)
        ensures
            final(self).selection.selected is None,
            final(self).cards@ == old(self).cards@,
            final(self).id == old(self).id,
            final(self).scroll_offset == old(self).scroll_offset,
    {
        self.selection.clear();
    }

    pub fn is_empty(&self) -> (r: bool)
        ensures
            r == (self.cards@.len() == 0),
    {
        self.cards.len() == 0
    }

    pub fn len(&self) -> (r: usize)
        ensures
            r == self.cards@.len(),
    {
        self.cards.len()
    }

    pub fn get_selected_index(&self) -> (r: Option<usize>)
        ensures
            r == self.selection.selected,
    {
        self.selection.get()
    }

    /// Selects `index` when it names a card; otherwise clears the selection.
    pub fn set_selected_index(&mut self, index: Option<usize>)
        ensures
            final(self).selection.selected == (match index {
                Some(i) => if i < old(self).cards@.len() {
                    Some(i)
                } else {
                    None
                },
                None => None,
            }),
            final(self).cards@ == old(self).cards@,
            final(self).id == old(self).id,
            final(self).scroll_offset == old(self).scroll_offset,
    {
        match index {
            Some(idx) => {
                if idx < self.cards.len() {
                    self.selection.set(Some(idx));
                } else {
                    self.selection.clear();
                }
            },
            None => {
                self.selection.clear();
            },
        }
    }

    pub fn get_scroll_offset(&self) -> (r: usize)
        ensures
            r == self.scroll_offset,
    {
        self.scroll_offset
    }

    /// Scrolls to `offset`, at most the last card.
    pub fn set_scroll_offset(&mut self, offset: usize)
        ensures
            final(self).scroll_offset == min_int(
                offset as int,
                sat_sub(old(self).cards@.len() as int, 1),
            ),
            final(self).cards@ == old(self).cards@,
            final(self).id == old(self).id,
            final(self).selection == old(self).selection,
    {
        let last = if self.cards.len() > 0 { self.cards.len() - 1 } else { 0 };
        self.scroll_offset = if offset < last { offset } else { last };
    }

    /// Scrolls the least amount that shows the selected row in a viewport of
    /// `viewport_height` lines (indicator lines not counted).
    pub fn ensure_selected_visible(&mut self, viewport_height: usize)
        ensures
            final(self).scroll_offset == (match old(self).selection.selected {
                Some(i) => crate::page::scroll_to_show(
                    old(self).scroll_offset,
                    i,
                    viewport_height,
                ),
                None => old(self).scroll_offset,
            }),
            final(self).cards@ == old(self).cards@,
            final(self).id == old(self).id,
            final(self).selection == old(self).selection,
    {
        if viewport_height == 0 {
            return ;
        }
        if let Some(selected_idx) = self.selection.get() {
            let start = self.scroll_offset;
            if selected_idx < start {
                self.scroll_offset = selected_idx;
            } else if selected_idx - start >= viewport_height {
                self.scroll_offset = selected_idx - (viewport_height - 1);
            }
        }
    }

    /// What to draw in a viewport of `viewport_height` lines.
    pub fn get_render_info(&self, viewport_height: usize) -> (info: CardListRenderInfo)
        ensures
            render_info_matches(
                info,
                self.cards@.len() as int,
                self.scroll_offset as int,
                viewport_height as int,
            ),
    {
        if self.cards.len() == 0 {
            return CardListRenderInfo {
                visible_card_indices: Vec::new(),
                show_above_indicator: false,
                cards_above_count: 0,
                show_below_indicator: false,
                cards_below_count: 0,
            };
        }
        let total = self.cards.len();
        let off = self.scroll_offset;
        let info = self.calculate_viewport_info(viewport_height);
        let n: usize = if off >= total {
            0
        } else if info.cards_to_show < total - off {
            info.cards_to_show
        } else {
            total - off
        };
        let mut visible: Vec<usize> = Vec::new();
        let mut i: usize = 0;
        while i < n
            invariant
                i <= n,
                n == shown_count(total as int, off as int, viewport_height as int),
                n > 0 ==> off + n <= total,
                visible@.len() == i,
                forall|j: int| 0 <= j < i ==> #[trigger] visible@[j] == off + j,
            decreases n - i,
        {
            visible.push(off + i);
            i = i + 1;
        }
        let below_count = if off < total { total - off - n } else { 0 };
        CardListRenderInfo {
            visible_card_indices: visible,
            show_above_indicator: info.has_cards_above,
            cards_above_count: off,
            show_below_indicator: info.has_cards_below,
            cards_below_count: below_count,
        }
    }

    /// Pulls the selection into the viewport and into the list.
    pub fn clamp_selection_to_visible(&mut self, viewport_height: usize)
        ensures
            final(self).selection.selected == (if old(self).cards@.len() == 0 {
                old(self).selection.selected
            } else {
                clamp_to_shown(
                    old(self).cards@.len() as int,
                    old(self).scroll_offset as int,
                    viewport_height as int,
                    old(self).selection.selected,
                )
            }),
            final(self).cards@ == old(self).cards@,
            final(self).id == old(self).id,
            final(self).scroll_offset == old(self).scroll_offset,
    {
        if self.cards.len() == 0 {
            return ;
        }
        if let Some(selected_idx) = self.selection.get() {
            let info = self.calculate_viewport_info(viewport_height);
            let first_visible = self.scroll_offset;
            let last_card = self.cards.len() - 1;
            let spare = if info.cards_to_show > 0 { info.cards_to_show - 1 } else { 0 };
            let hi = if first_visible <= last_card && spare < last_card - first_visible {
                first_visible + spare
            } else {
                last_card
            };
            let lo = if selected_idx > first_visible { selected_idx } else { first_visible };
            self.selection.set(Some(if lo < hi { lo } else { hi }));
        }
    }
}

} // verus!

use vstd::prelude::*;
use std::collections::HashSet;
use vstd::std_specs::iter::IteratorSpec;
use crate::page::{Page, PageInfo, page_info_matches, scroll_to_show, sat_dec, min_usize};
use crate::selection::SelectionState;

verus! {

broadcast use vstd::std_specs::hash::group_hash_axioms;

pub type ListRenderInfo = PageInfo;

/// A navigable list of rows with an optional multi-selection of row indices.
pub struct ListComponent {
    pub selection: SelectionState,
    pub page: Page,
    pub multi_selected: HashSet<usize>,
    pub allow_multi_select: bool,
}

/// Selection after the item count changes to `count`: a selection past the
/// end moves to the last item, an empty list loses its selection, and a
/// non-empty list with nothing selected selects its first item.
pub open spec fn selection_after_count(sel: Option<usize>, count: usize) -> Option<usize> {
    match sel {
        Some(idx) => if idx >= count && count > 0 {
            Some((count - 1) as usize)
        } else if count == 0 {
            None
        } else {
            Some(idx)
        },
        None => if count > 0 { Some(0usize) } else { None },
    }
}

/// Indices `0 .. n` as a set.
pub open spec fn index_set(n: usize) -> Set<usize> {
    Set::new(|i: usize| i < n)
}

/// `s` lists its elements in strictly increasing order.
pub open spec fn strictly_increasing(s: Seq<usize>) -> bool {
    forall|i: int, j: int| 0 <= i < j < s.len() ==> s[i] < s[j]
}

/// Scroll offset after the item count changes to `count`: an offset past
/// the end moves to the last item.
pub open spec fn scroll_after_count(scroll: usize, count: usize) -> usize {
    if scroll >= count && count > 0 {
        (count - 1) as usize
    } else {
        scroll
    }
}

/// Nothing above the selection: the list is empty, nothing is selected, or
/// the first row is.
pub open spec fn list_at_top(l: ListComponent) -> bool {
    l.item_count() == 0 || l.selection.selected is None || l.selection.selected == Some(0usize)
}

/// The last row is selected (or the list is empty).
pub open spec fn list_at_bottom(l: ListComponent) -> bool {
    l.item_count() == 0 || l.selection.selected == Some((l.item_count() - 1) as usize)
}

/// Selection after moving up: one row up, unless at the top.
pub open spec fn selection_after_up(l: ListComponent) -> Option<usize> {
    if list_at_top(l) {
        l.selection.selected
    } else {
        Some((l.selection.selected->0 - 1) as usize)
    }
}

/// Scroll offset after moving up: follows a selection that leaves the top
/// of the viewport.
pub open spec fn scroll_after_up(l: ListComponent) -> usize {
    if list_at_top(l) {
        l.scroll()
    } else {
        let i = l.selection.selected->0;
        if i - 1 < l.scroll() {
            min_usize((i - 1) as usize, sat_dec(l.item_count()))
        } else {
            l.scroll()
        }
    }
}

/// Selection after moving down: one row down, stopping at the last row (an
/// empty selection moves to the second row).
pub open spec fn selection_after_down(l: ListComponent) -> Option<usize> {
    if list_at_bottom(l) {
        l.selection.selected
    } else {
        let i: usize = match l.selection.selected {
            Some(i) => i,
            None => 0,
        };
        Some(if i >= l.item_count() - 1 { i } else { (i + 1) as usize })
    }
}

impl ListComponent {
    /// Number of rows in the list.
    pub open spec fn item_count(&self) -> usize {
        self.page.total_items
    }

    /// Index of the first row of the viewport.
    pub open spec fn scroll(&self) -> usize {
        self.page.scroll_offset
    }

    /// An empty list, with multi-selection allowed or not.
    pub fn new(allow_multi_select: bool) -> (l: Self)
        ensures
            l.selection.selected is None,
            l.item_count() == 0,
            l.scroll() == 0,
            l.multi_selected@ == Set::<usize>::empty(),
            l.allow_multi_select == allow_multi_select,
    {
        ListComponent {
            selection: SelectionState::new(),
            page: Page::new(0),
            multi_selected: HashSet::new(),
            allow_multi_select,
        }
    }

    /// Sets the number of rows, keeping the selection within the list.
    pub fn update_item_count(&mut self, count: usize)
        ensures
            final(self).item_count() == count,
            final(self).scroll() == scroll_after_count(old(self).scroll(), count),
            final(self).selection.selected == selection_after_count(
                old(self).selection.selected,
                count,
            ),
            final(self).multi_selected@ == old(self).multi_selected@,
            final(self).allow_multi_select == old(self).allow_multi_select,
    {
        let current_selection = self.selection.get();
        self.page.set_total_items(count);
        if let Some(idx) = current_selection {
            if idx >= count && count > 0 {
                self.selection.set(Some(count - 1));
            } else if count == 0 {
                self.selection.clear();
            }
        } else if count > 0 {
            self.selection.auto_select_first_if_empty(true);
        }
    }

    /// Moves the selection one row up, scrolling when it leaves the viewport.
    /// Returns whether the selection was already at the top (or the list is
    /// empty or nothing was selected), in which case nothing changes.
    pub fn navigate_up(&mut self) -> (was_at_top: bool)
        ensures
            was_at_top == list_at_top(*old(self)),
            final(self).item_count() == old(self).item_count(),
            final(self).multi_selected@ == old(self).multi_selected@,
            final(self).allow_multi_select == old(self).allow_multi_select,
            final(self).selection.selected == selection_after_up(*old(self)),
            final(self).scroll() == scroll_after_up(*old(self)),
    {
        if self.page.total_items == 0 {
            return true;
        }
        let sel = self.selection.get();
        let was_at_top = match sel {
            Some(i) => i == 0,
            None => true,
        };
        if !was_at_top {
            let current_idx = match sel {
                Some(i) => i,
                None => 0,
            };
            let new_idx = self.page.navigate_up(current_idx);
            self.selection.set(Some(new_idx));
            if new_idx < self.page.scroll_offset {
                self.page.set_scroll_offset(new_idx);
            }
        }
        was_at_top
    }

    /// Moves the selection one row down, stopping at the last row; an empty
    /// selection moves to the second row. Returns whether the selection was
    /// already on the last row (or the list is empty); then nothing changes.
    pub fn navigate_down(&mut self) -> (was_at_bottom: bool)
        ensures
            was_at_bottom == list_at_bottom(*old(self)),
            final(self).item_count() == old(self).item_count(),
            final(self).scroll() == old(self).scroll(),
            final(self).multi_selected@ == old(self).multi_selected@,
            final(self).allow_multi_select == old(self).allow_multi_select,
            final(self).selection.selected == selection_after_down(*old(self)),
    {
        if self.page.total_items == 0 {
            return true;
        }
        let last = self.page.total_items - 1;
        let sel = self.selection.get();
        let was_at_bottom = match sel {
            Some(i) => i == last,
            None => false,
        };
        if !was_at_bottom {
            let current_idx = match sel {
                Some(i) => i,
                None => 0,
            };
            let new_idx = self.page.navigate_down(current_idx);
            self.selection.set(Some(new_idx));
        }
        was_at_bottom
    }

    pub fn get_selected_index(&self) -> (r: Option<usize>)
        ensures
            r == self.selection.selected,
    {
        self.selection.get()
    }

    /// Selects `index` when it names a row; otherwise clears the selection.
    pub fn set_selected_index(&mut self, index: Option<usize>)
        ensures
            final(self).selection.selected == (match index {
                Some(i) => if i < old(self).item_count() {
                    Some(i)
                } else {
                    None
                },
                None => None,
            }),
            final(self).item_count() == old(self).item_count(),
            final(self).scroll() == old(self).scroll(),
            final(self).multi_selected@ == old(self).multi_selected@,
            final(self).allow_multi_select == old(self).allow_multi_select,
    {
        match index {
            Some(idx) => {
                if idx < self.page.total_items {
                    self.selection.set(Some(idx));
                } else {
                    self.selection.clear();
                }
            },
            None => {
                self.selection.clear();
            },
        }
    }

    /// Adds row `index` to the multi-selection, or removes it when it is
    /// already there. Only rows of the list count, and only when
    /// multi-selection is allowed.
    pub fn toggle_multi_select(&mut self, index: usize)
        ensures
            final(self).multi_selected@ == (if old(self).allow_multi_select && index
                < old(self).item_count() {
                if old(self).multi_selected@.contains(index) {
                    old(self).multi_selected@.remove(index)
                } else {
                    old(self).multi_selected@.insert(index)
                }
            } else {
                old(self).multi_selected@
            }),
            final(self).selection == old(self).selection,
            final(self).item_count() == old(self).item_count(),
            final(self).scroll() == old(self).scroll(),
            final(self).allow_multi_select == old(self).allow_multi_select,
    {
        if self.allow_multi_select && index < self.page.total_items {
            if self.multi_selected.contains(&index) {
                self.multi_selected.remove(&index);
            } else {
                self.multi_selected.insert(index);
            }
        }
    }

    pub fn clear_multi_select(&mut self)
        ensures
            final(self).multi_selected@ == Set::<usize>::empty(),
            final(self).selection == old(self).selection,
            final(self).item_count() == old(self).item_count(),
            final(self).scroll() == old(self).scroll(),
            final(self).allow_multi_select == old(self).allow_multi_select,
    {
        self.multi_selected.clear();
    }

    /// Multi-selects every row, when multi-selection is allowed.
    pub fn select_all(&mut self)
        ensures
            final(self).multi_selected@ == (if old(self).allow_multi_select {
                index_set(old(self).item_count())
            } else {
                old(self).multi_selected@
            }),
            final(self).selection == old(self).selection,
            final(self).item_count() == old(self).item_count(),
            final(self).scroll() == old(self).scroll(),
            final(self).allow_multi_select == old(self).allow_multi_select,
    {
        if self.allow_multi_select {
            let total = self.page.total_items;
            let mut all: HashSet<usize> = HashSet::new();
            let mut i: usize = 0;
            while i < total
                invariant
                    i <= total,
                    all@ == Set::new(|k: usize| k < i),
                decreases total - i,
            {
                all.insert(i);
                i = i + 1;
                assert(all@ =~= Set::new(|k: usize| k < i));
            }
            assert(all@ =~= index_set(total));
            self.multi_selected = all;
        }
    }

    /// The multi-selected row indices in increasing order.
    pub fn get_multi_selected_indices(&self) -> (r: Vec<usize>)
        ensures
            r@.to_set() == self.multi_selected@,
            strictly_increasing(r@),
    {
        let ghost keys = self.multi_selected.iter().remaining();
        let mut v: Vec<usize> = Vec::new();
        for x in it: self.multi_selected.iter()
            invariant
                it.seq() == keys,
                v.len() == it.index(),
                forall|i: int| 0 <= i < v.len() ==> v@[i] == *keys[i],
        {
            v.push(*x);
        }
        proof {
            assert(v@ =~= keys.unref());
        }
        sort_distinct(v)
    }

    pub fn get_scroll_offset(&self) -> (r: usize)
        ensures
            r == self.scroll(),
    {
        self.page.scroll_offset
    }

    /// Scrolls to `offset`, kept within the list.
    pub fn set_scroll_offset(&mut self, offset: usize)
        ensures
            final(self).scroll() == min_usize(offset, sat_dec(old(self).item_count())),
            final(self).item_count() == old(self).item_count(),
            final(self).selection == old(self).selection,
            final(self).multi_selected@ == old(self).multi_selected@,
            final(self).allow_multi_select == old(self).allow_multi_select,
    {
        self.page.set_scroll_offset(offset);
    }

    /// Scrolls so that the selected row lies in a viewport of
    /// `viewport_height` lines.
    pub fn ensure_selected_visible(&mut self, viewport_height: usize)
        ensures
            final(self).scroll() == (match old(self).selection.selected {
                Some(i) => scroll_to_show(old(self).scroll(), i, viewport_height),
                None => old(self).scroll(),
            }),
            final(self).item_count() == old(self).item_count(),
            final(self).selection == old(self).selection,
            final(self).multi_selected@ == old(self).multi_selected@,
            final(self).allow_multi_select == old(self).allow_multi_select,
    {
        if let Some(selected_idx) = self.selection.get() {
            self.page.scroll_to_make_visible(selected_idx, viewport_height);
        }
    }

    /// What to render in a viewport of `viewport_height` lines.
    pub fn get_render_info(&self, viewport_height: usize) -> (info: ListRenderInfo)
        ensures
            page_info_matches(
                info,
                self.item_count() as nat,
                self.scroll() as nat,
                viewport_height as nat,
            ),
    {
        self.page.get_page_info(viewport_height)
    }

    /// Selects row `index` when it names a row.
    pub fn jump_to(&mut self, index: usize)
        ensures
            final(self).selection.selected == (if index < old(self).item_count() {
                Some(index)
            } else {
                old(self).selection.selected
            }),
            final(self).item_count() == old(self).item_count(),
            final(self).scroll() == old(self).scroll(),
            final(self).multi_selected@ == old(self).multi_selected@,
            final(self).allow_multi_select == old(self).allow_multi_select,
    {
        if index < self.page.total_items {
            self.selection.set(Some(index));
        }
    }

    pub fn len(&self) -> (r: usize)
        ensures
            r == self.item_count(),
    {
        self.page.total_items
    }

    pub fn is_empty(&self) -> (r: bool)
        ensures
            r == (self.item_count() == 0),
    {
        self.page.total_items == 0
    }
}

/// Sorts distinct indices into increasing order.
fn sort_distinct(v: Vec<usize>) -> (r: Vec<usize>)
    requires
        v@.no_duplicates(),
    ensures
        r@.to_set() == v@.to_set(),
        strictly_increasing(r@),
{
    let mut r: Vec<usize> = Vec::new();
    let mut i: usize = 0;
    while i < v.len()
        invariant
            i <= v.len(),
            v@.no_duplicates(),
            strictly_increasing(r@),
            r@.to_set() == v@.take(i as int).to_set(),
        decreases v.len() - i,
    {
        let x = v[i];
        proof {
            assert(!v@.take(i as int).contains(x)) by {
                if v@.take(i as int).contains(x) {
                    let k = choose|k: int| 0 <= k < i && v@.take(i as int)[k] == x;
                    assert(v@[k] == v@[i as int]);
                }
            }
            assert(!r@.contains(x)) by {
                if r@.contains(x) {
                    let k = choose|k: int| 0 <= k < r@.len() && r@[k] == x;
                    assert(r@.to_set().contains(x));
                }
            }
        }
        let mut j: usize = 0;
        while j < r.len() && r[j] < x
            invariant
                j <= r.len(),
                forall|k: int| 0 <= k < j ==> r@[k] < x,
            decreases r.len() - j,
        {
            j = j + 1;
        }
        let ghost old_r = r@;
        r.insert(j, x);
        proof {
            assert(j < old_r.len() ==> old_r[j as int] > x);
            assert forall|a: int, b: int| 0 <= a < b < r@.len() implies r@[a] < r@[b] by {
                if b < j {
                } else if a < j && b == j {
                } else if a < j {
                    assert(old_r[b - 1] >= old_r[j as int]);
                } else if a == j {
                    assert(old_r[b - 1] >= old_r[j as int]);
                } else {
                }
            }
            assert(v@.take(i + 1) =~= v@.take(i as int).push(x));
            assert(r@.to_set() =~= old_r.to_set().insert(x)) by {
                assert forall|y: usize| r@.to_set().contains(y) implies old_r.to_set().insert(
                    x,
                ).contains(y) by {
                    let k = choose|k: int| 0 <= k < r@.len() && r@[k] == y;
                    if k < j {
                        assert(old_r[k] == y);
                    } else if k > j {
                        assert(old_r[k - 1] == y);
                    }
                }
                assert forall|y: usize| old_r.to_set().insert(x).contains(y) implies r@.to_set().contains(
                    y,
                ) by {
                    if y == x {
                        assert(r@[j as int] == x);
                    } else {
                        let k = choose|k: int| 0 <= k < old_r.len() && old_r[k] == y;
                        if k < j {
                            assert(r@[k] == y);
                        } else {
                            assert(r@[k + 1] == y);
                        }
                    }
                }
            }
            v@.take(i as int).lemma_push_to_set_commute(x);
        }
        i = i + 1;
    }
    assert(v@.take(v.len() as int) =~= v@);
    r
}

} // verus!

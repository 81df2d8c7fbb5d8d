use vstd::prelude::*;

verus! {

/// What a list shows for one viewport position.
#[derive(Debug, Clone)]
pub struct PageInfo {
    pub visible_item_indices: Vec<usize>,
    pub first_visible_idx: usize,
    pub last_visible_idx: usize,
    pub items_per_page: usize,
    pub show_above_indicator: bool,
    pub items_above_count: usize,
    pub show_below_indicator: bool,
    pub items_below_count: usize,
    pub current_page: usize,
    pub total_pages: usize,
}

/// Which items of a list are shown for a scroll position. Knows nothing of
/// rendering: the caller hands it the lines that are available.
#[derive(Debug, Clone, Copy)]
pub struct Page {
    pub total_items: usize,
    pub scroll_offset: usize,
}

/// Number of items shown from `offset` in a viewport of `height` lines.
pub open spec fn visible_count(total: nat, offset: nat, height: nat) -> nat {
    if offset >= total {
        0
    } else if height < total - offset {
        height
    } else {
        (total - offset) as nat
    }
}

/// `PageInfo` for a list of `total` items scrolled to `offset`, shown in
/// `height` lines.
pub open spec fn page_info_matches(info: PageInfo, total: nat, offset: nat, height: nat) -> bool {
    if total == 0 || height == 0 {
        &&& info.visible_item_indices@ == Seq::<usize>::empty()
        &&& info.first_visible_idx == 0
        &&& info.last_visible_idx == 0
        &&& info.items_per_page == 0
        &&& !info.show_above_indicator
        &&& info.items_above_count == 0
        &&& !info.show_below_indicator
        &&& info.items_below_count == 0
        &&& info.current_page == 0
        &&& info.total_pages == 0
    } else {
        let n = visible_count(total, offset, height);
        &&& info.visible_item_indices@.len() == n
        &&& forall|i: int| 0 <= i < n ==> #[trigger] info.visible_item_indices@[i] == offset + i
        &&& info.first_visible_idx == (if n > 0 { offset } else { 0 })
        &&& info.last_visible_idx == (if n > 0 { offset + n - 1 } else { 0 })
        &&& info.items_per_page == height
        &&& info.show_above_indicator == (offset > 0)
        &&& info.items_above_count == offset
        &&& info.show_below_indicator == (offset + height < total)
        &&& info.items_below_count == (if offset + n < total { total - offset - n } else { 0 })
        &&& info.current_page == offset / height
        &&& info.total_pages == (total + height - 1) / (height as int)
    }
}

impl Page {
    /// A page over `total_items` items, scrolled to the top.
    pub fn new(total_items: usize) -> (p: Self)
        ensures
            p.total_items == total_items,
            p.scroll_offset == 0,
    {
        Page { total_items, scroll_offset: 0 }
    }

    /// Sets the item count; a scroll position past the end of a non-empty
    /// list is pulled back to its last item.
    pub fn set_total_items(&mut self, total_items: usize)
        ensures
            final(self).total_items == total_items,
            final(self).scroll_offset == (if old(self).scroll_offset >= total_items
                && total_items > 0 {
                (total_items - 1) as usize
            } else {
                old(self).scroll_offset
            }),
    {
        self.total_items = total_items;
        if self.scroll_offset >= total_items && total_items > 0 {
            self.scroll_offset = total_items - 1;
        }
    }

    /// What to render in a viewport of `viewport_height` lines.
    pub fn get_page_info(&self, viewport_height: usize) -> (info: PageInfo)
        ensures
            page_info_matches(
                info,
                self.total_items as nat,
                self.scroll_offset as nat,
                viewport_height as nat,
            ),
    {
        let total = self.total_items;
        let offset = self.scroll_offset;
        if total == 0 || viewport_height == 0 {
            return PageInfo {
                visible_item_indices: Vec::new(),
                first_visible_idx: 0,
                last_visible_idx: 0,
                items_per_page: 0,
                show_above_indicator: false,
                items_above_count: 0,
                show_below_indicator: false,
                items_below_count: 0,
                current_page: 0,
                total_pages: 0,
            };
        }
        let n: usize = if offset >= total {
            0
        } else if viewport_height < total - offset {
            viewport_height
        } else {
            total - offset
        };
        let mut visible: Vec<usize> = Vec::new();
        let mut i: usize = 0;
        while i < n
            invariant
                i <= n,
                n == visible_count(total as nat, offset as nat, viewport_height as nat),
                n > 0 ==> offset + n <= total,
                visible@.len() == i,
                forall|j: int| 0 <= j < i ==> #[trigger] visible@[j] == offset + j,
            decreases n - i,
        {
            visible.push(offset + i);
            i = i + 1;
        }
        let first = if n > 0 { offset } else { 0 };
        let last = if n > 0 { offset + (n - 1) } else { 0 };
        let below = if offset < total { total - offset - n } else { 0 };
        let has_below = offset < total && viewport_height < total - offset;
        assert(total % viewport_height != 0 ==> total / viewport_height < total) by (nonlinear_arith)
            requires
                viewport_height > 0,
        {
            if total % viewport_height != 0 {
                assert(viewport_height >= 2 || total % viewport_height == 0);
            }
        }
        let pages = total / viewport_height + if total % viewport_height != 0 { 1 } else { 0 };
        proof {
            let t = total as int;
            let h = viewport_height as int;
            assert(pages as int == (t + h - 1) / h) by (nonlinear_arith)
                requires
                    h > 0,
                    t >= 0,
                    pages as int == t / h + if t % h != 0 { 1int } else { 0int },
            {
                vstd::arithmetic::div_mod::lemma_fundamental_div_mod(t, h);
                vstd::arithmetic::div_mod::lemma_fundamental_div_mod(t + h - 1, h);
            }
        }
        PageInfo {
            visible_item_indices: visible,
            first_visible_idx: first,
            last_visible_idx: last,
            items_per_page: viewport_height,
            show_above_indicator: offset > 0,
            items_above_count: offset,
            show_below_indicator: has_below,
            items_below_count: below,
            current_page: offset / viewport_height,
            total_pages: pages,
        }
    }

    /// Scrolls to `offset`, kept within the list (at most its last item).
    pub fn set_scroll_offset(&mut self, offset: usize)
        ensures
            final(self).total_items == old(self).total_items,
            final(self).scroll_offset == min_usize(offset, sat_dec(old(self).total_items)),
    {
        let last = if self.total_items > 0 { self.total_items - 1 } else { 0 };
        self.scroll_offset = if offset < last { offset } else { last };
    }

    /// Scrolls the least amount that brings item `item_idx` into a viewport of
    /// `viewport_height` lines.
    pub fn scroll_to_make_visible(&mut self, item_idx: usize, viewport_height: usize)
        ensures
            final(self).total_items == old(self).total_items,
            final(self).scroll_offset == scroll_to_show(
                old(self).scroll_offset,
                item_idx,
                viewport_height,
            ),
    {
        if viewport_height == 0 {
            return ;
        }
        let start = self.scroll_offset;
        if item_idx < start {
            self.scroll_offset = item_idx;
        } else if item_idx - start >= viewport_height {
            self.scroll_offset = item_idx - (viewport_height - 1);
        }
    }

    /// Index one above `current_idx`, staying at the top.
    pub fn navigate_up(&mut self, current_idx: usize) -> (r: usize)
        ensures
            r == sat_dec(current_idx),
            *final(self) == *old(self),
    {
        if current_idx == 0 {
            return current_idx;
        }
        current_idx - 1
    }

    /// Index one below `current_idx`, staying at the last item.
    pub fn navigate_down(&mut self, current_idx: usize) -> (r: usize)
        ensures
            r == (if current_idx >= sat_dec(old(self).total_items) {
                current_idx
            } else {
                (current_idx + 1) as usize
            }),
            *final(self) == *old(self),
    {
        let last = if self.total_items > 0 { self.total_items - 1 } else { 0 };
        if current_idx >= last {
            return current_idx;
        }
        current_idx + 1
    }
}

pub open spec fn sat_dec(x: usize) -> usize {
    if x > 0 { (x - 1) as usize } else { 0 }
}

pub open spec fn min_usize(a: usize, b: usize) -> usize {
    if a < b { a } else { b }
}

/// Scroll position after bringing `item` into a viewport of `height` lines
/// that starts at `offset`.
pub open spec fn scroll_to_show(offset: usize, item: usize, height: usize) -> usize {
    if height == 0 {
        offset
    } else if item < offset {
        item
    } else if item >= offset + height {
        (item - (height - 1)) as usize
    } else {
        offset
    }
}

/// After scrolling to show an item, the item lies inside the viewport.
pub proof fn lemma_scroll_to_show_makes_visible(offset: usize, item: usize, height: usize)
    requires
        height > 0,
    ensures
        scroll_to_show(offset, item, height) <= item < scroll_to_show(offset, item, height)
            + height,
{
}

} // verus!

use vstd::prelude::*;

verus! {

/// Rows of one column group in the grouped task list: where the group starts
/// and how many cards it has. Each group shown takes a header line.
#[derive(Debug, Clone, Copy, PartialEq, Eq, Structural)]
pub struct ColumnBoundary {
    pub start_index: usize,
    pub card_count: usize,
}

/// How the task list is laid out.
#[derive(Debug, Clone, PartialEq, Eq)]
pub enum PageLayout {
    /// Cards grouped under column headers.
    GroupedByColumn(Vec<ColumnBoundary>),
    /// A unified view without column groups.
    OtherUnified,
    /// A single flat list.
    Flat,
}

/// Scroll position and length of the active task list.
#[derive(Debug, Clone, Copy, PartialEq, Eq, Structural)]
pub struct ListPosition {
    pub scroll_offset: usize,
    pub len: usize,
}

pub open spec fn sat(a: int) -> int {
    if a > 0 { a } else { 0 }
}

/// A column group overlaps the lines `off .. off + height`.
pub open spec fn group_in_view(b: ColumnBoundary, off: int, height: int) -> bool {
    b.start_index < off + height && b.start_index + b.card_count > off
}

/// Number of column groups that overlap the viewport.
pub open spec fn groups_in_view(bs: Seq<ColumnBoundary>, off: int, height: int) -> int
    decreases bs.len(),
{
    if bs.len() == 0 {
        0
    } else {
        groups_in_view(bs.drop_last(), off, height) + if group_in_view(bs.last(), off, height) {
            1int
        } else {
            0int
        }
    }
}

proof fn lemma_groups_in_view_bounded(bs: Seq<ColumnBoundary>, off: int, height: int)
    ensures
        0 <= groups_in_view(bs, off, height) <= bs.len(),
    decreases bs.len(),
{
    if bs.len() > 0 {
        lemma_groups_in_view_bounded(bs.drop_last(), off, height);
    }
}

fn count_groups_in_view(bs: &Vec<ColumnBoundary>, off: usize, height: usize) -> (r: usize)
    ensures
        r == groups_in_view(bs@, off as int, height as int),
{
    let mut n: usize = 0;
    let mut i: usize = 0;
    while i < bs.len()
        invariant
            i <= bs@.len(),
            n == groups_in_view(bs@.take(i as int), off as int, height as int),
            n <= i,
        decreases bs@.len() - i,
    {
        let b = bs[i];
        let before = b.start_index < off || b.start_index - off < height;
        let after = b.start_index > off || b.card_count > off - b.start_index;
        assert(bs@.take(i + 1).drop_last() =~= bs@.take(i as int));
        if before && after {
            n = n + 1;
        }
        i = i + 1;
    }
    assert(bs@.take(bs@.len() as int) =~= bs@);
    n
}

/// Page size that does not change while scrolling: every column header and
/// both scroll indicators are assumed on screen.
pub fn get_stable_page_size(viewport_height: usize, layout: &PageLayout) -> (r: usize)
    ensures
        r == (match layout {
            PageLayout::GroupedByColumn(bs) => sat(viewport_height - bs@.len() - 2),
            _ => sat(viewport_height - 2),
        }),
{
    match layout {
        PageLayout::GroupedByColumn(bs) => {
            let h = bs.len();
            if viewport_height > h && viewport_height - h > 2 {
                viewport_height - h - 2
            } else {
                0
            }
        },
        _ => if viewport_height > 2 {
            viewport_height - 2
        } else {
            0
        },
    }
}

/// Scroll indicators on screen for a list at `pos`: one at either end of
/// the list, two in between.
pub open spec fn indicator_lines(pos: ListPosition, height: int) -> int {
    if pos.scroll_offset == 0 {
        1
    } else if pos.scroll_offset + height >= pos.len {
        1
    } else {
        2
    }
}

fn indicator_count(pos: ListPosition, height: usize) -> (r: usize)
    ensures
        r == indicator_lines(pos, height as int),
{
    if pos.scroll_offset == 0 {
        1
    } else if height >= pos.len || pos.scroll_offset >= pos.len - height {
        1
    } else {
        2
    }
}

/// Page size for the current scroll position, counting the column headers
/// that overlap the viewport and the indicators the position shows.
pub fn get_conservative_page_size(
    viewport_height: usize,
    layout: &PageLayout,
    list: Option<ListPosition>,
) -> (r: usize)
    ensures
        r == (match layout {
            PageLayout::GroupedByColumn(bs) => match list {
                Some(pos) => sat(
                    viewport_height - groups_in_view(
                        bs@,
                        pos.scroll_offset as int,
                        viewport_height as int,
                    ) - indicator_lines(pos, viewport_height as int),
                ),
                None => sat(viewport_height - (if bs@.len() < 3 { bs@.len() as int } else { 3 }) - 2),
            },
            PageLayout::OtherUnified => sat(viewport_height - 2),
            PageLayout::Flat => match list {
                Some(pos) => sat(viewport_height - indicator_lines(pos, viewport_height as int)),
                None => sat(viewport_height - 2),
            },
        }),
{
    let (first, second): (usize, usize) = match layout {
        PageLayout::GroupedByColumn(bs) => match list {
            Some(pos) => {
                let h = count_groups_in_view(bs, pos.scroll_offset, viewport_height);
                (h, indicator_count(pos, viewport_height))
            },
            None => (if bs.len() < 3 { bs.len() } else { 3 }, 2),
        },
        PageLayout::OtherUnified => (0, 2),
        PageLayout::Flat => match list {
            Some(pos) => (0, indicator_count(pos, viewport_height)),
            None => (0, 2),
        },
    };
    if viewport_height > first && viewport_height - first > second {
        viewport_height - first - second
    } else {
        0
    }
}

/// Page size that counts only what is on screen now: the column headers that
/// overlap the viewport and the indicators the current position shows.
pub fn get_effective_page_size(
    viewport_height: usize,
    layout: &PageLayout,
    list: Option<ListPosition>,
) -> (r: usize)
    ensures
        r == (match list {
            Some(pos) => match layout {
                PageLayout::GroupedByColumn(bs) => {
                    let h = groups_in_view(bs@, pos.scroll_offset as int, viewport_height as int);
                    let space = sat(viewport_height - h);
                    let above: int = if pos.scroll_offset > 0 { 1 } else { 0 };
                    let below: int = if pos.scroll_offset + space < pos.len { 1 } else { 0 };
                    sat(viewport_height - h - above - below)
                },
                PageLayout::OtherUnified => viewport_height as int,
                PageLayout::Flat => {
                    let above: int = if pos.scroll_offset > 0 { 1 } else { 0 };
                    let below: int = if pos.scroll_offset + viewport_height < pos.len { 1 } else { 0 };
                    sat(viewport_height - above - below)
                },
            },
            None => viewport_height as int,
        }),
{
    match list {
        Some(pos) => {
            let off = pos.scroll_offset;
            let (h, space) = match layout {
                PageLayout::GroupedByColumn(bs) => {
                    let h = count_groups_in_view(bs, off, viewport_height);
                    let space = if viewport_height > h { viewport_height - h } else { 0 };
                    (h, space)
                },
                PageLayout::OtherUnified => {
                    return viewport_height;
                },
                PageLayout::Flat => (0, viewport_height),
            };
            let above: usize = if off > 0 { 1 } else { 0 };
            let below: usize = if off < pos.len && space < pos.len - off { 1 } else { 0 };
            if h >= viewport_height {
                0
            } else if viewport_height - h > above + below {
                viewport_height - h - above - below
            } else {
                0
            }
        },
        None => viewport_height,
    }
}

} // verus!

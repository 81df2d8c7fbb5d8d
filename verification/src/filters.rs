use vstd::prelude::*;
use uuid::Uuid;
use crate::ids::same_id;

verus! {

/// Sections of the filter dialog, in the order Tab visits them.
#[derive(Debug, Clone, Copy, PartialEq, Eq, Structural)]
pub enum FilterDialogSection {
    Sprints,
    DateRange,
    Tags,
}

pub open spec fn section_at(i: usize) -> FilterDialogSection {
    if i == 0 {
        FilterDialogSection::Sprints
    } else if i == 1 {
        FilterDialogSection::DateRange
    } else if i == 2 {
        FilterDialogSection::Tags
    } else {
        FilterDialogSection::Sprints
    }
}

/// The filter dialog: the section shown, its index, the highlighted item
/// and the filters being edited.
#[derive(Debug, Clone)]
pub struct FilterDialogState<F> {
    pub current_section: FilterDialogSection,
    pub section_index: usize,
    pub item_selection: usize,
    pub filters: F,
}

fn section_for(i: usize) -> (s: FilterDialogSection)
    ensures
        s == section_at(i),
{
    if i == 0 {
        FilterDialogSection::Sprints
    } else if i == 1 {
        FilterDialogSection::DateRange
    } else if i == 2 {
        FilterDialogSection::Tags
    } else {
        FilterDialogSection::Sprints
    }
}

impl<F> FilterDialogState<F> {
    /// The dialog on its first section, editing `filters`.
    pub fn new(filters: F) -> (d: Self)
        ensures
            d.current_section == FilterDialogSection::Sprints,
            d.section_index == 0,
            d.item_selection == 0,
            d.filters == filters,
    {
        FilterDialogState {
            current_section: FilterDialogSection::Sprints,
            section_index: 0,
            item_selection: 0,
            filters,
        }
    }

    /// The next section, round from the last to the first.
    pub fn next_section(&mut self)
        ensures
            final(self).section_index == (old(self).section_index + 1) % 3,
            final(self).current_section == section_at(final(self).section_index),
            final(self).item_selection == 0,
            final(self).filters == old(self).filters,
    {
        let i = self.section_index % 3;
        proof {
            vstd::arithmetic::div_mod::lemma_add_mod_noop(self.section_index as int, 1, 3);
        }
        self.section_index = if i == 2 { 0 } else { i + 1 };
        self.item_selection = 0;
        self.current_section = section_for(self.section_index);
    }

    /// The previous section, round from the first to the last.
    pub fn prev_section(&mut self)
        ensures
            final(self).section_index == (if old(self).section_index == 0 {
                2
            } else {
                (old(self).section_index - 1) as usize
            }),
            final(self).current_section == section_at(final(self).section_index),
            final(self).item_selection == 0,
            final(self).filters == old(self).filters,
    {
        self.section_index = if self.section_index == 0 { 2 } else { self.section_index - 1 };
        self.item_selection = 0;
        self.current_section = section_for(self.section_index);
    }
}

impl<F> FilterDialogState<F> {
    /// Moves down: through the board's sprints (`sprint_count` of them; none
    /// without an active board) in the sprint section, then on to the next
    /// section; the other sections step to the next section.
    pub fn navigate_down(&mut self, sprint_count: Option<usize>)
        ensures
            ({
                let o = *old(self);
                let f = *final(self);
                let in_sprints = o.current_section == FilterDialogSection::Sprints;
                &&& f.filters == o.filters
                &&& in_sprints && sprint_count is None ==> f.section_index == o.section_index
                    && f.current_section == o.current_section && f.item_selection == o.item_selection
                &&& in_sprints && (sprint_count matches Some(n) && o.item_selection + 1 < n)
                    ==> f.section_index == o.section_index && f.current_section == o.current_section
                    && f.item_selection == o.item_selection + 1
                &&& (!in_sprints || (sprint_count matches Some(n) && o.item_selection + 1 >= n))
                    ==> f.section_index == (o.section_index + 1) % 3
                    && f.current_section == section_at(f.section_index) && f.item_selection == 0
            }),
    {
        if self.current_section == FilterDialogSection::Sprints {
            match sprint_count {
                None => {},
                Some(n) => {
                    let last = if n > 0 { n - 1 } else { 0 };
                    if self.item_selection < last {
                        self.item_selection = self.item_selection + 1;
                    } else {
                        self.next_section();
                    }
                },
            }
        } else {
            self.next_section();
        }
    }

    /// Moves up: through the sprints in the sprint section, from the first
    /// sprint on to the previous section; the other sections step to the
    /// previous section.
    pub fn navigate_up(&mut self)
        ensures
            ({
                let o = *old(self);
                let f = *final(self);
                let within = o.current_section == FilterDialogSection::Sprints && o.item_selection > 0;
                &&& f.filters == o.filters
                &&& within ==> f.section_index == o.section_index && f.current_section
                    == o.current_section && f.item_selection == o.item_selection - 1
                &&& !within ==> f.section_index == (if o.section_index == 0 { 2 } else { (o.section_index - 1) as usize })
                    && f.current_section == section_at(f.section_index) && f.item_selection == 0
            }),
    {
        if self.current_section == FilterDialogSection::Sprints && self.item_selection > 0 {
            self.item_selection = self.item_selection - 1;
        } else {
            self.prev_section();
        }
    }
}

/// Tab then Shift-Tab comes back to the section shown, from any of the
/// three sections.
pub proof fn lemma_prev_undoes_next(i: usize)
    requires
        i < 3,
    ensures
        ({
            let n = ((i + 1) % 3) as usize;
            (if n == 0 { 2usize } else { (n - 1) as usize }) == i
        }),
{
}

/// `s` without the occurrences of `id`.
pub open spec fn without(s: Seq<Uuid>, id: Uuid) -> Seq<Uuid>
    decreases s.len(),
{
    if s.len() == 0 {
        s
    } else {
        let r = without(s.drop_last(), id);
        if s.last() == id { r } else { r.push(s.last()) }
    }
}

/// The sprint-filter key, for a board whose active sprint is `active`: when
/// the filter holds that sprint it is taken out (every card is shown
/// again); otherwise the filter becomes that sprint alone.
pub fn toggle_sprint_filter(filters: &mut Vec<Uuid>, active: Uuid)
    ensures
        old(filters)@.contains(active) ==> final(filters)@ == without(old(filters)@, active),
        !old(filters)@.contains(active) ==> final(filters)@ == seq![active],
{
    let mut kept: Vec<Uuid> = Vec::new();
    let mut found = false;
    let mut i: usize = 0;
    while i < filters.len()
        invariant
            i <= filters@.len(),
            filters@ == old(filters)@,
            kept@ == without(filters@.take(i as int), active),
            found == filters@.take(i as int).contains(active),
        decreases filters@.len() - i,
    {
        let x = filters[i];
        let ghost t = filters@.take(i as int);
        assert(filters@.take(i + 1).drop_last() =~= t);
        assert(filters@.take(i + 1).last() == x);
        if same_id(&x, &active) {
            found = true;
            assert(filters@.take(i + 1)[i as int] == active);
        } else {
            kept.push(x);
            assert(filters@.take(i + 1).contains(active) ==> t.contains(active)) by {
                if filters@.take(i + 1).contains(active) {
                    let w = choose|w: int| 0 <= w < i + 1 && #[trigger] filters@.take(i + 1)[w] == active;
                    assert(t[w] == active);
                }
            }
        }
        proof {
            if t.contains(active) {
                let w = choose|w: int| 0 <= w < t.len() && #[trigger] t[w] == active;
                assert(filters@.take(i + 1)[w] == active);
            }
        }
        i = i + 1;
    }
    assert(filters@.take(i as int) =~= filters@);
    if found {
        *filters = kept;
    } else {
        filters.clear();
        filters.push(active);
        assert(filters@ =~= seq![active]);
    }
}

} // verus!

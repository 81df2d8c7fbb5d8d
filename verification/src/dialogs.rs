use vstd::prelude::*;
use uuid::Uuid;
use crate::ids::same_id;

verus! {

/// The board a sprint belongs to and whether it is still being planned.
#[derive(Debug, Clone, Copy)]
pub struct SprintSummary {
    pub board_id: Uuid,
    pub planning: bool,
}

/// What the selection dialogs read from the application: the selected
/// rows of the priority, sort-field, carry-over and sprint-assign lists,
/// the active board, its sprints, and the rows of the sprint-assign list.
pub struct DialogContext {
    pub priority_index: usize,
    pub sort_field_index: usize,
    pub carry_over_selection: Option<usize>,
    pub sprint_selection_index: usize,
    pub active_board_id: Option<Uuid>,
    pub sprints: Vec<SprintSummary>,
    pub sprint_entry_count: Option<usize>,
}

/// Number of sprints of `board` still in planning.
pub open spec fn planning_count(sprints: Seq<SprintSummary>, board: Uuid) -> nat
    decreases sprints.len(),
{
    if sprints.len() == 0 {
        0
    } else {
        planning_count(sprints.drop_last(), board) + if sprints.last().board_id == board
            && sprints.last().planning {
            1nat
        } else {
            0nat
        }
    }
}

/// A popup that picks one of a list of options.
pub trait SelectionDialog {
    fn title(&self) -> &'static str;

    fn get_current_selection(&self, ctx: &DialogContext) -> usize;

    fn options_count(&self, ctx: &DialogContext) -> usize;
}

/// Priority of one card: Low, Medium, High, Critical.
pub struct PriorityDialog;

/// Priority of several cards at once.
pub struct BulkPriorityDialog {
    pub count: usize,
}

/// Field the tasks are ordered by.
pub struct SortFieldDialog;

/// Planning sprint that unfinished cards are carried over to.
pub struct CarryOverSprintDialog {
    pub card_count: usize,
}

/// Sprint a card is assigned to.
pub struct SprintAssignDialog;

impl SelectionDialog for PriorityDialog {
    fn title(&self) -> (r: &'static str)
        ensures
            r@ == "Set Priority"@,
    {
        "Set Priority"
    }

    fn get_current_selection(&self, ctx: &DialogContext) -> (r: usize)
        ensures
            r == ctx.priority_index,
    {
        ctx.priority_index
    }

    fn options_count(&self, ctx: &DialogContext) -> (r: usize)
        ensures
            r == 4,
    {
        4
    }
}

impl SelectionDialog for BulkPriorityDialog {
    fn title(&self) -> (r: &'static str)
        ensures
            r@ == "Set Priority (Bulk)"@,
    {
        "Set Priority (Bulk)"
    }

    fn get_current_selection(&self, ctx: &DialogContext) -> (r: usize)
        ensures
            r == 0,
    {
        0
    }

    fn options_count(&self, ctx: &DialogContext) -> (r: usize)
        ensures
            r == 4,
    {
        4
    }
}

impl SelectionDialog for SortFieldDialog {
    fn title(&self) -> (r: &'static str)
        ensures
            r@ == "Order Tasks By"@,
    {
        "Order Tasks By"
    }

    fn get_current_selection(&self, ctx: &DialogContext) -> (r: usize)
        ensures
            r == ctx.sort_field_index,
    {
        ctx.sort_field_index
    }

    /// Points, priority, creation date, update date, status, position and
    /// task number.
    fn options_count(&self, ctx: &DialogContext) -> (r: usize)
        ensures
            r == 7,
    {
        7
    }
}

impl SelectionDialog for CarryOverSprintDialog {
    fn title(&self) -> (r: &'static str)
        ensures
            r@ == "Carry Over to Sprint"@,
    {
        "Carry Over to Sprint"
    }

    fn get_current_selection(&self, ctx: &DialogContext) -> (r: usize)
        ensures
            r == (match ctx.carry_over_selection {
                Some(i) => i,
                None => 0,
            }),
    {
        match ctx.carry_over_selection {
            Some(i) => i,
            None => 0,
        }
    }

    /// The active board's sprints in planning; none without an active board.
    fn options_count(&self, ctx: &DialogContext) -> (r: usize)
        ensures
            r == (match ctx.active_board_id {
                Some(b) => planning_count(ctx.sprints@, b),
                None => 0,
            }),
    {
        match ctx.active_board_id {
            Some(board) => {
                let mut n: usize = 0;
                let mut i: usize = 0;
                while i < ctx.sprints.len()
                    invariant
                        i <= ctx.sprints@.len(),
                        n == planning_count(ctx.sprints@.take(i as int), board),
                        n <= i,
                    decreases ctx.sprints@.len() - i,
                {
                    assert(ctx.sprints@.take(i + 1).drop_last() =~= ctx.sprints@.take(i as int));
                    let s = ctx.sprints[i];
                    if same_id(&s.board_id, &board) && s.planning {
                        n = n + 1;
                    }
                    i = i + 1;
                }
                assert(ctx.sprints@.take(i as int) =~= ctx.sprints@);
                n
            },
            None => 0,
        }
    }
}

impl SelectionDialog for SprintAssignDialog {
    fn title(&self) -> (r: &'static str)
        ensures
            r@ == "Assign to Sprint"@,
    {
        "Assign to Sprint"
    }

    fn get_current_selection(&self, ctx: &DialogContext) -> (r: usize)
        ensures
            r == ctx.sprint_selection_index,
    {
        ctx.sprint_selection_index
    }

    /// Rows of the sprint list; one ("(None)") without an active board.
    fn options_count(&self, ctx: &DialogContext) -> (r: usize)
        ensures
            r == (match ctx.sprint_entry_count {
                Some(n) => n,
                None => 1,
            }),
    {
        match ctx.sprint_entry_count {
            Some(n) => n,
            None => 1,
        }
    }
}

/// Priority of a card, in the order the priority dialog lists them.
#[derive(Debug, Clone, Copy, PartialEq, Eq, Structural)]
pub enum CardPriority {
    Low,
    Medium,
    High,
    Critical,
}

/// Row of priority `p` in the priority dialog.
pub open spec fn priority_row(p: CardPriority) -> usize {
    match p {
        CardPriority::Low => 0,
        CardPriority::Medium => 1,
        CardPriority::High => 2,
        CardPriority::Critical => 3,
    }
}

/// Row of the priority dialog for a card of priority `p` (the first row
/// when there is no card).
pub fn priority_selection_index(p: Option<CardPriority>) -> (r: usize)
    ensures
        r == (match p {
            Some(q) => priority_row(q),
            None => 0,
        }),
        r < 4,
{
    match p {
        Some(CardPriority::Low) => 0,
        Some(CardPriority::Medium) => 1,
        Some(CardPriority::High) => 2,
        Some(CardPriority::Critical) => 3,
        None => 0,
    }
}

} // verus!

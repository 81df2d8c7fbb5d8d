use vstd::prelude::*;
use uuid::Uuid;
use crate::app_state::SprintTaskPanel;
use crate::card_list_component::CardListAction;
use crate::keys::KeyInput;

verus! {

/// Direction of a sort.
#[derive(Debug, Clone, Copy, PartialEq, Eq, Structural)]
pub enum SortOrder {
    Ascending,
    Descending,
}

/// The other direction.
pub open spec fn flipped(o: SortOrder) -> SortOrder {
    match o {
        SortOrder::Ascending => SortOrder::Descending,
        SortOrder::Descending => SortOrder::Ascending,
    }
}

/// The sort order after the toggle key: flipped when a sort is set, unset
/// otherwise.
pub fn toggle_sort_order(current: Option<SortOrder>) -> (r: Option<SortOrder>)
    ensures
        r == (match current {
            Some(o) => Some(flipped(o)),
            None => None,
        }),
{
    match current {
        Some(SortOrder::Ascending) => Some(SortOrder::Descending),
        Some(SortOrder::Descending) => Some(SortOrder::Ascending),
        None => None,
    }
}

/// Toggling the sort order twice gives it back.
pub proof fn lemma_toggle_twice_restores(o: SortOrder)
    ensures
        flipped(flipped(o)) == o,
{
}

/// What a key does in the sprint detail view.
#[derive(Debug, Clone, Copy, PartialEq, Eq, Structural)]
pub enum SprintDetailCommand {
    Close,
    /// Apply `SprintAction::Activate` to the sprint.
    ActivateSprint,
    /// Apply `SprintAction::Complete` to the sprint.
    CompleteSprint,
    /// Apply `SprintAction::Cancel` to the sprint.
    CancelSprint,
    EditSprintPrefix,
    EditSprintCardPrefix,
    OpenSort,
    ToggleSortOrder,
    FocusPanel(SprintTaskPanel),
    Nothing,
    /// The key goes to the card list of the focused panel.
    ListKey,
}

/// The command of `key`; `active_sprint` tells whether the view shows a
/// sprint and whether it is completed. The panels can be switched only for
/// a completed sprint (only it has a completed-cards panel).
pub open spec fn sprint_detail_command(key: KeyInput, active_sprint: Option<bool>) -> SprintDetailCommand {
    let completed = active_sprint == Some(true);
    match key {
        KeyInput::Esc => SprintDetailCommand::Close,
        KeyInput::Left => if completed { SprintDetailCommand::FocusPanel(SprintTaskPanel::Uncompleted) } else { SprintDetailCommand::Nothing },
        KeyInput::Right => if completed { SprintDetailCommand::FocusPanel(SprintTaskPanel::Completed) } else { SprintDetailCommand::Nothing },
        KeyInput::Char(c) => if c == 'a' {
            SprintDetailCommand::ActivateSprint
        } else if c == 'c' {
            SprintDetailCommand::CompleteSprint
        } else if c == 'x' {
            SprintDetailCommand::CancelSprint
        } else if c == 'p' {
            if active_sprint is Some { SprintDetailCommand::EditSprintPrefix } else { SprintDetailCommand::Nothing }
        } else if c == 'C' {
            if active_sprint is Some { SprintDetailCommand::EditSprintCardPrefix } else { SprintDetailCommand::Nothing }
        } else if c == 'o' {
            SprintDetailCommand::OpenSort
        } else if c == 'O' {
            SprintDetailCommand::ToggleSortOrder
        } else if c == 'h' {
            if completed { SprintDetailCommand::FocusPanel(SprintTaskPanel::Uncompleted) } else { SprintDetailCommand::Nothing }
        } else if c == 'l' {
            if completed { SprintDetailCommand::FocusPanel(SprintTaskPanel::Completed) } else { SprintDetailCommand::Nothing }
        } else {
            SprintDetailCommand::ListKey
        },
        _ => SprintDetailCommand::ListKey,
    }
}

/// What `key` does in the sprint detail view (see `sprint_detail_command`).
pub fn route_sprint_detail_key(key: KeyInput, active_sprint: Option<bool>) -> (r: SprintDetailCommand)
    ensures
        r == sprint_detail_command(key, active_sprint),
{
    let completed = match active_sprint {
        Some(c) => c,
        None => false,
    };
    match key {
        KeyInput::Esc => SprintDetailCommand::Close,
        KeyInput::Left => if completed { SprintDetailCommand::FocusPanel(SprintTaskPanel::Uncompleted) } else { SprintDetailCommand::Nothing },
        KeyInput::Right => if completed { SprintDetailCommand::FocusPanel(SprintTaskPanel::Completed) } else { SprintDetailCommand::Nothing },
        KeyInput::Char(c) => if c == 'a' {
            SprintDetailCommand::ActivateSprint
        } else if c == 'c' {
            SprintDetailCommand::CompleteSprint
        } else if c == 'x' {
            SprintDetailCommand::CancelSprint
        } else if c == 'p' {
            if active_sprint.is_some() { SprintDetailCommand::EditSprintPrefix } else { SprintDetailCommand::Nothing }
        } else if c == 'C' {
            if active_sprint.is_some() { SprintDetailCommand::EditSprintCardPrefix } else { SprintDetailCommand::Nothing }
        } else if c == 'o' {
            SprintDetailCommand::OpenSort
        } else if c == 'O' {
            SprintDetailCommand::ToggleSortOrder
        } else if c == 'h' {
            if completed { SprintDetailCommand::FocusPanel(SprintTaskPanel::Uncompleted) } else { SprintDetailCommand::Nothing }
        } else if c == 'l' {
            if completed { SprintDetailCommand::FocusPanel(SprintTaskPanel::Completed) } else { SprintDetailCommand::Nothing }
        } else {
            SprintDetailCommand::ListKey
        },
        _ => SprintDetailCommand::ListKey,
    }
}

/// What the sprint view does with an action of its card lists.
#[derive(Debug, Clone, Copy, PartialEq)]
pub enum SprintListCommand {
    OpenCard(Uuid),
    ToggleCardDone(Uuid),
    SetPriority(Uuid),
    AssignSprint(Uuid),
    OpenSort,
    ToggleSortOrder,
    MoveCard(Uuid, bool),
    CreateCard,
    ToggleMultiSelect(Uuid),
    ClearMultiSelect,
    SelectAll,
    Nothing,
}

/// The command for a card-list action in the sprint view. Selecting and
/// editing both open the card; assigning a sprint needs a board with
/// sprints.
pub open spec fn sprint_list_command_of(action: CardListAction, board_has_sprints: bool) -> SprintListCommand {
    match action {
        CardListAction::Select(id) => SprintListCommand::OpenCard(id),
        CardListAction::Edit(id) => SprintListCommand::OpenCard(id),
        CardListAction::Complete(id) => SprintListCommand::ToggleCardDone(id),
        CardListAction::TogglePriority(id) => SprintListCommand::SetPriority(id),
        CardListAction::AssignSprint(id) => if board_has_sprints { SprintListCommand::AssignSprint(id) } else { SprintListCommand::Nothing },
        CardListAction::ReassignSprint(id) => if board_has_sprints { SprintListCommand::AssignSprint(id) } else { SprintListCommand::Nothing },
        CardListAction::Sort => SprintListCommand::OpenSort,
        CardListAction::OrderCards => SprintListCommand::ToggleSortOrder,
        CardListAction::MoveColumn(id, right) => SprintListCommand::MoveCard(id, right),
        CardListAction::Create => SprintListCommand::CreateCard,
        CardListAction::ToggleMultiSelect(id) => SprintListCommand::ToggleMultiSelect(id),
        CardListAction::ClearMultiSelect => SprintListCommand::ClearMultiSelect,
        CardListAction::SelectAll => SprintListCommand::SelectAll,
    }
}

/// See `sprint_list_command_of`.
pub fn sprint_list_command(action: CardListAction, board_has_sprints: bool) -> (r: SprintListCommand)
    ensures
        r == sprint_list_command_of(action, board_has_sprints),
{
    match action {
        CardListAction::Select(id) => SprintListCommand::OpenCard(id),
        CardListAction::Edit(id) => SprintListCommand::OpenCard(id),
        CardListAction::Complete(id) => SprintListCommand::ToggleCardDone(id),
        CardListAction::TogglePriority(id) => SprintListCommand::SetPriority(id),
        CardListAction::AssignSprint(id) => if board_has_sprints { SprintListCommand::AssignSprint(id) } else { SprintListCommand::Nothing },
        CardListAction::ReassignSprint(id) => if board_has_sprints { SprintListCommand::AssignSprint(id) } else { SprintListCommand::Nothing },
        CardListAction::Sort => SprintListCommand::OpenSort,
        CardListAction::OrderCards => SprintListCommand::ToggleSortOrder,
        CardListAction::MoveColumn(id, right) => SprintListCommand::MoveCard(id, right),
        CardListAction::Create => SprintListCommand::CreateCard,
        CardListAction::ToggleMultiSelect(id) => SprintListCommand::ToggleMultiSelect(id),
        CardListAction::ClearMultiSelect => SprintListCommand::ClearMultiSelect,
        CardListAction::SelectAll => SprintListCommand::SelectAll,
    }
}

} // verus!

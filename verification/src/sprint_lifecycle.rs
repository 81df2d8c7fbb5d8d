use vstd::prelude::*;

verus! {

/// Stage of a sprint.
#[derive(Debug, Clone, Copy, PartialEq, Eq, Structural)]
pub enum SprintStatus {
    Planning,
    Active,
    Completed,
    Cancelled,
}

/// What the sprint view asks of a sprint.
#[derive(Debug, Clone, Copy, PartialEq, Eq, Structural)]
pub enum SprintAction {
    Activate,
    Complete,
    Cancel,
}

/// The status after `action`, or `None` when the sprint's status does not
/// allow it: only a planned sprint is activated; a planned or active one is
/// completed or cancelled. Completed and cancelled sprints are finished.
pub open spec fn next_status(status: SprintStatus, action: SprintAction) -> Option<SprintStatus> {
    match action {
        SprintAction::Activate => if status == SprintStatus::Planning {
            Some(SprintStatus::Active)
        } else {
            None
        },
        SprintAction::Complete => if status == SprintStatus::Planning || status == SprintStatus::Active {
            Some(SprintStatus::Completed)
        } else {
            None
        },
        SprintAction::Cancel => if status == SprintStatus::Planning || status == SprintStatus::Active {
            Some(SprintStatus::Cancelled)
        } else {
            None
        },
    }
}

/// See `next_status`.
pub fn sprint_transition(status: SprintStatus, action: SprintAction) -> (r: Option<SprintStatus>)
    ensures
        r == next_status(status, action),
{
    match action {
        SprintAction::Activate => match status {
            SprintStatus::Planning => Some(SprintStatus::Active),
            _ => None,
        },
        SprintAction::Complete => match status {
            SprintStatus::Planning | SprintStatus::Active => Some(SprintStatus::Completed),
            _ => None,
        },
        SprintAction::Cancel => match status {
            SprintStatus::Planning | SprintStatus::Active => Some(SprintStatus::Cancelled),
            _ => None,
        },
    }
}

/// Length of a sprint being activated: the board's sprint length, or two
/// weeks.
pub fn sprint_duration_days(board_days: Option<u32>) -> (r: u32)
    ensures
        r == (match board_days {
            Some(d) => d,
            None => 14,
        }),
{
    match board_days {
        Some(d) => d,
        None => 14,
    }
}

/// A sprint only moves forward: no action takes it back to an earlier
/// stage, and a completed or cancelled sprint stays as it is.
pub proof fn lemma_sprints_move_forward(status: SprintStatus, action: SprintAction)
    ensures
        next_status(status, action) != Some(SprintStatus::Planning),
        status == SprintStatus::Completed ==> next_status(status, action) is None,
        status == SprintStatus::Cancelled ==> next_status(status, action) is None,
        status == SprintStatus::Active ==> next_status(status, action) != Some(SprintStatus::Active),
{
}

} // verus!

use vstd::prelude::*;
use crate::app_state::{AppMode, DialogMode};
use crate::keys::KeyInput;

verus! {

/// Work that a timer tick carries out for a choice made in the conflict
/// dialogs (which leave it as the pending key).
#[derive(Debug, Clone, Copy, PartialEq, Eq, Structural)]
pub enum TickTask {
    /// Keep our changes: overwrite the file.
    ForceOverwrite,
    /// Take their changes: reload the file and drop ours.
    ReloadFromDisk,
    /// Reload after an external change.
    AutoReload,
    /// Nothing to do.
    Idle,
}

/// The task a tick performs for `pending_key`, and the pending key after it:
/// `o`, `t` and `r` are consumed; any other pending key stays.
pub open spec fn tick_task_of(pending_key: Option<char>) -> (TickTask, Option<char>) {
    match pending_key {
        Some(c) => if c == 'o' {
            (TickTask::ForceOverwrite, None)
        } else if c == 't' {
            (TickTask::ReloadFromDisk, None)
        } else if c == 'r' {
            (TickTask::AutoReload, None)
        } else {
            (TickTask::Idle, pending_key)
        },
        None => (TickTask::Idle, None),
    }
}

/// See `tick_task_of`.
pub fn tick_task(pending_key: Option<char>) -> (r: (TickTask, Option<char>))
    ensures
        r == tick_task_of(pending_key),
{
    match pending_key {
        Some(c) => if c == 'o' {
            (TickTask::ForceOverwrite, None)
        } else if c == 't' {
            (TickTask::ReloadFromDisk, None)
        } else if c == 'r' {
            (TickTask::AutoReload, None)
        } else {
            (TickTask::Idle, pending_key)
        },
        None => (TickTask::Idle, None),
    }
}

/// What to do when the data file changed on disk.
#[derive(Debug, Clone, Copy, PartialEq, Eq, Structural)]
pub enum ExternalChangeAction {
    /// The change is our own save, or the user is already being asked.
    Ignore,
    /// No local changes would be lost: reload silently.
    AutoReload,
    /// Local changes would be lost: ask the user.
    AskUser,
}

/// The reaction to a change of the data file. `written_by_us` is whether
/// the file's metadata names this instance as its writer (none when it could
/// not be read); `dirty` whether there are unsaved local changes.
pub open spec fn external_change_of(written_by_us: Option<bool>, dirty: bool, mode: AppMode) -> ExternalChangeAction {
    if written_by_us == Some(true) {
        ExternalChangeAction::Ignore
    } else if !dirty {
        ExternalChangeAction::AutoReload
    } else if mode == AppMode::Dialog(DialogMode::ConflictResolution) || mode == AppMode::Dialog(
        DialogMode::ExternalChangeDetected,
    ) {
        ExternalChangeAction::Ignore
    } else {
        ExternalChangeAction::AskUser
    }
}

/// See `external_change_of`.
pub fn external_change_action(written_by_us: Option<bool>, dirty: bool, mode: &AppMode) -> (r: ExternalChangeAction)
    ensures
        r == external_change_of(written_by_us, dirty, *mode),
{
    if written_by_us == Some(true) {
        return ExternalChangeAction::Ignore;
    }
    if !dirty {
        return ExternalChangeAction::AutoReload;
    }
    let asking = match mode {
        AppMode::Dialog(DialogMode::ConflictResolution) => true,
        AppMode::Dialog(DialogMode::ExternalChangeDetected) => true,
        _ => false,
    };
    if asking {
        ExternalChangeAction::Ignore
    } else {
        ExternalChangeAction::AskUser
    }
}

/// Unsaved local changes are never thrown away silently: with local
/// changes, an external change is ignored or put to the user, never
/// reloaded; and the instance's own saves never cause a reload.
pub proof fn lemma_no_silent_loss(written_by_us: Option<bool>, dirty: bool, mode: AppMode)
    ensures
        dirty ==> external_change_of(written_by_us, dirty, mode) != ExternalChangeAction::AutoReload,
        written_by_us == Some(true) ==> external_change_of(written_by_us, dirty, mode) == ExternalChangeAction::Ignore,
{
}

/// The "quit with pending saves" confirmation after a save completed: once
/// no saves are pending it is withdrawn.
pub fn quit_confirmation_after_save(quit_with_pending: bool, has_pending_saves: bool) -> (r: bool)
    ensures
        r == (quit_with_pending && has_pending_saves),
{
    if !has_pending_saves {
        false
    } else {
        quit_with_pending
    }
}

/// Milliseconds after which an action picked in the help list runs.
pub const HELP_ACTION_DELAY_MS: u64 = 100;

/// Whether an action picked in the help list `elapsed_ms` milliseconds ago
/// is due.
pub fn help_action_due(elapsed_ms: u64) -> (r: bool)
    ensures
        r == (elapsed_ms >= HELP_ACTION_DELAY_MS),
{
    elapsed_ms >= HELP_ACTION_DELAY_MS
}

/// How a conflict dialog closes: the key it leaves pending for the next
/// tick, and whether the recorded conflict is dropped.
#[derive(Debug, Clone, Copy, PartialEq, Eq, Structural)]
pub struct DialogExit {
    pub pending_key: Option<char>,
    pub clear_conflict: bool,
}

/// The save-conflict dialog: `o` keeps our changes (the next tick
/// overwrites the file), `t` takes theirs (the next tick reloads), Esc
/// retries later (dropping the conflict). Other keys keep it open (`None`).
pub open spec fn conflict_resolution_exit(key: KeyInput) -> Option<DialogExit> {
    if key == KeyInput::Char('o') || key == KeyInput::Char('O') {
        Some(DialogExit { pending_key: Some('o'), clear_conflict: false })
    } else if key == KeyInput::Char('t') || key == KeyInput::Char('T') {
        Some(DialogExit { pending_key: Some('t'), clear_conflict: false })
    } else if key == KeyInput::Esc {
        Some(DialogExit { pending_key: None, clear_conflict: true })
    } else {
        None
    }
}

/// See `conflict_resolution_exit`.
pub fn conflict_resolution_key(key: KeyInput) -> (r: Option<DialogExit>)
    ensures
        r == conflict_resolution_exit(key),
{
    if key == KeyInput::Char('o') || key == KeyInput::Char('O') {
        Some(DialogExit { pending_key: Some('o'), clear_conflict: false })
    } else if key == KeyInput::Char('t') || key == KeyInput::Char('T') {
        Some(DialogExit { pending_key: Some('t'), clear_conflict: false })
    } else if key == KeyInput::Esc {
        Some(DialogExit { pending_key: None, clear_conflict: true })
    } else {
        None
    }
}

/// The external-change dialog: `r` reloads the file (on the next tick,
/// discarding local changes), `k` and Esc keep the local changes. Other keys
/// keep it open (`None`).
pub open spec fn external_change_exit(key: KeyInput) -> Option<DialogExit> {
    if key == KeyInput::Char('r') || key == KeyInput::Char('R') {
        Some(DialogExit { pending_key: Some('r'), clear_conflict: false })
    } else if key == KeyInput::Char('k') || key == KeyInput::Char('K') || key == KeyInput::Esc {
        Some(DialogExit { pending_key: None, clear_conflict: false })
    } else {
        None
    }
}

/// See `external_change_exit`.
pub fn external_change_key(key: KeyInput) -> (r: Option<DialogExit>)
    ensures
        r == external_change_exit(key),
{
    if key == KeyInput::Char('r') || key == KeyInput::Char('R') {
        Some(DialogExit { pending_key: Some('r'), clear_conflict: false })
    } else if key == KeyInput::Char('k') || key == KeyInput::Char('K') || key == KeyInput::Esc {
        Some(DialogExit { pending_key: None, clear_conflict: false })
    } else {
        None
    }
}

/// A choice made in a conflict dialog is carried out by the next tick:
/// keeping ours overwrites the file, taking theirs or reloading reloads it,
/// and the other ways out start nothing.
pub proof fn lemma_dialog_choices_reach_the_tick(key: KeyInput)
    ensures
        conflict_resolution_exit(key) matches Some(e) ==> tick_task_of(e.pending_key).0 == (if key
            == KeyInput::Char('o') || key == KeyInput::Char('O') {
            TickTask::ForceOverwrite
        } else if key == KeyInput::Char('t') || key == KeyInput::Char('T') {
            TickTask::ReloadFromDisk
        } else {
            TickTask::Idle
        }),
        external_change_exit(key) matches Some(e) ==> tick_task_of(e.pending_key).0 == (if key
            == KeyInput::Char('r') || key == KeyInput::Char('R') {
            TickTask::AutoReload
        } else {
            TickTask::Idle
        }),
        conflict_resolution_exit(key) matches Some(e) ==> tick_task_of(e.pending_key).1 is None,
        external_change_exit(key) matches Some(e) ==> tick_task_of(e.pending_key).1 is None,
{
}

} // verus!

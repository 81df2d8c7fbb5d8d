use vstd::prelude::*;
use crate::keys::KeyInput;
use crate::text::{chars_of, string_from_chars, string_push};

verus! {

/// Which main-view panel has the keyboard.
#[derive(Debug, Clone, Copy, PartialEq, Eq, Structural)]
pub enum Focus {
    Boards,
    Cards,
}

impl Default for Focus {
    fn default() -> (f: Self)
        ensures
            f == Focus::Boards,
    {
        Focus::Boards
    }
}

/// Panels of the card detail view.
#[derive(Debug, Clone, Copy, PartialEq, Eq, Structural)]
pub enum CardFocus {
    Title,
    Metadata,
    Description,
    Parents,
    Children,
}

impl Default for CardFocus {
    fn default() -> (f: Self)
        ensures
            f == CardFocus::Title,
    {
        CardFocus::Title
    }
}

/// Panels of the board detail view.
#[derive(Debug, Clone, Copy, PartialEq, Eq, Structural)]
pub enum BoardFocus {
    Name,
    Description,
    Settings,
    Sprints,
    Columns,
}

impl Default for BoardFocus {
    fn default() -> (f: Self)
        ensures
            f == BoardFocus::Name,
    {
        BoardFocus::Name
    }
}

/// Panels of the settings view.
#[derive(Debug, Clone, Copy, PartialEq, Eq, Structural)]
pub enum SettingsFocus {
    Configuration,
    ConfigFile,
    Storage,
}

impl Default for SettingsFocus {
    fn default() -> (f: Self)
        ensures
            f == SettingsFocus::Configuration,
    {
        SettingsFocus::Configuration
    }
}

/// Keyboard focus of every view.
#[derive(Debug, Clone, Copy, PartialEq, Eq, Structural)]
pub struct FocusState {
    pub active: Focus,
    pub card_focus: CardFocus,
    pub board_focus: BoardFocus,
    pub settings_focus: SettingsFocus,
}

impl Default for FocusState {
    fn default() -> (f: Self)
        ensures
            f.active == Focus::Boards,
            f.card_focus == CardFocus::Title,
            f.board_focus == BoardFocus::Name,
            f.settings_focus == SettingsFocus::Configuration,
    {
        FocusState {
            active: Focus::Boards,
            card_focus: CardFocus::Title,
            board_focus: BoardFocus::Name,
            settings_focus: SettingsFocus::Configuration,
        }
    }
}

/// The two task panels of the sprint detail view.
#[derive(Debug, Clone, Copy, PartialEq, Eq, Structural)]
pub enum SprintTaskPanel {
    Uncompleted,
    Completed,
}

/// Card fields edited in the external editor.
#[derive(Debug, Clone, Copy, PartialEq, Eq, Structural)]
pub enum CardField {
    Title,
    Description,
}

/// Board fields edited in the external editor.
#[derive(Debug, Clone, Copy, PartialEq, Eq, Structural)]
pub enum BoardField {
    Name,
    Description,
}

/// Field of the create-card dialog that has the keyboard.
#[derive(Debug, Clone, Copy, PartialEq, Eq, Structural)]
pub enum CreateCardFocus {
    Title,
    Sprint,
}

impl Default for CreateCardFocus {
    fn default() -> (f: Self)
        ensures
            f == CreateCardFocus::Title,
    {
        CreateCardFocus::Title
    }
}

/// The dialogs of the application.
#[derive(Debug, Clone, Copy, PartialEq, Eq, Structural)]
pub enum DialogMode {
    CreateBoard,
    CreateCard,
    RenameBoard,
    ExportBoard,
    ExportAll,
    ImportBoard,
    SetCardPoints,
    SetCardPriority,
    SetMultipleCardsPriority,
    SetBranchPrefix,
    OrderCards,
    CreateSprint,
    AssignCardToSprint,
    AssignMultipleCardsToSprint,
    CreateColumn,
    RenameColumn,
    DeleteColumnConfirm,
    SelectTaskListView,
    SetSprintPrefix,
    SetSprintCardPrefix,
    ConfirmSprintPrefixCollision,
    FilterOptions,
    ConflictResolution,
    ExternalChangeDetected,
    ManageParents,
    ManageChildren,
    CarryOverSprint,
    ExportBoards,
}

/// The views of the application. Help remembers the view it covers.
#[derive(Debug, PartialEq, Eq)]
pub enum AppMode {
    Normal,
    CardDetail,
    BoardDetail,
    SprintDetail,
    Search,
    ArchivedCardsView,
    Settings,
    ErrorLog,
    Help(Box<AppMode>),
    Dialog(DialogMode),
}

/// A copy of `m`.
pub fn clone_mode(m: &AppMode) -> (r: AppMode)
    ensures
        r == *m,
    decreases m,
{
    match m {
        AppMode::Normal => AppMode::Normal,
        AppMode::CardDetail => AppMode::CardDetail,
        AppMode::BoardDetail => AppMode::BoardDetail,
        AppMode::SprintDetail => AppMode::SprintDetail,
        AppMode::Search => AppMode::Search,
        AppMode::ArchivedCardsView => AppMode::ArchivedCardsView,
        AppMode::Settings => AppMode::Settings,
        AppMode::ErrorLog => AppMode::ErrorLog,
        AppMode::Help(inner) => AppMode::Help(Box::new(clone_mode(inner))),
        AppMode::Dialog(d) => AppMode::Dialog(*d),
    }
}

/// Mode and stack after opening `new_mode` over `mode`.
pub open spec fn pushed(mode: AppMode, stack: Seq<AppMode>, new_mode: AppMode) -> (
    AppMode,
    Seq<AppMode>,
) {
    (new_mode, stack.push(mode))
}

/// Mode and stack after closing the current view.
pub open spec fn popped(stack: Seq<AppMode>) -> (AppMode, Seq<AppMode>) {
    if stack.len() > 0 {
        (stack.last(), stack.drop_last())
    } else {
        (AppMode::Normal, stack)
    }
}

/// The current view and the views it was opened from.
pub struct ModeState {
    pub mode: AppMode,
    pub mode_stack: Vec<AppMode>,
}

impl ModeState {
    /// The main view with nothing beneath it.
    pub fn new() -> (s: Self)
        ensures
            s.mode == AppMode::Normal,
            s.mode_stack@.len() == 0,
    {
        ModeState { mode: AppMode::Normal, mode_stack: Vec::new() }
    }

    /// Opens `new_mode` on top of the current view.
    pub fn push_mode(&mut self, new_mode: AppMode)
        ensures
            (final(self).mode, final(self).mode_stack@) == pushed(
                old(self).mode,
                old(self).mode_stack@,
                new_mode,
            ),
    {
        let current = clone_mode(&self.mode);
        self.mode_stack.push(current);
        self.mode = new_mode;
    }

    /// Returns to the view beneath the current one (the main view when none is).
    pub fn pop_mode(&mut self)
        ensures
            (final(self).mode, final(self).mode_stack@) == popped(old(self).mode_stack@),
    {
        self.mode = match self.mode_stack.pop() {
            Some(m) => m,
            None => AppMode::Normal,
        };
    }

    pub fn is_dialog_mode(&self) -> (r: bool)
        ensures
            r == (self.mode is Dialog),
    {
        match self.mode {
            AppMode::Dialog(_) => true,
            _ => false,
        }
    }

    /// Opens a dialog on top of the current view.
    pub fn open_dialog(&mut self, dialog: DialogMode)
        ensures
            final(self).mode == AppMode::Dialog(dialog),
            final(self).mode_stack@ == old(self).mode_stack@.push(old(self).mode),
    {
        self.push_mode(AppMode::Dialog(dialog));
    }

    /// The view a dialog was opened over, or the current view when no dialog
    /// is open.
    pub fn get_base_mode(&self) -> (r: AppMode)
        ensures
            r == (if self.mode is Dialog {
                if self.mode_stack@.len() > 0 {
                    self.mode_stack@.last()
                } else {
                    AppMode::Normal
                }
            } else {
                self.mode
            }),
    {
        if self.is_dialog_mode() {
            let n = self.mode_stack.len();
            if n > 0 {
                clone_mode(&self.mode_stack[n - 1])
            } else {
                AppMode::Normal
            }
        } else {
            clone_mode(&self.mode)
        }
    }
}

/// Closing a view returns to the view it was opened from: a push followed by a
/// pop leaves the mode and the stack as they were.
pub proof fn lemma_pop_undoes_push(mode: AppMode, stack: Seq<AppMode>, new_mode: AppMode)
    ensures
        ({
            let (m1, s1) = pushed(mode, stack, new_mode);
            popped(s1) == (mode, stack)
        }),
{
    assert(stack.push(mode).drop_last() =~= stack);
}

} // verus!

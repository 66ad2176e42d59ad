//! The decisions of the interactive helper: which menu comes next after each choice.
use vstd::prelude::*;

verus! {

/// Where the helper is.
#[derive(Debug, Clone, Copy, PartialEq, Eq, Structural)]
pub enum AppState {
    /// At the main menu.
    Enter,
    /// Done.
    Exit,
}

/// A choice of the main menu.
#[derive(Debug, Clone, Copy, PartialEq, Eq, Structural)]
pub enum MainSelection {
    NewWorkspace,
    OpenWorkspace,
    Exit,
}

/// A choice of the workspace menu.
#[derive(Debug, Clone, Copy, PartialEq, Eq, Structural)]
pub enum WorkspaceSelection {
    Info,
    Package,
    Back,
}

/// The kind of file into which a new workspace extracts its stickers.
#[derive(Debug, Clone, Copy, PartialEq, Eq, Structural)]
pub enum StickerPackType {
    Dds,
    Png,
}

/// What the helper does next after a choice of the main menu.
#[derive(Debug, Clone, Copy, PartialEq, Eq, Structural)]
pub enum MainAction {
    /// Ask for a name and create a workspace.
    CreateWorkspace,
    /// List the workspaces and open one.
    OpenWorkspace,
    /// Nothing more: the helper ends.
    Quit,
}

/// What the helper does next after a choice of the workspace menu.
#[derive(Debug, Clone, Copy, PartialEq, Eq, Structural)]
pub enum WorkspaceAction {
    /// Show the workspace's version, path, counts and changed stickers, then ask again.
    ShowInfo,
    /// Convert the changed stickers to TEX and pack them, then ask again.
    Package,
    /// Go back to the main menu.
    Leave,
}

/// The main menu's choices, in display order.
pub open spec fn main_selection_at(index: usize) -> MainSelection {
    if index == 0 {
        MainSelection::NewWorkspace
    } else if index == 1 {
        MainSelection::OpenWorkspace
    } else {
        MainSelection::Exit
    }
}

/// The workspace menu's choices, in display order.
pub open spec fn workspace_selection_at(index: usize) -> WorkspaceSelection {
    if index == 0 {
        WorkspaceSelection::Info
    } else if index == 1 {
        WorkspaceSelection::Package
    } else {
        WorkspaceSelection::Back
    }
}

impl MainSelection {
    /// The choice shown at position `index` of the main menu.
    pub fn from_index(index: usize) -> (r: MainSelection)
        requires
            index < 3,
        ensures
            r == main_selection_at(index),
    {
        if index == 0 {
            MainSelection::NewWorkspace
        } else if index == 1 {
            MainSelection::OpenWorkspace
        } else {
            MainSelection::Exit
        }
    }
}

impl WorkspaceSelection {
    /// The choice shown at position `index` of the workspace menu.
    pub fn from_index(index: usize) -> (r: WorkspaceSelection)
        requires
            index < 3,
        ensures
            r == workspace_selection_at(index),
    {
        if index == 0 {
            WorkspaceSelection::Info
        } else if index == 1 {
            WorkspaceSelection::Package
        } else {
            WorkspaceSelection::Back
        }
    }

    /// What follows this choice.
    pub fn action(&self) -> (r: WorkspaceAction)
        ensures
            *self == WorkspaceSelection::Info ==> r == WorkspaceAction::ShowInfo,
            *self == WorkspaceSelection::Package ==> r == WorkspaceAction::Package,
            *self == WorkspaceSelection::Back ==> r == WorkspaceAction::Leave,
    {
        match self {
            WorkspaceSelection::Info => WorkspaceAction::ShowInfo,
            WorkspaceSelection::Package => WorkspaceAction::Package,
            WorkspaceSelection::Back => WorkspaceAction::Leave,
        }
    }
}

impl StickerPackType {
    /// The pack type chosen at position `index` of the format menu.
    pub fn from_index(index: usize) -> (r: StickerPackType)
        requires
            index < 2,
        ensures
            index == 0 ==> r == StickerPackType::Dds,
            index == 1 ==> r == StickerPackType::Png,
    {
        if index == 0 {
            StickerPackType::Dds
        } else {
            StickerPackType::Png
        }
    }
}

/// The interactive helper's state.
pub struct App {
    state: AppState,
}

impl App {
    /// The state.
    pub closed spec fn spec_state(&self) -> AppState {
        self.state
    }

    /// A helper at the main menu.
    pub fn new() -> (r: App)
        ensures
            r.spec_state() == AppState::Enter,
    {
        App { state: AppState::Enter }
    }

    /// The state.
    pub fn state(&self) -> (r: AppState)
        ensures
            r == self.spec_state(),
    {
        self.state
    }

    /// Whether the main menu is shown again.
    pub fn is_running(&self) -> (r: bool)
        ensures
            r == (self.spec_state() == AppState::Enter),
    {
        self.state == AppState::Enter
    }

    /// Takes a choice of the main menu: leaving ends the helper; the other choices keep it
    /// at the main menu and name the work to do.
    pub fn on_main_selection(&mut self, selection: MainSelection) -> (r: MainAction)
        ensures
            selection == MainSelection::NewWorkspace ==> r == MainAction::CreateWorkspace
                && final(self).spec_state() == old(self).spec_state(),
            selection == MainSelection::OpenWorkspace ==> r == MainAction::OpenWorkspace
                && final(self).spec_state() == old(self).spec_state(),
            selection == MainSelection::Exit ==> r == MainAction::Quit && final(self).spec_state()
                == AppState::Exit,
    {
        match selection {
            MainSelection::NewWorkspace => MainAction::CreateWorkspace,
            MainSelection::OpenWorkspace => MainAction::OpenWorkspace,
            MainSelection::Exit => {
                self.state = AppState::Exit;
                MainAction::Quit
            },
        }
    }
}

} // verus!

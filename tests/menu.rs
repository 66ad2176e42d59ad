use tex_convert::menu::{
    App, AppState, MainAction, MainSelection, StickerPackType, WorkspaceAction, WorkspaceSelection,
};

#[test]
fn new_app_is_at_main_menu() {
    let app = App::new();
    assert_eq!(app.state(), AppState::Enter);
    assert!(app.is_running());
}

#[test]
fn main_menu_choices() {
    let mut app = App::new();
    assert_eq!(app.on_main_selection(MainSelection::from_index(0)), MainAction::CreateWorkspace);
    assert!(app.is_running());
    assert_eq!(app.on_main_selection(MainSelection::from_index(1)), MainAction::OpenWorkspace);
    assert!(app.is_running());
    assert_eq!(app.on_main_selection(MainSelection::from_index(2)), MainAction::Quit);
    assert_eq!(app.state(), AppState::Exit);
    assert!(!app.is_running());
}

#[test]
fn workspace_menu_choices() {
    assert_eq!(WorkspaceSelection::from_index(0).action(), WorkspaceAction::ShowInfo);
    assert_eq!(WorkspaceSelection::from_index(1).action(), WorkspaceAction::Package);
    assert_eq!(WorkspaceSelection::from_index(2).action(), WorkspaceAction::Leave);
    assert_eq!(StickerPackType::from_index(0), StickerPackType::Dds);
    assert_eq!(StickerPackType::from_index(1), StickerPackType::Png);
}

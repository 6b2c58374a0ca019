//! Which page of the launcher is shown.

use vstd::prelude::*;

verus! {

/// The pages of the launcher.
#[derive(Debug, Clone, Copy, PartialEq, Eq, Structural)]
pub enum Pages {
    Home,
    Create,
    Accounts,
    Settings,
}

/// The buttons of the sidebar.
#[derive(Debug, Clone, Copy, PartialEq, Eq, Structural)]
pub enum SidebarMessage {
    HomeButton,
    CreateButton,
    AccountsButton,
    SettingsButton,
}

/// The looks of a button.
#[derive(Debug, Clone, Copy, PartialEq, Eq, Structural)]
pub enum ButtonTheme {
    Default,
    Sidebar,
}

impl Default for ButtonTheme {
    fn default() -> (theme: Self)
        ensures
            theme == ButtonTheme::Default,
    {
        ButtonTheme::Default
    }
}

/// The page that a button of the sidebar leads to.
pub open spec fn page_of(message: SidebarMessage) -> Pages {
    match message {
        SidebarMessage::HomeButton => Pages::Home,
        SidebarMessage::CreateButton => Pages::Create,
        SidebarMessage::AccountsButton => Pages::Accounts,
        SidebarMessage::SettingsButton => Pages::Settings,
    }
}

impl Pages {
    /// Shows the page that the pressed button leads to.
    pub fn switch_page(page: &mut Pages, message: SidebarMessage)
        ensures
            *final(page) == page_of(message),
    {
        *page = match message {
            SidebarMessage::HomeButton => Pages::Home,
            SidebarMessage::CreateButton => Pages::Create,
            SidebarMessage::AccountsButton => Pages::Accounts,
            SidebarMessage::SettingsButton => Pages::Settings,
        };
    }
}

} // verus!

//! The pages of the menu and the way from one to the next.

use vstd::prelude::*;

verus! {

/// A page of the menu. Exactly one is shown at a time.
#[derive(Clone, Copy, Debug, PartialEq, Eq, Structural)]
pub enum Menu {
    Main,
    /// Shown for one cycle only: the first display is captured and the main
    /// page comes back.
    FullScreen,
    ScreenSelector,
    Info,
    License,
    Contrib,
    /// The end: nothing leaves this page.
    Exit,
}

/// What one cycle of the user interface brings: a button press, or nothing.
#[derive(Clone, Copy, Debug, PartialEq, Eq, Structural)]
pub enum Event {
    /// The page was drawn and no button was pressed.
    Redraw,
    /// Main page: "Full Screen".
    FullScreen,
    /// Main page: "Select Screen".
    SelectScreen,
    /// Main page: "Information".
    Information,
    /// Main page: "Exit".
    Exit,
    /// Selector page: the button of the display at this place in the list.
    PickScreen(usize),
    /// Selector page: "Capture Screenshot".
    Capture,
    /// Information page: "License".
    License,
    /// Information page: "Contributors".
    Contributors,
    /// "Back", on every page that has it.
    Back,
}

/// The transition table: the page that follows `page` on `event`. A press
/// that the page has no button for leaves the page as it is. Nothing is asked
/// of the state but the page itself.
pub open spec fn next_page(page: Menu, event: Event) -> Menu {
    match (page, event) {
        (Menu::Main, Event::FullScreen) => Menu::FullScreen,
        (Menu::Main, Event::SelectScreen) => Menu::ScreenSelector,
        (Menu::Main, Event::Information) => Menu::Info,
        (Menu::Main, Event::Exit) => Menu::Exit,
        (Menu::FullScreen, _) => Menu::Main,
        (Menu::ScreenSelector, Event::Back) => Menu::Main,
        (Menu::Info, Event::License) => Menu::License,
        (Menu::Info, Event::Contributors) => Menu::Contrib,
        (Menu::Info, Event::Back) => Menu::Main,
        (Menu::License, Event::Back) => Menu::Info,
        (Menu::Contrib, Event::Back) => Menu::Info,
        (page, _) => page,
    }
}

impl Menu {
    /// The page that follows this one on `event`.
    pub fn next(self, event: Event) -> (page: Menu)
        ensures
            page == next_page(self, event),
    {
        match (self, event) {
            (Menu::Main, Event::FullScreen) => Menu::FullScreen,
            (Menu::Main, Event::SelectScreen) => Menu::ScreenSelector,
            (Menu::Main, Event::Information) => Menu::Info,
            (Menu::Main, Event::Exit) => Menu::Exit,
            (Menu::FullScreen, _) => Menu::Main,
            (Menu::ScreenSelector, Event::Back) => Menu::Main,
            (Menu::Info, Event::License) => Menu::License,
            (Menu::Info, Event::Contributors) => Menu::Contrib,
            (Menu::Info, Event::Back) => Menu::Main,
            (Menu::License, Event::Back) => Menu::Info,
            (Menu::Contrib, Event::Back) => Menu::Info,
            (page, _) => page,
        }
    }
}

impl Default for Menu {
    fn default() -> (page: Menu)
        ensures
            page == Menu::Main,
    {
        Menu::Main
    }
}

} // verus!

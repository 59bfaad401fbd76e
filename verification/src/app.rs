//! The controller: the one owner of the page shown, the list of displays,
//! the selected display and the path chosen for the file.

use vstd::prelude::*;
use crate::bitmap::{captured, png_encoding, rgba_len, RawFrame};
use crate::display::{default_filename, described, Display};
use crate::menu::{next_page, Event, Menu};
use crate::outcome::{outcome_of, FailureView, Outcome, OutcomeView};
use crate::save::{plan_save, SaveStep, SaveStepView};

verus! {

/// What the host has to do after a cycle.
#[derive(Clone, Debug, PartialEq, Eq)]
pub enum Effect {
    /// Nothing.
    Idle,
    /// Capture this display, once, and hand the result to
    /// `App::take_screenshot`.
    Capture(Display),
    /// Report this outcome.
    Notify(Outcome),
    /// End the program in good order, with status 0.
    Shutdown,
}

/// The state of the controller as plain values.
pub struct AppView {
    pub page: Menu,
    pub displays: Seq<Display>,
    pub selected: Option<usize>,
    pub save_path: Seq<char>,
}

impl AppView {
    /// The selected display, if there is one, is a place in the list.
    pub open spec fn wf(self) -> bool {
        self.selected matches Some(i) ==> i < self.displays.len()
    }
}

/// The selection after `event`: a press on the button of a display that is in
/// the list selects it, on the selector page; everything else leaves the
/// selection as it was.
pub open spec fn next_selection(state: AppView, event: Event) -> Option<usize> {
    match (state.page, event) {
        (Menu::ScreenSelector, Event::PickScreen(i)) => if i < state.displays.len() {
            Some(i)
        } else {
            state.selected
        },
        _ => state.selected,
    }
}

/// The state after `event`. The list of displays and the chosen path are not
/// touched.
pub open spec fn after(state: AppView, event: Event) -> AppView {
    AppView {
        page: next_page(state.page, event),
        displays: state.displays,
        selected: next_selection(state, event),
        save_path: state.save_path,
    }
}

/// What the host is asked to do on `event`.
///
/// The full-screen page asks for the first display of the list, whatever the
/// event, and reports that there is none when the list is empty. The selector
/// page asks for the selected display when "Capture Screenshot" is pressed.
/// A cycle that ends on the exit page asks for the shutdown.
pub open spec fn effect_of(state: AppView, event: Event) -> Effect {
    match state.page {
        Menu::FullScreen => if state.displays.len() > 0 {
            Effect::Capture(state.displays[0])
        } else {
            Effect::Notify(Outcome::NoDisplayAvailable)
        },
        Menu::ScreenSelector => match (event, state.selected) {
            (Event::Capture, Some(i)) => Effect::Capture(state.displays[i as int]),
            _ => Effect::Idle,
        },
        page => if next_page(page, event) == Menu::Exit {
            Effect::Shutdown
        } else {
            Effect::Idle
        },
    }
}

/// The path a capture of `display` is saved to: the path the user chose, or
/// the default name of the display while none is chosen.
pub open spec fn save_target(save_path: Seq<char>, display: Display) -> Seq<char> {
    if save_path.len() == 0 {
        default_filename(display.id)
    } else {
        save_path
    }
}

/// The controller of the tool.
pub struct App {
    main_menu: Menu,
    screens: Vec<Display>,
    selected_screen: Option<usize>,
    save_path: String,
}

impl View for App {
    type V = AppView;

    closed spec fn view(&self) -> AppView {
        AppView {
            page: self.main_menu,
            displays: self.screens@,
            selected: self.selected_screen,
            save_path: self.save_path@,
        }
    }
}

impl App {
    #[verifier::type_invariant]
    spec fn selection_in_list(self) -> bool {
        self.selected_screen matches Some(i) ==> i < self.screens@.len()
    }

    /// The controller at the start of the program, given what the listing of
    /// the displays returned. A listing that failed counts as an empty list.
    pub fn new(listing: Result<Vec<Display>, String>) -> (app: App)
        ensures
            app@ == (AppView {
                page: Menu::Main,
                displays: match listing {
                    Ok(screens) => screens@,
                    Err(_) => Seq::empty(),
                },
                selected: None,
                save_path: Seq::empty(),
            }),
            app@.wf(),
    {
        let screens = match listing {
            Ok(screens) => screens,
            Err(_) => Vec::new(),
        };
        App { main_menu: Menu::Main, screens, selected_screen: None, save_path: String::new() }
    }

    /// The page shown.
    pub fn page(&self) -> (page: Menu)
        ensures
            page == self@.page,
    {
        self.main_menu
    }

    /// The displays, in the order in which they were listed.
    pub fn screens(&self) -> (screens: &Vec<Display>)
        ensures
            screens@ == self@.displays,
    {
        &self.screens
    }

    /// The place of the selected display in the list.
    pub fn selected_screen(&self) -> (selected: Option<usize>)
        ensures
            selected == self@.selected,
            self@.wf(),
    {
        proof {
            use_type_invariant(self);
        }
        self.selected_screen
    }

    /// The path chosen for the file; empty while none is chosen.
    pub fn save_path(&self) -> (path: &String)
        ensures
            path@ == self@.save_path,
    {
        &self.save_path
    }

    /// The texts of the buttons of the selector page, one for each display
    /// and in the order of the list. The list is empty where there is no
    /// display to offer.
    pub fn screen_labels(&self) -> (labels: Vec<String>)
        ensures
            labels@.len() == self@.displays.len(),
            forall|i: int|
                0 <= i < labels@.len() ==> (#[trigger] labels@[i])@ == described(
                    "Screen "@,
                    self@.displays[i],
                ),
    {
        let mut labels: Vec<String> = Vec::new();
        let mut i: usize = 0;
        while i < self.screens.len()
            invariant
                i <= self.screens@.len(),
                labels@.len() == i,
                forall|j: int|
                    0 <= j < i ==> (#[trigger] labels@[j])@ == described(
                        "Screen "@,
                        self.screens@[j],
                    ),
            decreases self.screens@.len() - i,
        {
            labels.push(self.screens[i].label());
            i += 1;
        }
        labels
    }

    /// The line of the selector page that shows the selected display; there
    /// is none while nothing is selected. The capture button is offered with
    /// this line and not without it.
    pub fn selected_label(&self) -> (label: Option<String>)
        ensures
            match self@.selected {
                Some(i) => label is Some && label->Some_0@ == described(
                    "Selected screen: "@,
                    self@.displays[i as int],
                ),
                None => label is None,
            },
    {
        proof {
            use_type_invariant(self);
        }
        match self.selected_screen {
            Some(i) => Some(self.screens[i].selected_label()),
            None => None,
        }
    }

    /// Takes the answer of the file dialog: a path replaces the one chosen
    /// before, a cancelled dialog changes nothing.
    pub fn set_save_path(&mut self, choice: Option<String>)
        ensures
            final(self)@ == (AppView {
                save_path: match choice {
                    Some(path) => path@,
                    None => old(self)@.save_path,
                },
                ..old(self)@
            }),
    {
        proof {
            use_type_invariant(&*self);
        }
        match choice {
            Some(path) => {
                self.save_path = path;
            },
            None => {},
        }
    }

    /// One cycle: takes the event, moves to the next page and says what the
    /// host has to do.
    pub fn update(&mut self, event: Event) -> (effect: Effect)
        ensures
            final(self)@ == after(old(self)@, event),
            effect == effect_of(old(self)@, event),
            final(self)@.wf(),
    {
        proof {
            use_type_invariant(&*self);
        }
        let page = self.main_menu;
        let next = page.next(event);
        let effect = match page {
            Menu::FullScreen => if self.screens.len() > 0 {
                Effect::Capture(self.screens[0])
            } else {
                Effect::Notify(Outcome::NoDisplayAvailable)
            },
            Menu::ScreenSelector => match (event, self.selected_screen) {
                (Event::Capture, Some(i)) => Effect::Capture(self.screens[i]),
                _ => Effect::Idle,
            },
            _ => match next {
                Menu::Exit => Effect::Shutdown,
                _ => Effect::Idle,
            },
        };
        match (page, event) {
            (Menu::ScreenSelector, Event::PickScreen(i)) => {
                if i < self.screens.len() {
                    self.selected_screen = Some(i);
                }
            },
            _ => {},
        }
        self.main_menu = next;
        effect
    }

    /// The path a capture of `display` is saved to.
    pub fn save_target(&self, display: &Display) -> (target: String)
        ensures
            target@ == save_target(self@.save_path, *display),
    {
        if self.save_path.as_str().is_empty() {
            display.default_filename()
        } else {
            self.save_path.clone()
        }
    }

    /// Takes what the capture of `display` gave and decides what is left to
    /// do: write the PNG file of the frame to the save target, or report why
    /// there will be no file.
    pub fn take_screenshot(&self, display: &Display, capture: Result<RawFrame, String>) -> (step:
        SaveStep)
        ensures
            match capture {
                Err(reason) => step@ == SaveStepView::Done(OutcomeView::CaptureFailed(reason@)),
                Ok(frame) => if frame.pixels@.len() != rgba_len(frame.width, frame.height) {
                    step@ == SaveStepView::Done(outcome_of(FailureView::BufferShapeMismatch))
                } else {
                    match png_encoding(frame.width, frame.height, frame.pixels@) {
                        Some(file) => step@ == (SaveStepView::Write {
                            path: save_target(self@.save_path, *display),
                            png: file,
                        }),
                        None => step@ is Done && step@->Done_0 is SaveFailed,
                    }
                },
            },
    {
        match captured(capture) {
            Ok(bitmap) => plan_save(self.save_target(display), bitmap.encode_png()),
            Err(failure) => SaveStep::Done(failure.outcome()),
        }
    }
}

} // verus!

//! What holds of the controller in every state, stated over the transition
//! functions that `App::update` is proved to follow.

use vstd::prelude::*;
use crate::app::{after, effect_of, save_target, AppView, Effect};
use crate::display::Display;
use crate::menu::{Event, Menu};
use crate::outcome::{notification_of, outcome_of, FailureView, Outcome};
use crate::save::write_outcome;

verus! {

/// On the full-screen page, with at least one display in the list, a cycle
/// asks for one capture, that of the first display, and leads back to the
/// main page. Neither depends on the event, and the capture has not begun
/// when the page is decided, so its result plays no part. No cycle that
/// follows asks for a capture before another button is pressed: from the
/// main page none does.
pub proof fn full_screen_captures_first_display(state: AppView, event: Event)
    requires
        state.page == Menu::FullScreen,
        state.displays.len() > 0,
    ensures
        effect_of(state, event) == Effect::Capture(state.displays[0]),
        after(state, event).page == Menu::Main,
        forall|later: Event| !(#[trigger] effect_of(after(state, event), later) is Capture),
{
}

/// On the full-screen page, with no display in the list, a cycle asks for no
/// capture. It reports once that no display is available and leads back to
/// the main page, from where nothing more is reported.
pub proof fn full_screen_without_display(state: AppView, event: Event)
    requires
        state.page == Menu::FullScreen,
        state.displays.len() == 0,
    ensures
        effect_of(state, event) == Effect::Notify(Outcome::NoDisplayAvailable),
        after(state, event).page == Menu::Main,
        forall|later: Event|
            {
                let effect = #[trigger] effect_of(after(state, event), later);
                !(effect is Capture) && !(effect is Notify)
            },
{
}

/// On the selector page, a press on the button of the display at place `i`
/// followed by a press on "Capture Screenshot" asks for the capture of that
/// display, whichever display was selected before and wherever it stands in
/// the list. Both presses leave the selector page open and the second one
/// keeps the selection.
pub proof fn selected_display_is_captured(state: AppView, i: usize)
    requires
        state.wf(),
        state.page == Menu::ScreenSelector,
        i < state.displays.len(),
    ensures
        after(state, Event::PickScreen(i)).page == Menu::ScreenSelector,
        effect_of(after(state, Event::PickScreen(i)), Event::Capture) == Effect::Capture(
            state.displays[i as int],
        ),
        after(after(state, Event::PickScreen(i)), Event::Capture) == after(
            state,
            Event::PickScreen(i),
        ),
{
}

/// No cycle breaks the selection: if the selected display was a place in the
/// list before, it is one after, and the list itself is the same.
pub proof fn selection_stays_valid(state: AppView, event: Event)
    requires
        state.wf(),
    ensures
        after(state, event).wf(),
        after(state, event).displays == state.displays,
{
}

/// The exit page is final: every cycle on it stays there and asks for the
/// shutdown.
pub proof fn exit_is_final(state: AppView, event: Event)
    requires
        state.page == Menu::Exit,
    ensures
        after(state, event).page == Menu::Exit,
        effect_of(state, event) == Effect::Shutdown,
{
}

/// Every failure is reported, and as what it is: its outcome is never that
/// of a saved file, and the notification carries the title of an error. In
/// particular a file that could not be written is a failed save with the
/// writer's own reason.
pub proof fn failure_is_reported_as_failure(failure: FailureView, path: Seq<char>)
    ensures
        !(outcome_of(failure) is Saved),
        notification_of(outcome_of(failure)).summary == "Screenshot Error"@,
        failure matches FailureView::IoFailed(reason) ==> write_outcome(path, Err(reason))
            == outcome_of(failure),
{
}

/// While no path is chosen, the file of a capture is named by the identifier
/// of the display alone. Two captures of one display therefore go to one
/// file: nothing keeps the second from taking the place of the first.
pub proof fn default_target_depends_on_id_alone(first: Display, second: Display)
    requires
        first.id == second.id,
    ensures
        save_target(Seq::empty(), first) == save_target(Seq::empty(), second),
{
}

} // verus!

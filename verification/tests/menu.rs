use sabbishot::app::{App, Effect};
use sabbishot::display::Display;
use sabbishot::menu::{Event, Menu};
use sabbishot::outcome::Outcome;

fn two_displays() -> Vec<Display> {
    vec![Display::new(0, 1920, 1080), Display::new(7, 2560, 1440)]
}

fn app_on(page_events: &[Event], displays: Vec<Display>) -> App {
    let mut app = App::new(Ok(displays));
    for event in page_events {
        app.update(*event);
    }
    app
}

const ALL_EVENTS: [Event; 11] = [
    Event::Redraw,
    Event::FullScreen,
    Event::SelectScreen,
    Event::Information,
    Event::Exit,
    Event::PickScreen(0),
    Event::PickScreen(1),
    Event::Capture,
    Event::License,
    Event::Contributors,
    Event::Back,
];

#[test]
fn starts_on_main_page_without_selection() {
    let app = App::new(Ok(two_displays()));
    assert_eq!(app.page(), Menu::Main);
    assert_eq!(app.selected_screen(), None);
    assert_eq!(app.save_path().as_str(), "");
    assert_eq!(app.screens(), &two_displays());
    assert_eq!(Menu::default(), Menu::Main);
}

#[test]
fn failed_listing_counts_as_no_display() {
    let app = App::new(Err(String::from("no compositor")));
    assert!(app.screens().is_empty());
    assert_eq!(app.page(), Menu::Main);
}

#[test]
fn main_page_buttons() {
    assert_eq!(Menu::Main.next(Event::FullScreen), Menu::FullScreen);
    assert_eq!(Menu::Main.next(Event::SelectScreen), Menu::ScreenSelector);
    assert_eq!(Menu::Main.next(Event::Information), Menu::Info);
    assert_eq!(Menu::Main.next(Event::Exit), Menu::Exit);
    assert_eq!(Menu::Main.next(Event::Redraw), Menu::Main);
    assert_eq!(Menu::Main.next(Event::Back), Menu::Main);
    assert_eq!(Menu::Main.next(Event::Capture), Menu::Main);
    assert_eq!(Menu::Main.next(Event::License), Menu::Main);
}

#[test]
fn information_pages() {
    assert_eq!(Menu::Info.next(Event::License), Menu::License);
    assert_eq!(Menu::Info.next(Event::Contributors), Menu::Contrib);
    assert_eq!(Menu::Info.next(Event::Back), Menu::Main);
    assert_eq!(Menu::Info.next(Event::Exit), Menu::Info);
    assert_eq!(Menu::License.next(Event::Back), Menu::Info);
    assert_eq!(Menu::License.next(Event::Contributors), Menu::License);
    assert_eq!(Menu::Contrib.next(Event::Back), Menu::Info);
    assert_eq!(Menu::Contrib.next(Event::License), Menu::Contrib);
}

#[test]
fn selector_page_closes_on_back_only() {
    for event in ALL_EVENTS {
        let expected = if event == Event::Back { Menu::Main } else { Menu::ScreenSelector };
        assert_eq!(Menu::ScreenSelector.next(event), expected);
    }
}

#[test]
fn full_screen_page_always_returns_to_main() {
    for event in ALL_EVENTS {
        assert_eq!(Menu::FullScreen.next(event), Menu::Main);
    }
}

#[test]
fn exit_page_is_final() {
    for event in ALL_EVENTS {
        assert_eq!(Menu::Exit.next(event), Menu::Exit);
        let mut app = app_on(&[Event::Exit], two_displays());
        assert_eq!(app.update(event), Effect::Shutdown);
        assert_eq!(app.page(), Menu::Exit);
    }
}

#[test]
fn exit_button_asks_for_shutdown() {
    let mut app = App::new(Ok(two_displays()));
    assert_eq!(app.update(Event::Exit), Effect::Shutdown);
    assert_eq!(app.page(), Menu::Exit);
}

#[test]
fn browsing_asks_for_nothing() {
    let mut app = App::new(Ok(two_displays()));
    for event in [
        Event::Redraw,
        Event::Information,
        Event::License,
        Event::Back,
        Event::Contributors,
        Event::Back,
        Event::Back,
        Event::SelectScreen,
        Event::Redraw,
        Event::Back,
    ] {
        assert_eq!(app.update(event), Effect::Idle);
    }
    assert_eq!(app.page(), Menu::Main);
}

#[test]
fn full_screen_captures_first_display_once() {
    for event in ALL_EVENTS {
        let mut app = App::new(Ok(two_displays()));
        assert_eq!(app.update(Event::FullScreen), Effect::Idle);
        assert_eq!(app.page(), Menu::FullScreen);
        assert_eq!(app.update(event), Effect::Capture(Display::new(0, 1920, 1080)));
        assert_eq!(app.page(), Menu::Main);
        assert_eq!(app.update(Event::Redraw), Effect::Idle);
        assert_eq!(app.page(), Menu::Main);
    }
}

#[test]
fn full_screen_ignores_the_selection() {
    let mut app = app_on(
        &[Event::SelectScreen, Event::PickScreen(1), Event::Back, Event::FullScreen],
        two_displays(),
    );
    assert_eq!(app.selected_screen(), Some(1));
    assert_eq!(app.update(Event::Redraw), Effect::Capture(Display::new(0, 1920, 1080)));
}

#[test]
fn full_screen_without_display_reports_it() {
    let mut app = App::new(Ok(Vec::new()));
    let mut captures = 0;
    let mut reports = 0;
    for event in [Event::FullScreen, Event::Redraw, Event::Redraw] {
        match app.update(event) {
            Effect::Capture(_) => captures += 1,
            Effect::Notify(outcome) => {
                assert_eq!(outcome, Outcome::NoDisplayAvailable);
                reports += 1;
            }
            Effect::Idle => {}
            Effect::Shutdown => panic!("no shutdown was asked for"),
        }
    }
    assert_eq!(captures, 0);
    assert_eq!(reports, 1);
    assert_eq!(app.page(), Menu::Main);
}

#[test]
fn selected_display_is_the_one_captured() {
    let displays = vec![
        Display::new(3, 800, 600),
        Display::new(1, 1024, 768),
        Display::new(2, 1280, 720),
    ];
    for i in 0..displays.len() {
        let mut app = app_on(&[Event::SelectScreen], displays.clone());
        assert_eq!(app.update(Event::PickScreen(i)), Effect::Idle);
        assert_eq!(app.selected_screen(), Some(i));
        assert_eq!(app.update(Event::Capture), Effect::Capture(displays[i]));
        assert_eq!(app.page(), Menu::ScreenSelector);
        assert_eq!(app.selected_screen(), Some(i));
    }
}

#[test]
fn selection_can_be_changed() {
    let mut app = app_on(&[Event::SelectScreen, Event::PickScreen(0)], two_displays());
    app.update(Event::PickScreen(1));
    assert_eq!(app.update(Event::Capture), Effect::Capture(Display::new(7, 2560, 1440)));
}

#[test]
fn selection_survives_redraws_and_page_changes() {
    let mut app = app_on(&[Event::SelectScreen, Event::PickScreen(1), Event::Redraw], two_displays());
    assert_eq!(app.selected_screen(), Some(1));
    for event in [Event::Back, Event::Information, Event::Back, Event::SelectScreen] {
        app.update(event);
    }
    assert_eq!(app.selected_screen(), Some(1));
    assert_eq!(app.update(Event::Capture), Effect::Capture(Display::new(7, 2560, 1440)));
}

#[test]
fn pick_outside_the_list_is_ignored() {
    let mut app = app_on(&[Event::SelectScreen], two_displays());
    assert_eq!(app.update(Event::PickScreen(2)), Effect::Idle);
    assert_eq!(app.selected_screen(), None);
    app.update(Event::PickScreen(1));
    app.update(Event::PickScreen(usize::MAX));
    assert_eq!(app.selected_screen(), Some(1));
}

#[test]
fn pick_on_another_page_is_ignored() {
    let mut app = App::new(Ok(two_displays()));
    app.update(Event::PickScreen(1));
    assert_eq!(app.selected_screen(), None);
}

#[test]
fn capture_without_selection_asks_for_nothing() {
    let mut app = app_on(&[Event::SelectScreen], two_displays());
    assert_eq!(app.update(Event::Capture), Effect::Idle);
    let mut empty = app_on(&[Event::SelectScreen], Vec::new());
    assert_eq!(empty.update(Event::PickScreen(0)), Effect::Idle);
    assert_eq!(empty.update(Event::Capture), Effect::Idle);
    assert_eq!(empty.selected_screen(), None);
}

#[test]
fn capture_button_works_on_the_selector_page_only() {
    let mut app = app_on(&[Event::SelectScreen, Event::PickScreen(0), Event::Back], two_displays());
    assert_eq!(app.update(Event::Capture), Effect::Idle);
    assert_eq!(app.page(), Menu::Main);
}

#[test]
fn selector_page_offers_every_display() {
    let app = App::new(Ok(two_displays()));
    assert_eq!(app.screen_labels(), vec!["Screen 0 - 1920x1080", "Screen 7 - 2560x1440"]);
    assert!(App::new(Ok(Vec::new())).screen_labels().is_empty());
}

#[test]
fn selector_page_shows_the_selection() {
    let mut app = app_on(&[Event::SelectScreen], two_displays());
    assert_eq!(app.selected_label(), None);
    app.update(Event::PickScreen(1));
    assert_eq!(app.selected_label(), Some(String::from("Selected screen: 7 - 2560x1440")));
}

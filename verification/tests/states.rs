use feverdream::fade::{is_fading_from, is_fading_to, FadeState, NextFadeState, OnceTimer};
use feverdream::focus::{FocusInteraction, InteractionPalette, UiFocus, UiFocusState};
use feverdream::screen::{go_back, Gameplay, MainMenuState, PauseState, Paused, Playing, Screen};
use feverdream::text::{digit_char, push_decimal, push_decimal_width2};
use feverdream::ui::HoldGameButton;

const MS: u128 = 1_000_000;

#[test]
fn screens_and_computed_states() {
    assert_eq!(Screen::default(), Screen::Splash);
    assert_eq!(Gameplay::compute(Screen::playing()), Some(Gameplay));
    assert_eq!(Gameplay::compute(Screen::paused()), Some(Gameplay));
    assert_eq!(Gameplay::compute(Screen::title()), None);
    assert_eq!(Paused::compute(Screen::paused()), Some(Paused));
    assert_eq!(Paused::compute(Screen::playing()), None);
    assert_eq!(Playing::compute(Screen::playing()), Some(Playing));
    assert_eq!(Playing::compute(Screen::Gameplay { pause: Some(PauseState::Settings) }), None);
    assert_eq!(Playing::compute(Screen::Loading), None);
}

#[test]
fn going_back_from_settings() {
    assert_eq!(go_back(Screen::MainMenu(MainMenuState::Settings)), Some(Screen::title()));
    assert_eq!(go_back(Screen::MainMenu(MainMenuState::Credits)), Some(Screen::title()));
    assert_eq!(go_back(Screen::title()), None);
    assert_eq!(go_back(Screen::Gameplay { pause: Some(PauseState::Settings) }), Some(Screen::paused()));
    assert_eq!(go_back(Screen::playing()), None);
    assert_eq!(go_back(Screen::Splash), None);
}

#[test]
fn focus_follows_the_input() {
    let mut focus = UiFocus::default();
    assert_eq!(focus.focus(), None);
    focus.set(3, FocusInteraction::Click);
    assert_eq!(focus.focus(), Some(UiFocusState { entity: 3, interaction: FocusInteraction::Click }));
    assert_eq!(focus.previous(), None);
    focus.follow_input_focus(Some(5));
    assert_eq!(focus.focus(), Some(UiFocusState { entity: 5, interaction: FocusInteraction::Focus }));
    assert_eq!(focus.previous(), Some(3));
    focus.clear_focus();
    assert_eq!(focus.focus(), None);
    assert_eq!(focus.previous(), Some(5));
    focus.follow_input_focus(None);
    assert_eq!(focus.previous(), None);
    focus.set(8, FocusInteraction::Focus);
    focus.reset();
    assert_eq!((focus.focus(), focus.previous()), (None, None));
    let palette = InteractionPalette { none: 1, pressed: 2, focused: 3 };
    assert_eq!(palette.focus_interaction_color(FocusInteraction::Focus), 3);
    assert_eq!(palette.focus_interaction_color(FocusInteraction::Click), 2);
}

#[test]
fn fading_checks() {
    let out = FadeState::FadingOut(Screen::Splash);
    let into = FadeState::FadingIn(Screen::title());
    assert!(is_fading_from(Some(&out), &Screen::Splash));
    assert!(!is_fading_from(Some(&out), &Screen::Loading));
    assert!(!is_fading_from(Some(&into), &Screen::title()));
    assert!(!is_fading_from(None, &Screen::Splash));
    assert!(is_fading_to(Some(&into), &Screen::title()));
    assert!(!is_fading_to(Some(&out), &Screen::Splash));
    assert!(!is_fading_to(Some(&FadeState::NotFading), &Screen::Splash));
    assert_eq!(FadeState::<Screen>::default(), FadeState::NotFading);
}

#[test]
fn once_timer() {
    let mut t = OnceTimer::from_millis(10);
    assert!(!t.tick(4 * MS));
    assert!(!t.tick(5 * MS));
    assert!(t.tick(2 * MS));
    assert_eq!(t.elapsed_ns, 10 * MS);
    assert!(!t.tick(100 * MS));
    assert!(t.finished);
    let mut zero = OnceTimer::from_millis(0);
    assert!(zero.tick(0));
}

#[test]
fn fade_runs_its_course() {
    let mut next = NextFadeState::<Screen>::default();
    let none = next.tick(MS, FadeState::NotFading);
    assert_eq!((none.fade, none.state), (None, None));
    next.set_with_delay(Screen::Splash, Screen::title(), 100, 50);
    let r0 = next.tick(60 * MS, FadeState::NotFading);
    assert_eq!(r0.fade, Some(FadeState::FadingOut(Screen::Splash)));
    assert_eq!(r0.state, None);
    let r1 = next.tick(10 * MS, FadeState::FadingOut(Screen::Splash));
    assert_eq!((r1.fade, r1.state), (None, None));
    let r2 = next.tick(40 * MS, FadeState::FadingOut(Screen::Splash));
    assert_eq!(r2.fade, Some(FadeState::FadingIn(Screen::title())));
    assert_eq!(r2.state, Some(Screen::title()));
    let r3 = next.tick(20 * MS, FadeState::FadingIn(Screen::title()));
    assert_eq!((r3.fade, r3.state), (None, None));
    let r4 = next.tick(30 * MS, FadeState::FadingIn(Screen::title()));
    assert_eq!(r4.fade, Some(FadeState::NotFading));
    assert_eq!(r4.state, None);
    assert!(next.next.is_none());
}

#[test]
fn hold_button_fires_once_held_long_enough() {
    let mut btn = HoldGameButton::new(100);
    assert_eq!(btn.duration_ns(), 100 * MS);
    assert!(!btn.tick(200 * MS));
    assert_eq!(btn.held_ns(), 0);
    btn.press();
    assert!(btn.pressed());
    assert!(!btn.tick(60 * MS));
    assert_eq!(btn.held_ns(), 60 * MS);
    assert!(btn.tick(40 * MS));
    assert!(!btn.pressed());
    assert_eq!(btn.held_ns(), 0);
    btn.press();
    assert!(!btn.tick(30 * MS));
    btn.reset();
    assert!(!btn.pressed());
    assert_eq!(btn.held_ns(), 0);
}

#[test]
fn decimal_text() {
    assert_eq!(digit_char(7), '7');
    let mut s = String::from("x");
    push_decimal(&mut s, 0);
    push_decimal(&mut s, 305);
    assert_eq!(s, "x0305");
    let mut t = String::new();
    push_decimal_width2(&mut t, 4);
    push_decimal_width2(&mut t, 42);
    push_decimal_width2(&mut t, 420);
    assert_eq!(t, " 442420");
}

use asteroids::input::Input;
use asteroids::screen::{after_game_over, next_screen, Screen};
use asteroids::start_screen::{Cooldown, StartScreen, StartScreenControls};
use asteroids::transition::Transition;

fn controls(down: bool, up: bool, select: bool) -> StartScreenControls {
    StartScreenControls { menu_down: down, menu_up: up, select, new_game: false, toggle_debug_info: false }
}

#[test]
fn transition_consumes_input_unless_staying() {
    assert!(!Transition::Stay.consumes_input());
    assert!(Transition::NewGame.consumes_input());
    assert!(Transition::GameOver(true).consumes_input());
    assert!(Transition::GameOver(false).consumes_input());
    assert!(Transition::ToStart.consumes_input());
}

#[test]
fn input_consume_silences_until_released() {
    let mut i = Input::new();
    assert!(!i.using_touch);
    assert!(i.is_key_down(true));
    assert!(i.is_pressed(true));
    assert!(i.any_press(true));
    assert!(!i.any_press(false));
    i.consume();
    assert!(!i.is_key_down(true));
    assert!(!i.is_pressed(true));
    assert!(!i.any_press(true));
    // something still held: stays swallowed
    i.update(false, true);
    assert!(i.swallow);
    assert!(!i.is_key_down(true));
    // everything released
    i.update(false, false);
    assert!(!i.swallow);
    assert!(i.is_key_down(true));
}

#[test]
fn input_touch_is_sticky() {
    let mut i = Input::new();
    i.update(true, true);
    assert!(i.using_touch);
    i.update(false, false);
    assert!(i.using_touch);
    i.consume();
    assert!(i.using_touch);
}

#[test]
fn start_controls_from_input() {
    let mut i = Input::new();
    let c = StartScreenControls::from_input(&i, true, false, true, true, true);
    assert!(c.menu_down && !c.menu_up && c.select);
    // buttons count only with touch
    assert!(!c.new_game && !c.toggle_debug_info);
    i.update(true, true);
    let c = StartScreenControls::from_input(&i, false, true, false, true, false);
    assert!(c.menu_up && !c.menu_down && !c.select);
    assert!(c.new_game && !c.toggle_debug_info);
    i.consume();
    let c = StartScreenControls::from_input(&i, true, true, true, true, true);
    assert!(!c.menu_down && !c.menu_up && !c.new_game && !c.toggle_debug_info);
    // a fresh select press is not swallowed
    assert!(c.select);
}

#[test]
fn start_menu_moves_and_wraps() {
    let mut s = StartScreen::new();
    let mut i = Input::new();
    assert_eq!(s.cursor_pos(), 0);
    let r = s.update(&controls(true, false, false), &mut i, false);
    assert_eq!(r.transition, Transition::Stay);
    assert_eq!(r.cooldown, Cooldown::Restart);
    assert_eq!(s.cursor_pos(), 1);
    // still cooling down: the cursor holds
    let r = s.update(&controls(true, false, false), &mut i, true);
    assert_eq!(r.cooldown, Cooldown::Tick);
    assert_eq!(s.cursor_pos(), 1);
    // wraps from the last entry to the first
    let r = s.update(&controls(true, false, false), &mut i, false);
    assert_eq!(r.cooldown, Cooldown::Restart);
    assert_eq!(s.cursor_pos(), 0);
    // up from the first wraps to the last
    s.update(&controls(false, true, false), &mut i, false);
    assert_eq!(s.cursor_pos(), 1);
    // both directions cancel out
    let r = s.update(&controls(true, true, false), &mut i, false);
    assert_eq!(r.cooldown, Cooldown::Untouched);
    assert_eq!(s.cursor_pos(), 1);
}

#[test]
fn start_menu_select() {
    let mut s = StartScreen::new();
    let mut i = Input::new();
    let r = s.update(&controls(false, false, true), &mut i, false);
    assert_eq!(r.transition, Transition::NewGame);
    s.update(&controls(true, false, false), &mut i, false);
    let r = s.update(&controls(false, false, true), &mut i, true);
    assert_eq!(r.transition, Transition::Stay);
    assert!(s.show_debug());
    let r = s.update(&controls(false, false, true), &mut i, true);
    assert_eq!(r.transition, Transition::Stay);
    assert!(!s.show_debug());
    // moving down onto "New Game" and selecting in the same frame starts a game
    let r = s.update(&controls(true, false, true), &mut i, false);
    assert_eq!(s.cursor_pos(), 0);
    assert_eq!(r.transition, Transition::NewGame);
    assert_eq!(r.cooldown, Cooldown::Restart);
}

#[test]
fn start_menu_touch() {
    let mut s = StartScreen::new();
    let mut i = Input::new();
    // touch buttons do nothing before touch is in use
    let mut c = controls(false, false, false);
    c.toggle_debug_info = true;
    let r = s.update(&c, &mut i, false);
    assert_eq!(r.transition, Transition::Stay);
    assert!(!s.show_debug());
    assert!(!s.using_touch());
    i.update(true, true);
    let r = s.update(&c, &mut i, false);
    assert_eq!(r.transition, Transition::Stay);
    assert!(s.show_debug());
    assert!(s.using_touch());
    assert!(i.swallow);
    let mut c = controls(true, false, false);
    c.new_game = true;
    let r = s.update(&c, &mut i, false);
    assert_eq!(r.transition, Transition::NewGame);
    assert_eq!(r.cooldown, Cooldown::Untouched);
    assert_eq!(s.cursor_pos(), 0);
}

#[test]
fn screens_follow_transitions() {
    let s = next_screen(Screen::Start(StartScreen::new()), Transition::Stay);
    assert!(matches!(s, Screen::Start(_)));
    let s = next_screen(s, Transition::NewGame);
    let g = match &s {
        Screen::Playing(g) => g,
        _ => panic!("expected a game"),
    };
    assert_eq!(g.level(), 0);
    assert_eq!(g.score(), 0);
    let s = next_screen(s, Transition::GameOver(false));
    match &s {
        Screen::GameOver(g, win) => {
            assert!(!*win);
            assert_eq!(g.score(), 0);
        },
        _ => panic!("expected game over"),
    }
    // a game-over request without a game leaves nothing
    let e = next_screen(Screen::Start(StartScreen::new()), Transition::GameOver(true));
    assert!(matches!(e, Screen::Empty));
    let s = next_screen(s, Transition::ToStart);
    match &s {
        Screen::Start(st) => assert_eq!(st.cursor_pos(), 0),
        _ => panic!("expected the start screen"),
    }
}

#[test]
fn game_over_waits_for_a_press() {
    let mut i = Input::new();
    assert_eq!(after_game_over(&i, false), Transition::Stay);
    assert_eq!(after_game_over(&i, true), Transition::ToStart);
    i.consume();
    assert_eq!(after_game_over(&i, true), Transition::Stay);
}

use asteroids::game::asteroid::{find_collisions, rebuild_field, AsteroidSize, Fate};
use asteroids::game::hits::resolve_hits;
use asteroids::game::ship::ShipControls;
use asteroids::game::{
    event_count, initial_asteroids, level_event, FrameStart, Game, GameKeys, Spawn, SpawnEvent, TouchPresses,
    LEVEL_COUNT, SCORE_INC,
};
use asteroids::input::Input;
use asteroids::transition::Transition;

fn keys() -> GameKeys {
    GameKeys { rotate_left: false, rotate_right: false, thrust: false, fire: false, pause_pressed: false }
}

fn touch() -> TouchPresses {
    TouchPresses { rotate_left: false, rotate_right: false, thrust: false, fire: false, advance: false }
}

/// Destroys every asteroid of the field, one rebuild per size step.
fn clear_field(g: &mut Game) {
    while !g.asteroids().is_empty() {
        let hit = vec![true; g.asteroids().len()];
        g.rebuild_asteroids(&hit);
    }
}

/// Fires the rest of the level's events and clears the field.
fn clear_level(g: &mut Game, i: &mut Input) {
    while g.next_event_at().is_some() {
        g.fire_event(true);
    }
    clear_field(g);
    g.end_frame(false, &vec![], i);
}

#[test]
fn size_ladder() {
    assert_eq!(AsteroidSize::Large.radius(), 40);
    assert_eq!(AsteroidSize::Medium.radius(), 20);
    assert_eq!(AsteroidSize::Small.radius(), 10);
    assert_eq!(AsteroidSize::Large.mass(), 16);
    assert_eq!(AsteroidSize::Medium.mass(), 4);
    assert_eq!(AsteroidSize::Small.mass(), 1);
    assert_eq!(AsteroidSize::Large.initial_speed(), 50);
    assert_eq!(AsteroidSize::Medium.initial_speed(), 60);
    assert_eq!(AsteroidSize::Small.initial_speed(), 70);
    assert_eq!(AsteroidSize::Large.smaller(), Some(AsteroidSize::Medium));
    assert_eq!(AsteroidSize::Medium.smaller(), Some(AsteroidSize::Small));
    assert_eq!(AsteroidSize::Small.smaller(), None);
}

#[test]
fn ship_turns() {
    let mut c = ShipControls::default();
    assert_eq!(c.turn(), 0);
    c.rotate_right = true;
    assert_eq!(c.turn(), 1);
    c.rotate_left = true;
    assert_eq!(c.turn(), 0);
    c.rotate_right = false;
    assert_eq!(c.turn(), -1);
}

#[test]
fn level_table() {
    assert_eq!(LEVEL_COUNT, 3);
    assert_eq!(initial_asteroids(0), 1);
    assert_eq!(initial_asteroids(1), 5);
    assert_eq!(initial_asteroids(2), 5);
    assert_eq!(event_count(0), 2);
    assert_eq!(event_count(1), 1);
    assert_eq!(event_count(2), 2);
    assert_eq!(level_event(0, 0), SpawnEvent { at_secs: 15, spawn: Spawn::Asteroids(1) });
    assert_eq!(level_event(0, 1), SpawnEvent { at_secs: 30, spawn: Spawn::Asteroids(1) });
    assert_eq!(level_event(1, 0), SpawnEvent { at_secs: 0, spawn: Spawn::Alien });
    assert_eq!(level_event(2, 1), SpawnEvent { at_secs: 15, spawn: Spawn::Asteroids(2) });
}

#[test]
fn new_game() {
    let g = Game::new();
    assert_eq!(g.level(), 0);
    assert_eq!(g.score(), 0);
    assert!(!g.is_paused());
    assert!(!g.is_cleared());
    assert!(g.is_running());
    assert_eq!(g.asteroids(), &vec![AsteroidSize::Large]);
    assert_eq!(g.next_event_at(), Some(15));
}

#[test]
fn controls_from_keys_and_touch() {
    let mut g = Game::new();
    let mut i = Input::new();
    let mut k = keys();
    k.rotate_left = true;
    k.fire = true;
    k.pause_pressed = true;
    let mut t = touch();
    t.thrust = true;
    t.advance = true;
    g.update_controls(&i, &k, &t);
    let c = g.controls();
    assert!(c.ship_controls.rotate_left && !c.ship_controls.rotate_right);
    assert!(!c.ship_controls.thrust, "buttons need touch in use");
    assert!(c.fire && c.pause && !c.advance && !c.using_touch);
    i.update(true, true);
    g.update_controls(&i, &k, &t);
    let c = g.controls();
    assert!(c.ship_controls.thrust && c.advance && c.using_touch);
    i.consume();
    g.update_controls(&i, &k, &t);
    let c = g.controls();
    assert!(!c.ship_controls.rotate_left && !c.ship_controls.thrust && !c.fire && !c.advance);
    assert!(c.pause, "the pause key is a fresh press and is not swallowed");
}

#[test]
fn pause_toggles() {
    let mut g = Game::new();
    let i = Input::new();
    let mut k = keys();
    k.pause_pressed = true;
    g.update_controls(&i, &k, &touch());
    assert_eq!(g.begin_frame(), FrameStart::Same);
    assert!(g.is_paused());
    assert!(!g.is_running());
    assert_eq!(g.begin_frame(), FrameStart::Same);
    assert!(!g.is_paused());
    g.update_controls(&i, &keys(), &touch());
    assert_eq!(g.begin_frame(), FrameStart::Same);
    assert!(!g.is_paused());
}

#[test]
fn events_fire_in_order() {
    let mut g = Game::new();
    assert_eq!(g.fire_event(false), 0);
    assert_eq!(g.next_event_at(), Some(15));
    assert_eq!(g.fire_event(true), 1);
    assert_eq!(g.asteroids().len(), 2);
    assert_eq!(g.next_event_at(), Some(30));
    assert_eq!(g.fire_event(true), 1);
    assert_eq!(g.asteroids(), &vec![AsteroidSize::Large; 3]);
    assert_eq!(g.next_event_at(), None);
    assert_eq!(g.fire_event(true), 0);
    assert_eq!(g.asteroids().len(), 3);
}

#[test]
fn rebuild_splits_hit_asteroids_in_place() {
    let mut g = Game::new();
    g.fire_event(true);
    let fates = g.rebuild_asteroids(&vec![true, false]);
    assert_eq!(fates, vec![Fate::Split(AsteroidSize::Medium), Fate::Kept]);
    assert_eq!(
        g.asteroids(),
        &vec![AsteroidSize::Medium, AsteroidSize::Medium, AsteroidSize::Large]
    );
    let fates = g.rebuild_asteroids(&vec![false, true, false]);
    assert_eq!(fates, vec![Fate::Kept, Fate::Split(AsteroidSize::Small), Fate::Kept]);
    assert_eq!(
        g.asteroids(),
        &vec![AsteroidSize::Medium, AsteroidSize::Small, AsteroidSize::Small, AsteroidSize::Large]
    );
    let fates = g.rebuild_asteroids(&vec![false, true, false, false]);
    assert_eq!(fates, vec![Fate::Kept, Fate::Destroyed, Fate::Kept, Fate::Kept]);
    assert_eq!(
        g.asteroids(),
        &vec![AsteroidSize::Medium, AsteroidSize::Small, AsteroidSize::Large]
    );
}

#[test]
fn rebuild_field_counts() {
    let sizes = vec![AsteroidSize::Small, AsteroidSize::Large, AsteroidSize::Medium, AsteroidSize::Small];
    let (fates, field) = rebuild_field(&sizes, &vec![true, true, false, false]);
    assert_eq!(
        fates,
        vec![Fate::Destroyed, Fate::Split(AsteroidSize::Medium), Fate::Kept, Fate::Kept]
    );
    // two kept, one split into two, one destroyed
    assert_eq!(field.len(), 2 + 2 * 1);
    assert_eq!(
        field,
        vec![AsteroidSize::Medium, AsteroidSize::Medium, AsteroidSize::Medium, AsteroidSize::Small]
    );
}

#[test]
fn clearing_a_large_asteroid_takes_seven_hits() {
    let mut g = Game::new();
    let mut hits = 0;
    while !g.asteroids().is_empty() {
        let n = g.asteroids().len();
        hits += n;
        g.rebuild_asteroids(&vec![true; n]);
    }
    assert_eq!(hits, 7);
    g.award_hits(hits);
    assert_eq!(g.score(), 70);
}

#[test]
fn award_hits_adds_ten_each() {
    let mut g = Game::new();
    g.award_hits(0);
    assert_eq!(g.score(), 0);
    g.award_hits(3);
    assert_eq!(g.score(), 3 * SCORE_INC);
    g.award_hits(1);
    assert_eq!(g.score(), 40);
}

#[test]
fn level_is_cleared_only_without_asteroids_and_events() {
    let mut g = Game::new();
    let mut i = Input::new();
    clear_field(&mut g);
    g.end_frame(false, &vec![], &mut i);
    assert!(!g.is_cleared(), "events are still to come");
    assert!(!i.swallow);
    g.fire_event(true);
    g.fire_event(true);
    g.end_frame(false, &vec![], &mut i);
    assert!(!g.is_cleared(), "asteroids are left");
    clear_field(&mut g);
    g.end_frame(false, &vec![], &mut i);
    assert!(g.is_cleared());
    assert!(!g.is_running());
    assert!(i.swallow, "clearing swallows held input");
}

#[test]
fn levels_progress_and_the_last_one_wins() {
    let mut g = Game::new();
    let mut i = Input::new();
    clear_level(&mut g, &mut i);
    assert!(g.is_cleared());
    // without pause or advance nothing happens
    g.update_controls(&Input::new(), &keys(), &touch());
    assert_eq!(g.begin_frame(), FrameStart::Same);
    assert_eq!(g.level(), 0);
    let mut k = keys();
    k.pause_pressed = true;
    g.update_controls(&Input::new(), &k, &touch());
    assert_eq!(g.begin_frame(), FrameStart::NextLevel);
    assert_eq!(g.level(), 1);
    assert!(!g.is_cleared());
    assert!(!g.is_paused());
    assert_eq!(g.asteroids(), &vec![AsteroidSize::Large; 5]);
    assert_eq!(g.next_event_at(), Some(0));
    // the advance button works as well, with touch in use
    let mut touching = Input::new();
    touching.update(true, true);
    clear_level(&mut g, &mut i);
    let mut t = touch();
    t.advance = true;
    g.update_controls(&touching, &keys(), &t);
    assert_eq!(g.begin_frame(), FrameStart::NextLevel);
    assert_eq!(g.level(), 2);
    assert_eq!(g.next_event_at(), Some(0));
    clear_level(&mut g, &mut i);
    g.update_controls(&Input::new(), &k, &touch());
    assert_eq!(g.begin_frame(), FrameStart::Won);
    assert_eq!(g.level(), 2);
    assert!(g.is_cleared());
}

#[test]
fn collisions_are_listed_once_in_order() {
    let f = false;
    let t = true;
    let overlap = vec![
        vec![f, t, f, t],
        vec![t, f, t, f],
        vec![f, t, f, f],
        vec![t, f, f, f],
    ];
    assert_eq!(find_collisions(&overlap), vec![(0, 1), (0, 3), (1, 2)]);
    assert_eq!(find_collisions(&vec![]), vec![]);
    assert_eq!(find_collisions(&vec![vec![true]]), vec![]);
    // entries below the diagonal are not read
    let lower = vec![vec![f, f], vec![t, f]];
    assert_eq!(find_collisions(&lower), vec![]);
}

#[test]
fn bullets_hit_the_first_free_asteroid() {
    let f = false;
    let t = true;
    // three bullets, three asteroids
    let m = vec![vec![f, t, t], vec![f, t, f], vec![f, t, t]];
    let r = resolve_hits(&m, 3);
    assert_eq!(r.targets, vec![Some(1), None, Some(2)]);
    assert_eq!(r.asteroid_hit, vec![false, true, true]);
    assert_eq!(r.hits, 2);
}

#[test]
fn bullets_without_targets_fly_on() {
    let r = resolve_hits(&vec![vec![false, false], vec![false, false]], 2);
    assert_eq!(r.targets, vec![None, None]);
    assert_eq!(r.asteroid_hit, vec![false, false]);
    assert_eq!(r.hits, 0);
    let r = resolve_hits(&vec![], 4);
    assert_eq!(r.targets, vec![]);
    assert_eq!(r.asteroid_hit, vec![false; 4]);
    let r = resolve_hits(&vec![vec![], vec![]], 0);
    assert_eq!(r.targets, vec![None, None]);
    assert_eq!(r.hits, 0);
}

#[test]
fn each_asteroid_takes_one_bullet() {
    let r = resolve_hits(&vec![vec![true]; 4], 1);
    assert_eq!(r.targets, vec![Some(0), None, None, None]);
    assert_eq!(r.hits, 1);
    let r = resolve_hits(&vec![vec![true, true, true, true]; 4], 4);
    assert_eq!(r.targets, vec![Some(0), Some(1), Some(2), Some(3)]);
    assert_eq!(r.asteroid_hit, vec![true; 4]);
    assert_eq!(r.hits, 4);
}

#[test]
fn frame_end_scores_hits_and_splits() {
    let mut g = Game::new();
    let mut i = Input::new();
    // two bullets cross the only (large) asteroid: the first one takes it
    let r = g.end_frame(false, &vec![vec![true], vec![true]], &mut i);
    assert_eq!(r.transition, Transition::Stay);
    let h = r.hits.expect("the game was running");
    assert_eq!(h.targets, vec![Some(0), None]);
    assert_eq!(h.hits, 1);
    assert_eq!(r.fates, vec![Fate::Split(AsteroidSize::Medium)]);
    assert_eq!(g.score(), 10);
    assert_eq!(g.asteroids(), &vec![AsteroidSize::Medium; 2]);
    assert!(!g.is_cleared());
    assert!(!i.swallow);
}

#[test]
fn a_crash_loses_the_game() {
    let mut g = Game::new();
    let mut i = Input::new();
    let r = g.end_frame(true, &vec![vec![true]], &mut i);
    assert_eq!(r.transition, Transition::GameOver(false));
    assert!(r.hits.is_none());
    assert!(r.fates.is_empty());
    assert_eq!(g.score(), 0);
    assert_eq!(g.asteroids().len(), 1);
}

#[test]
fn a_paused_game_stands_still() {
    let mut g = Game::new();
    let mut i = Input::new();
    let mut k = keys();
    k.pause_pressed = true;
    g.update_controls(&Input::new(), &k, &touch());
    assert_eq!(g.begin_frame().transition(), Transition::Stay);
    assert!(g.is_paused());
    assert_eq!(g.fire_event(true), 0);
    assert_eq!(g.next_event_at(), Some(15));
    let r = g.end_frame(true, &vec![vec![true]], &mut i);
    assert_eq!(r.transition, Transition::Stay);
    assert!(r.hits.is_none());
    assert_eq!(g.score(), 0);
    assert_eq!(g.asteroids().len(), 1);
    // a paused game with no asteroid and no event left is not cleared
    let mut g = Game::new();
    g.fire_event(true);
    g.fire_event(true);
    clear_field(&mut g);
    g.update_controls(&Input::new(), &k, &touch());
    g.begin_frame();
    g.end_frame(false, &vec![], &mut i);
    assert!(g.is_paused() && !g.is_cleared());
}

#[test]
fn winning_ends_the_game() {
    assert_eq!(FrameStart::Won.transition(), Transition::GameOver(true));
    assert_eq!(FrameStart::NextLevel.transition(), Transition::Stay);
    assert_eq!(FrameStart::Same.transition(), Transition::Stay);
}

use vstd::prelude::*;

pub mod asteroid;
pub mod hits;
pub mod ship;

use crate::input::{passes, Input};
use self::asteroid::{rebuild_field, rebuilt, AsteroidSize, Fate};
use self::hits::{
    as_int, count_true, hit_count, lemma_hits_match_taken, resolve_hits, rows_of, target_of, taken_after,
    HitOutcome,
};
use self::ship::ShipControls;
use crate::transition::Transition;

verus! {

/// Points scored for each asteroid hit by a bullet.
pub const SCORE_INC: u32 = 10;

/// Number of levels; clearing the last one wins the game.
pub const LEVEL_COUNT: usize = 3;

/// What a timed level event brings into play.
#[derive(Clone, Copy, Debug, PartialEq, Eq, Structural)]
pub enum Spawn {
    /// That many new large asteroids.
    Asteroids(usize),
    /// An alien; it brings nothing into play yet.
    Alien,
}

/// A timed event of a level.
#[derive(Clone, Copy, Debug, PartialEq, Eq, Structural)]
pub struct SpawnEvent {
    /// Seconds since the level started.
    pub at_secs: u32,
    pub spawn: Spawn,
}

/// Large asteroids in play when a level starts.
pub open spec fn level_initial(level: int) -> nat {
    if level == 0 {
        1
    } else {
        5
    }
}

/// A level's timed events, in the order they fire.
pub open spec fn level_events(level: int) -> Seq<SpawnEvent> {
    if level == 0 {
        seq![
            SpawnEvent { at_secs: 15, spawn: Spawn::Asteroids(1) },
            SpawnEvent { at_secs: 30, spawn: Spawn::Asteroids(1) },
        ]
    } else if level == 1 {
        seq![SpawnEvent { at_secs: 0, spawn: Spawn::Alien }]
    } else {
        seq![
            SpawnEvent { at_secs: 0, spawn: Spawn::Alien },
            SpawnEvent { at_secs: 15, spawn: Spawn::Asteroids(2) },
        ]
    }
}

/// Number of large asteroids an event adds.
pub open spec fn spawn_count(s: Spawn) -> nat {
    match s {
        Spawn::Asteroids(n) => n as nat,
        Spawn::Alien => 0,
    }
}

pub fn initial_asteroids(level: usize) -> (r: usize)
    requires
        level < LEVEL_COUNT,
    ensures
        r == level_initial(level as int),
{
    if level == 0 {
        1
    } else {
        5
    }
}

pub fn event_count(level: usize) -> (r: usize)
    requires
        level < LEVEL_COUNT,
    ensures
        r == level_events(level as int).len(),
{
    if level == 1 {
        1
    } else {
        2
    }
}

pub fn level_event(level: usize, k: usize) -> (r: SpawnEvent)
    requires
        level < LEVEL_COUNT,
        k < level_events(level as int).len(),
    ensures
        r == level_events(level as int)[k as int],
{
    if level == 0 {
        if k == 0 {
            SpawnEvent { at_secs: 15, spawn: Spawn::Asteroids(1) }
        } else {
            SpawnEvent { at_secs: 30, spawn: Spawn::Asteroids(1) }
        }
    } else if level == 1 {
        SpawnEvent { at_secs: 0, spawn: Spawn::Alien }
    } else {
        if k == 0 {
            SpawnEvent { at_secs: 0, spawn: Spawn::Alien }
        } else {
            SpawnEvent { at_secs: 15, spawn: Spawn::Asteroids(2) }
        }
    }
}

/// `n` large asteroids.
pub open spec fn larges(n: nat) -> Seq<AsteroidSize> {
    Seq::new(n, |i: int| AsteroidSize::Large)
}

fn push_larges(v: &mut Vec<AsteroidSize>, n: usize)
    ensures
        final(v)@ == old(v)@ + larges(n as nat),
{
    let ghost start = v@;
    for k in 0..n
        invariant
            v@ == start + larges(k as nat),
    {
        v.push(AsteroidSize::Large);
        assert(v@ =~= start + larges((k + 1) as nat));
    }
}

/// The controls the game reads in a frame.
#[derive(Clone, Copy, Debug, PartialEq, Eq, Structural)]
pub struct GameControls {
    pub using_touch: bool,
    pub ship_controls: ShipControls,
    pub fire: bool,
    pub pause: bool,
    pub advance: bool,
}

pub open spec fn no_controls() -> GameControls {
    GameControls {
        using_touch: false,
        ship_controls: ShipControls { rotate_left: false, rotate_right: false, thrust: false },
        fire: false,
        pause: false,
        advance: false,
    }
}

impl Default for GameControls {
    fn default() -> (r: Self)
        ensures
            r == no_controls(),
    {
        GameControls {
            using_touch: false,
            ship_controls: ShipControls::default(),
            fire: false,
            pause: false,
            advance: false,
        }
    }
}

/// Raw keyboard state: each turn/thrust/fire entry tells whether one of its
/// keys is held (arrows or WASD, space to fire); `pause_pressed` whether the
/// pause key went down this frame.
#[derive(Clone, Copy, Debug, PartialEq, Eq, Structural)]
pub struct GameKeys {
    pub rotate_left: bool,
    pub rotate_right: bool,
    pub thrust: bool,
    pub fire: bool,
    pub pause_pressed: bool,
}

/// Raw touch state: whether some pointer lies on each on-screen button.
#[derive(Clone, Copy, Debug, PartialEq, Eq, Structural)]
pub struct TouchPresses {
    pub rotate_left: bool,
    pub rotate_right: bool,
    pub thrust: bool,
    pub fire: bool,
    pub advance: bool,
}

/// Held keys and touched buttons count unless input is swallowed; buttons
/// count only once touch input has been seen; the pause key is read as a
/// fresh press and is never swallowed.
pub open spec fn controls_from(using_touch: bool, swallow: bool, k: GameKeys, t: TouchPresses) -> GameControls {
    GameControls {
        using_touch,
        ship_controls: ShipControls {
            rotate_left: passes(swallow, k.rotate_left) || (using_touch && passes(swallow, t.rotate_left)),
            rotate_right: passes(swallow, k.rotate_right) || (using_touch && passes(swallow, t.rotate_right)),
            thrust: passes(swallow, k.thrust) || (using_touch && passes(swallow, t.thrust)),
        },
        fire: passes(swallow, k.fire) || (using_touch && passes(swallow, t.fire)),
        pause: k.pause_pressed,
        advance: using_touch && passes(swallow, t.advance),
    }
}

/// The game's state as the contracts see it.
pub struct GameView {
    pub level: nat,
    pub next_event: nat,
    pub asteroids: Seq<AsteroidSize>,
    pub score: nat,
    pub paused: bool,
    pub cleared: bool,
    pub controls: GameControls,
}

impl GameView {
    /// The level exists, no more of its events have fired than it has, a
    /// game is never paused and cleared at once, and the score is made of
    /// whole hits.
    pub open spec fn wf(self) -> bool {
        &&& self.level < LEVEL_COUNT
        &&& self.next_event <= level_events(self.level as int).len()
        &&& !(self.paused && self.cleared)
        &&& self.score % (SCORE_INC as nat) == 0
    }

    /// The world moves only when the game is neither paused nor cleared.
    pub open spec fn running(self) -> bool {
        !self.paused && !self.cleared
    }
}

pub open spec fn initial_game() -> GameView {
    GameView {
        level: 0,
        next_event: 0,
        asteroids: larges(level_initial(0)),
        score: 0,
        paused: false,
        cleared: false,
        controls: no_controls(),
    }
}

/// How a frame starts, after the level and pause controls were handled.
#[derive(Clone, Copy, Debug, PartialEq, Eq, Structural)]
pub enum FrameStart {
    /// The last level was cleared and the player moved on: the game is won.
    Won,
    /// The next level begins: ship, bullets and asteroids start afresh.
    NextLevel,
    /// The game goes on in the same level.
    Same,
}

/// Moving on from a cleared level (pause or advance) starts the next level,
/// or wins the game after the last one; otherwise the pause key toggles pause.
pub open spec fn begin_frame_view(g: GameView) -> (GameView, FrameStart) {
    if g.cleared && (g.controls.pause || g.controls.advance) {
        if g.level + 1 < LEVEL_COUNT {
            (
                GameView {
                    level: g.level + 1,
                    next_event: 0,
                    asteroids: larges(level_initial(g.level + 1 as int)),
                    cleared: false,
                    ..g
                },
                FrameStart::NextLevel,
            )
        } else {
            (g, FrameStart::Won)
        }
    } else if g.controls.pause {
        (GameView { paused: !g.paused, ..g }, FrameStart::Same)
    } else {
        (g, FrameStart::Same)
    }
}

/// In a running frame, when the next event is due, it fires: its asteroids
/// join the field.
pub open spec fn fire_event_view(g: GameView, due: bool) -> (GameView, nat) {
    if g.running() && due && g.next_event < level_events(g.level as int).len() {
        let n = spawn_count(level_events(g.level as int)[g.next_event as int].spawn);
        (GameView { next_event: g.next_event + 1, asteroids: g.asteroids + larges(n), ..g }, n)
    } else {
        (g, 0)
    }
}

/// A level is cleared once no asteroid is left and none of its events is
/// still to come.
pub open spec fn finish_frame_view(g: GameView) -> GameView {
    GameView {
        cleared: g.asteroids.len() == 0 && g.next_event == level_events(g.level as int).len(),
        ..g
    }
}

/// Which asteroids the frame's bullets hit.
pub open spec fn frame_hits(g: GameView, rows: Seq<Seq<bool>>) -> Seq<bool> {
    taken_after(rows, g.asteroids.len(), rows.len())
}

/// The end of a frame: a paused or cleared game stays as it is; a crash loses
/// the game; otherwise every hit scores, the hit asteroids are replaced by
/// their pieces, and the level may become cleared.
pub open spec fn end_frame_view(g: GameView, crashed: bool, rows: Seq<Seq<bool>>) -> (GameView, Transition) {
    if !g.running() {
        (g, Transition::Stay)
    } else if crashed {
        (g, Transition::GameOver(false))
    } else {
        let n = g.asteroids.len();
        let played = GameView {
            score: (g.score + SCORE_INC * hit_count(rows, n, rows.len())) as nat,
            asteroids: rebuilt(g.asteroids, frame_hits(g, rows), n),
            ..g
        };
        (finish_frame_view(played), Transition::Stay)
    }
}

/// The frame's points still fit in the score.
pub open spec fn end_frame_fits(g: GameView, crashed: bool, rows: Seq<Seq<bool>>) -> bool {
    g.running() && !crashed ==> g.score + SCORE_INC * hit_count(rows, g.asteroids.len(), rows.len())
        <= u32::MAX
}

/// The outcome of a frame's end.
pub struct FrameEnd {
    pub transition: Transition,
    /// Which bullets hit what; present when the game was running and the ship
    /// did not crash.
    pub hits: Option<HitOutcome>,
    /// What became of each asteroid; empty when `hits` is absent.
    pub fates: Vec<Fate>,
}

impl FrameStart {
    /// Winning ends the game; otherwise the frame goes on.
    pub fn transition(&self) -> (r: Transition)
        ensures
            r == (if *self is Won {
                Transition::GameOver(true)
            } else {
                Transition::Stay
            }),
    {
        match self {
            FrameStart::Won => Transition::GameOver(true),
            _ => Transition::Stay,
        }
    }
}

/// A game in progress: level, timed events, asteroid field, score and the
/// pause/cleared state.  Positions and motion are kept beside it, by index
/// into the asteroid field.
pub struct Game {
    level: usize,
    next_event: usize,
    asteroids: Vec<AsteroidSize>,
    score: u32,
    paused: bool,
    cleared: bool,
    controls: GameControls,
}

impl View for Game {
    type V = GameView;

    closed spec fn view(&self) -> GameView {
        GameView {
            level: self.level as nat,
            next_event: self.next_event as nat,
            asteroids: self.asteroids@,
            score: self.score as nat,
            paused: self.paused,
            cleared: self.cleared,
            controls: self.controls,
        }
    }
}

impl Game {
    #[verifier::type_invariant]
    spec fn inv(&self) -> bool {
        &&& self.level < LEVEL_COUNT
        &&& self.next_event <= level_events(self.level as int).len()
        &&& !(self.paused && self.cleared)
        &&& self.score % SCORE_INC == 0
    }

    /// A new game: level 1 with its large asteroids, score 0.
    pub fn new() -> (r: Game)
        ensures
            r@ == initial_game(),
            r@.wf(),
    {
        let mut asteroids: Vec<AsteroidSize> = Vec::new();
        push_larges(&mut asteroids, initial_asteroids(0));
        let g = Game {
            level: 0,
            next_event: 0,
            asteroids,
            score: 0,
            paused: false,
            cleared: false,
            controls: GameControls::default(),
        };
        assert(g@.asteroids =~= initial_game().asteroids);
        g
    }

    pub fn score(&self) -> (r: u32)
        ensures
            r == self@.score,
    {
        self.score
    }

    /// The level being played, counting from 0.
    pub fn level(&self) -> (r: usize)
        ensures
            r == self@.level,
    {
        self.level
    }

    pub fn is_paused(&self) -> (r: bool)
        ensures
            r == self@.paused,
    {
        self.paused
    }

    pub fn is_cleared(&self) -> (r: bool)
        ensures
            r == self@.cleared,
    {
        self.cleared
    }

    pub fn is_running(&self) -> (r: bool)
        ensures
            r == self@.running(),
    {
        !self.paused && !self.cleared
    }

    /// The asteroid field, by size; positions are kept by the same index.
    pub fn asteroids(&self) -> (r: &Vec<AsteroidSize>)
        ensures
            r@ == self@.asteroids,
    {
        &self.asteroids
    }

    pub fn controls(&self) -> (r: GameControls)
        ensures
            r == self@.controls,
    {
        self.controls
    }

    /// Reads this frame's controls from the keyboard and the touch buttons.
    pub fn update_controls(&mut self, i: &Input, keys: &GameKeys, touch: &TouchPresses)
        ensures
            final(self)@ == (GameView {
                controls: controls_from(i.using_touch, i.swallow, *keys, *touch),
                ..old(self)@
            }),
            final(self)@.wf(),
    {
        proof {
            use_type_invariant(&*self);
        }
        let t = i.using_touch;
        let mut c = GameControls {
            using_touch: t,
            ship_controls: ShipControls {
                rotate_left: i.is_key_down(keys.rotate_left),
                rotate_right: i.is_key_down(keys.rotate_right),
                thrust: i.is_key_down(keys.thrust),
            },
            fire: i.is_key_down(keys.fire),
            pause: keys.pause_pressed,
            advance: false,
        };
        if t {
            if i.is_pressed(touch.rotate_left) {
                c.ship_controls.rotate_left = true;
            }
            if i.is_pressed(touch.rotate_right) {
                c.ship_controls.rotate_right = true;
            }
            if i.is_pressed(touch.thrust) {
                c.ship_controls.thrust = true;
            }
            if i.is_pressed(touch.fire) {
                c.fire = true;
            }
            if i.is_pressed(touch.advance) {
                c.advance = true;
            }
        }
        self.controls = c;
    }

    /// Handles moving on from a cleared level and the pause key.
    pub fn begin_frame(&mut self) -> (r: FrameStart)
        ensures
            (final(self)@, r) == begin_frame_view(old(self)@),
            final(self)@.wf(),
    {
        proof {
            use_type_invariant(&*self);
        }
        if self.cleared && (self.controls.pause || self.controls.advance) {
            if self.level + 1 < LEVEL_COUNT {
                self.next_event = 0;
                self.level = self.level + 1;
                let mut asteroids: Vec<AsteroidSize> = Vec::new();
                push_larges(&mut asteroids, initial_asteroids(self.level));
                assert(asteroids@ =~= larges(level_initial(self.level as int)));
                self.asteroids = asteroids;
                self.cleared = false;
                return FrameStart::NextLevel;
            } else {
                return FrameStart::Won;
            }
        } else if self.controls.pause {
            self.paused = !self.paused;
        }
        FrameStart::Same
    }

    /// When the level's next event is due: the seconds after the level's start
    /// at which it fires.
    pub fn next_event_at(&self) -> (r: Option<u32>)
        ensures
            r == (if self@.next_event < level_events(self@.level as int).len() {
                Some(level_events(self@.level as int)[self@.next_event as int].at_secs)
            } else {
                None
            }),
    {
        proof {
            use_type_invariant(self);
        }
        if self.next_event < event_count(self.level) {
            Some(level_event(self.level, self.next_event).at_secs)
        } else {
            None
        }
    }

    /// Fires the level's next event when `due`; returns how many large
    /// asteroids it added at the end of the field.
    pub fn fire_event(&mut self, due: bool) -> (r: usize)
        ensures
            (final(self)@, r as nat) == fire_event_view(old(self)@, due),
            final(self)@.wf(),
    {
        proof {
            use_type_invariant(&*self);
        }
        if !self.paused && !self.cleared && due && self.next_event < event_count(self.level) {
            let e = level_event(self.level, self.next_event);
            let n: usize = match e.spawn {
                Spawn::Asteroids(n) => n,
                Spawn::Alien => 0,
            };
            let mut field: Vec<AsteroidSize> = Vec::new();
            std::mem::swap(&mut field, &mut self.asteroids);
            push_larges(&mut field, n);
            self.asteroids = field;
            self.next_event = self.next_event + 1;
            n
        } else {
            0
        }
    }

    /// Adds the points for `hits` asteroids hit by bullets.
    pub fn award_hits(&mut self, hits: usize)
        requires
            old(self)@.score + SCORE_INC * hits <= u32::MAX,
        ensures
            final(self)@ == (GameView { score: (old(self)@.score + SCORE_INC * hits) as nat, ..old(self)@ }),
            final(self)@.wf(),
    {
        proof {
            use_type_invariant(&*self);
        }
        self.score = self.score + SCORE_INC * (hits as u32);
    }

    /// Replaces each hit asteroid by its fragments, keeping the order of the
    /// field; returns what became of each asteroid.
    pub fn rebuild_asteroids(&mut self, hit: &Vec<bool>) -> (r: Vec<Fate>)
        requires
            hit.len() == old(self)@.asteroids.len(),
        ensures
            final(self)@ == (GameView {
                asteroids: rebuilt(old(self)@.asteroids, hit@, hit.len() as nat),
                ..old(self)@
            }),
            final(self)@.wf(),
            r.len() == hit.len(),
            forall|k: int| 0 <= k < r.len() ==> r[k] == asteroid::fate_of(old(self)@.asteroids[k], hit[k]),
    {
        proof {
            use_type_invariant(&*self);
        }
        let (fates, field) = rebuild_field(&self.asteroids, hit);
        self.asteroids = field;
        fates
    }

    /// Decides whether the level is cleared, and swallows held input when it is.
    fn finish_frame(&mut self, i: &mut Input)
        requires
            !old(self)@.paused,
        ensures
            final(self)@ == finish_frame_view(old(self)@),
            final(self)@.wf(),
            final(i).using_touch == old(i).using_touch,
            final(i).swallow == (old(i).swallow || final(self)@.cleared),
    {
        proof {
            use_type_invariant(&*self);
        }
        self.cleared = self.asteroids.len() == 0 && self.next_event == event_count(self.level);
        if self.cleared {
            i.consume();
        }
    }

    /// Ends a frame, after the world moved: `crashed` tells whether the ship
    /// hit an asteroid, `intersects[b][a]` whether bullet `b`'s last step
    /// crossed asteroid `a`.  Nothing happens unless the game is running; a
    /// crash ends the game, lost; otherwise the bullets score their hits, the
    /// hit asteroids break up, and the level may become cleared.
    pub fn end_frame(&mut self, crashed: bool, intersects: &Vec<Vec<bool>>, i: &mut Input) -> (r: FrameEnd)
        requires
            forall|b: int|
                0 <= b < intersects.len() ==> #[trigger] intersects[b].len() == old(self)@.asteroids.len(),
            end_frame_fits(old(self)@, crashed, rows_of(intersects@)),
        ensures
            ({
                let (g, t) = end_frame_view(old(self)@, crashed, rows_of(intersects@));
                &&& final(self)@ == g
                &&& r.transition == t
            }),
            final(self)@.wf(),
            r.hits is Some <==> (old(self)@.running() && !crashed),
            r.hits matches Some(o) ==> {
                &&& o.targets.len() == intersects.len()
                &&& forall|b: int|
                    0 <= b < intersects.len() ==> as_int(#[trigger] o.targets[b]) == target_of(
                        rows_of(intersects@),
                        old(self)@.asteroids.len(),
                        b as nat,
                    )
                &&& o.asteroid_hit@ == frame_hits(old(self)@, rows_of(intersects@))
                &&& o.hits == hit_count(
                    rows_of(intersects@),
                    old(self)@.asteroids.len(),
                    intersects.len() as nat,
                )
                &&& r.fates.len() == old(self)@.asteroids.len()
                &&& forall|k: int|
                    0 <= k < r.fates.len() ==> r.fates[k] == asteroid::fate_of(
                        old(self)@.asteroids[k],
                        o.asteroid_hit[k],
                    )
            },
            r.hits is None ==> r.fates.len() == 0,
            r.hits matches Some(o) ==> final(self)@.score == old(self)@.score + SCORE_INC * o.hits,
            r.hits matches Some(o) ==> o.hits == count_true(o.asteroid_hit@),
            r.hits is None ==> final(self)@ == old(self)@,
            final(i).using_touch == old(i).using_touch,
            final(i).swallow == (old(i).swallow || (r.hits is Some && final(self)@.cleared)),
    {
        proof {
            use_type_invariant(&*self);
        }
        if self.paused || self.cleared {
            return FrameEnd { transition: Transition::Stay, hits: None, fates: Vec::new() };
        }
        if crashed {
            return FrameEnd { transition: Transition::GameOver(false), hits: None, fates: Vec::new() };
        }
        let n = self.asteroids.len();
        let outcome = resolve_hits(intersects, n);
        proof {
            lemma_score_step(self.score as nat, outcome.hits as nat);
        }
        self.score = self.score + SCORE_INC * (outcome.hits as u32);
        let fates = self.rebuild_asteroids(&outcome.asteroid_hit);
        self.finish_frame(i);
        FrameEnd { transition: Transition::Stay, hits: Some(outcome), fates }
    }
}

/// Adding whole hits keeps the score made of whole hits.
proof fn lemma_score_step(score: nat, hits: nat)
    requires
        score % (SCORE_INC as nat) == 0,
    ensures
        (score + SCORE_INC * hits) % (SCORE_INC as int) == 0,
{
    assert((score + 10 * hits) % 10 == 0) by (nonlinear_arith)
        requires
            score % 10 == 0,
    ;
}

/// Moving on never skips a level: the level stays or goes up by one, only
/// from a cleared level, and the game is won only by moving on from the last
/// level once it is cleared.  The score is untouched.
pub proof fn lemma_level_progress(g: GameView)
    requires
        g.wf(),
    ensures
        ({
            let (h, r) = begin_frame_view(g);
            &&& h.wf()
            &&& h.score == g.score
            &&& (r == FrameStart::NextLevel <==> h.level == g.level + 1)
            &&& (r != FrameStart::NextLevel ==> h.level == g.level)
            &&& (r == FrameStart::NextLevel ==> g.cleared && !h.cleared && h.next_event == 0)
            &&& (r == FrameStart::Won ==> g.cleared && g.level == LEVEL_COUNT - 1 && h == g)
        }),
{
}

/// Pressing pause in two frames of a level that is not cleared brings the
/// game back to where it was.
pub proof fn lemma_pause_twice(g: GameView)
    requires
        !g.cleared,
        g.controls.pause,
    ensures
        begin_frame_view(begin_frame_view(g).0).0 == g,
        begin_frame_view(g).0.paused == !g.paused,
{
}

/// Timed events fire one at a time and in order: each firing moves to the
/// next event, adds exactly that event's asteroids after the existing ones,
/// and never goes past the level's last event.
pub proof fn lemma_events_in_order(g: GameView, due: bool)
    requires
        g.wf(),
    ensures
        ({
            let (h, n) = fire_event_view(g, due);
            &&& h.wf()
            &&& h.next_event == g.next_event || h.next_event == g.next_event + 1
            &&& h.asteroids.len() == g.asteroids.len() + n
            &&& h.asteroids.subrange(0, g.asteroids.len() as int) == g.asteroids
            &&& (h.next_event == g.next_event ==> n == 0 && h == g)
        }),
{
    let (h, n) = fire_event_view(g, due);
    assert(h.asteroids.subrange(0, g.asteroids.len() as int) =~= g.asteroids);
}

/// What a frame of play hands the game: the controls read, whether the next
/// event's time has come, whether the ship crashed, and which asteroid each
/// bullet's last step crossed.
pub struct FrameInput {
    pub controls: GameControls,
    pub due: bool,
    pub crashed: bool,
    pub rows: Seq<Seq<bool>>,
}

/// One whole frame, in the order the steps run: read the controls, move on or
/// toggle pause, and — unless the game was just won — fire a due event and end
/// the frame.
pub open spec fn frame_view(g: GameView, f: FrameInput) -> (GameView, Transition) {
    let (g2, s) = begin_frame_view(GameView { controls: f.controls, ..g });
    if s == FrameStart::Won {
        (g2, Transition::GameOver(true))
    } else {
        end_frame_view(fire_event_view(g2, f.due).0, f.crashed, f.rows)
    }
}

/// The game after a run of frames.
pub open spec fn run_view(g: GameView, frames: Seq<FrameInput>) -> GameView
    decreases frames.len(),
{
    if frames.len() == 0 {
        g
    } else {
        frame_view(run_view(g, frames.drop_last()), frames.last()).0
    }
}

/// Each step of a frame keeps the game's invariant, and while the game is
/// paused or cleared the world steps leave it unchanged.
pub proof fn lemma_frame_keeps_invariant(g: GameView, due: bool, crashed: bool, rows: Seq<Seq<bool>>)
    requires
        g.wf(),
    ensures
        begin_frame_view(g).0.wf(),
        fire_event_view(g, due).0.wf(),
        end_frame_view(g, crashed, rows).0.wf(),
        !g.running() ==> fire_event_view(g, due) == (g, 0nat),
        !g.running() ==> end_frame_view(g, crashed, rows) == (g, Transition::Stay),
        g.running() && crashed ==> end_frame_view(g, crashed, rows) == (g, Transition::GameOver(false)),
{
    let n = g.asteroids.len();
    lemma_score_step(g.score, hit_count(rows, n, rows.len()));
}

/// From a new game, whatever frames are played, the level exists, events never
/// run past the level's last one, the game is never paused and cleared at once,
/// and the score is a multiple of ten.
pub proof fn lemma_run_keeps_invariant(frames: Seq<FrameInput>)
    ensures
        run_view(initial_game(), frames).wf(),
    decreases frames.len(),
{
    if frames.len() > 0 {
        lemma_run_keeps_invariant(frames.drop_last());
        let g = run_view(initial_game(), frames.drop_last());
        let f = frames.last();
        let g1 = GameView { controls: f.controls, ..g };
        lemma_frame_keeps_invariant(g1, f.due, f.crashed, f.rows);
        let g2 = begin_frame_view(g1).0;
        lemma_frame_keeps_invariant(g2, f.due, f.crashed, f.rows);
        let g3 = fire_event_view(g2, f.due).0;
        lemma_frame_keeps_invariant(g3, f.due, f.crashed, f.rows);
    }
}

/// Ending a running frame without a crash: the score grows by ten for every
/// asteroid a bullet hit, the hit asteroids are replaced by their pieces, the
/// level, events and pause are untouched, and the level is cleared exactly
/// when no asteroid is left and every event has fired.
pub proof fn lemma_frame_scores_each_hit(g: GameView, rows: Seq<Seq<bool>>)
    requires
        g.running(),
    ensures
        ({
            let (h, t) = end_frame_view(g, false, rows);
            let hit = frame_hits(g, rows);
            &&& t == Transition::Stay
            &&& h.score == g.score + SCORE_INC * count_true(hit)
            &&& h.asteroids == rebuilt(g.asteroids, hit, g.asteroids.len())
            &&& h.level == g.level
            &&& h.next_event == g.next_event
            &&& h.paused == g.paused
            &&& h.controls == g.controls
            &&& h.cleared == (h.asteroids.len() == 0 && g.next_event == level_events(g.level as int).len())
        }),
{
    lemma_hits_match_taken(rows, g.asteroids.len(), rows.len());
}

/// A frame's end does nothing to a paused or cleared game, and a crash loses
/// the game without scoring or breaking anything.
pub proof fn lemma_frame_end_idle_or_crash(g: GameView, crashed: bool, rows: Seq<Seq<bool>>)
    ensures
        !g.running() ==> end_frame_view(g, crashed, rows) == (g, Transition::Stay),
        g.running() && crashed ==> end_frame_view(g, crashed, rows) == (g, Transition::GameOver(false)),
{
}

/// Firing an event: nothing happens unless the game runs, the event is due and
/// one is left; otherwise the next event comes up, an alien adds no asteroid,
/// and `Spawn::Asteroids(k)` adds exactly `k` large asteroids after the
/// existing ones.  Nothing else changes.
pub proof fn lemma_fire_event_spawns(g: GameView, due: bool)
    ensures
        ({
            let (h, n) = fire_event_view(g, due);
            if g.running() && due && g.next_event < level_events(g.level as int).len() {
                &&& h.next_event == g.next_event + 1
                &&& h.level == g.level
                &&& h.score == g.score
                &&& h.paused == g.paused
                &&& h.cleared == g.cleared
                &&& h.controls == g.controls
                &&& match level_events(g.level as int)[g.next_event as int].spawn {
                    Spawn::Alien => n == 0 && h.asteroids == g.asteroids,
                    Spawn::Asteroids(k) => {
                        &&& n == k
                        &&& h.asteroids.len() == g.asteroids.len() + k
                        &&& h.asteroids.subrange(0, g.asteroids.len() as int) == g.asteroids
                        &&& forall|j: int|
                            g.asteroids.len() <= j < h.asteroids.len() ==> h.asteroids[j] == AsteroidSize::Large
                    },
                }
            } else {
                h == g && n == 0
            }
        }),
{
    let (h, n) = fire_event_view(g, due);
    assert(h.asteroids.subrange(0, g.asteroids.len() as int) =~= g.asteroids);
}

/// How a frame starts: a cleared game on which pause or advance is pressed
/// moves on, to the next level (a fresh field of large asteroids, no event
/// fired, not cleared) or, from the last level, to a win; otherwise the level,
/// events, field and cleared state stay, and pause flips exactly when the
/// pause key is pressed in a game that is not cleared.  The score never
/// changes.
pub proof fn lemma_begin_frame_outcomes(g: GameView)
    requires
        g.wf(),
    ensures
        ({
            let (h, r) = begin_frame_view(g);
            let moving_on = g.cleared && (g.controls.pause || g.controls.advance);
            &&& (r == FrameStart::Won <==> moving_on && g.level + 1 == LEVEL_COUNT)
            &&& (r == FrameStart::NextLevel <==> moving_on && g.level + 1 < LEVEL_COUNT)
            &&& h.score == g.score
            &&& h.controls == g.controls
            &&& h.paused == (g.paused != (g.controls.pause && !g.cleared))
            &&& (r == FrameStart::NextLevel ==> {
                &&& h.level == g.level + 1
                &&& h.next_event == 0
                &&& !h.cleared
                &&& h.asteroids.len() == level_initial(h.level as int)
                &&& forall|j: int| 0 <= j < h.asteroids.len() ==> h.asteroids[j] == AsteroidSize::Large
            })
            &&& (r != FrameStart::NextLevel ==> {
                &&& h.level == g.level
                &&& h.next_event == g.next_event
                &&& h.asteroids == g.asteroids
                &&& h.cleared == g.cleared
            })
        }),
{
}

/// Controls follow the input: the pause key always counts; while input is
/// swallowed nothing else does; otherwise each held key counts, and with
/// touch in use so does each touched button (the advance button exists only
/// on the touch screen).
pub proof fn lemma_controls_follow_input(using_touch: bool, swallow: bool, k: GameKeys, t: TouchPresses)
    ensures
        ({
            let c = controls_from(using_touch, swallow, k, t);
            &&& c.using_touch == using_touch
            &&& c.pause == k.pause_pressed
            &&& (swallow ==> {
                &&& !c.ship_controls.rotate_left
                &&& !c.ship_controls.rotate_right
                &&& !c.ship_controls.thrust
                &&& !c.fire
                &&& !c.advance
            })
            &&& (!swallow && !using_touch ==> {
                &&& c.ship_controls.rotate_left == k.rotate_left
                &&& c.ship_controls.rotate_right == k.rotate_right
                &&& c.ship_controls.thrust == k.thrust
                &&& c.fire == k.fire
                &&& !c.advance
            })
            &&& (!swallow && using_touch ==> {
                &&& c.ship_controls.rotate_left == (k.rotate_left || t.rotate_left)
                &&& c.ship_controls.rotate_right == (k.rotate_right || t.rotate_right)
                &&& c.ship_controls.thrust == (k.thrust || t.thrust)
                &&& c.fire == (k.fire || t.fire)
                &&& c.advance == t.advance
            })
        }),
{
}

} // verus!

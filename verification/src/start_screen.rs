use vstd::prelude::*;

use crate::input::{passes, Input};
use crate::transition::Transition;

verus! {

/// Number of entries in the start menu: "New Game" and the debug-info toggle.
pub const MENU_LEN: usize = 2;

/// The start screen's controls for one frame.
#[derive(Clone, Copy, Debug, PartialEq, Eq, Structural)]
pub struct StartScreenControls {
    pub menu_down: bool,
    pub menu_up: bool,
    pub select: bool,
    /// The "New Game" button is touched.
    pub new_game: bool,
    /// The debug-info button is touched.
    pub toggle_debug_info: bool,
}

impl StartScreenControls {
    /// `down_keys`/`up_keys` tell whether a key of either direction is held
    /// (arrows or S/W), `select_pressed` whether Enter or Space went down this
    /// frame, and the two touch flags whether a pointer lies on the button.
    /// Held keys and buttons are swallowed like every input; the buttons count
    /// only once touch input has been seen.
    pub fn from_input(
        i: &Input,
        down_keys: bool,
        up_keys: bool,
        select_pressed: bool,
        new_game_touched: bool,
        toggle_touched: bool,
    ) -> (c: Self)
        ensures
            c.menu_down == passes(i.swallow, down_keys),
            c.menu_up == passes(i.swallow, up_keys),
            c.select == select_pressed,
            c.new_game == (i.using_touch && passes(i.swallow, new_game_touched)),
            c.toggle_debug_info == (i.using_touch && passes(i.swallow, toggle_touched)),
    {
        let mut c = StartScreenControls {
            menu_down: i.is_key_down(down_keys),
            menu_up: i.is_key_down(up_keys),
            select: select_pressed,
            new_game: false,
            toggle_debug_info: false,
        };
        if i.using_touch {
            if i.is_pressed(new_game_touched) {
                c.new_game = true;
            }
            if i.is_pressed(toggle_touched) {
                c.toggle_debug_info = true;
            }
        }
        c
    }
}

/// What happens to the menu cursor's cooldown timer in a frame.
#[derive(Clone, Copy, Debug, PartialEq, Eq, Structural)]
pub enum Cooldown {
    /// Left as it is.
    Untouched,
    /// Still running: it counts down by the frame's time.
    Tick,
    /// The cursor moved: the timer starts again.
    Restart,
}

/// The result of a start-screen frame.
#[derive(Clone, Copy, Debug, PartialEq, Eq, Structural)]
pub struct StartStep {
    pub transition: Transition,
    pub cooldown: Cooldown,
}

/// The start screen as the contracts see it.
pub struct StartView {
    pub cursor_pos: nat,
    pub show_debug: bool,
    pub using_touch: bool,
}

pub open spec fn initial_start() -> StartView {
    StartView { cursor_pos: 0, show_debug: false, using_touch: false }
}

/// Where the cursor goes, and what its timer does: while the timer runs the
/// cursor stays; otherwise one direction held alone moves it, wrapping around.
pub open spec fn cursor_after(pos: nat, c: StartScreenControls, cooling_down: bool) -> (nat, Cooldown) {
    if cooling_down {
        (pos, Cooldown::Tick)
    } else if c.menu_down && !c.menu_up {
        ((pos + 1) % (MENU_LEN as nat), Cooldown::Restart)
    } else if c.menu_up && !c.menu_down {
        ((pos + MENU_LEN - 1) as nat % (MENU_LEN as nat), Cooldown::Restart)
    } else {
        (pos, Cooldown::Untouched)
    }
}

/// One frame of the start screen: touching "New Game" starts a game at once;
/// touching the debug button toggles the debug info and swallows held input;
/// then the cursor moves; selecting the first entry starts a game, selecting
/// the second toggles the debug info.  The last component tells whether held
/// input is swallowed.
pub open spec fn start_update_view(
    s: StartView,
    c: StartScreenControls,
    touch: bool,
    cooling_down: bool,
) -> (StartView, StartStep, bool) {
    if touch && c.new_game {
        (
            StartView { using_touch: true, ..s },
            StartStep { transition: Transition::NewGame, cooldown: Cooldown::Untouched },
            false,
        )
    } else {
        let consumed = touch && c.toggle_debug_info;
        let s1 = StartView {
            using_touch: s.using_touch || touch,
            show_debug: if consumed { !s.show_debug } else { s.show_debug },
            ..s
        };
        let (pos, cd) = cursor_after(s.cursor_pos, c, cooling_down);
        let s2 = StartView { cursor_pos: pos, ..s1 };
        if c.select && pos == 0 {
            (s2, StartStep { transition: Transition::NewGame, cooldown: cd }, consumed)
        } else if c.select && pos == 1 {
            (
                StartView { show_debug: !s2.show_debug, ..s2 },
                StartStep { transition: Transition::Stay, cooldown: cd },
                consumed,
            )
        } else if c.select {
            (StartView { cursor_pos: 0, ..s2 }, StartStep { transition: Transition::Stay, cooldown: cd }, consumed)
        } else {
            (s2, StartStep { transition: Transition::Stay, cooldown: cd }, consumed)
        }
    }
}

/// The start menu: cursor, debug-info toggle, and whether touch is in use
/// (the cursor is drawn only without touch).  The cursor's cooldown timer is
/// kept beside it; `update` says what to do with it.
pub struct StartScreen {
    cursor_pos: usize,
    show_debug: bool,
    using_touch: bool,
}

impl View for StartScreen {
    type V = StartView;

    closed spec fn view(&self) -> StartView {
        StartView {
            cursor_pos: self.cursor_pos as nat,
            show_debug: self.show_debug,
            using_touch: self.using_touch,
        }
    }
}

impl StartScreen {
    #[verifier::type_invariant]
    spec fn inv(&self) -> bool {
        self.cursor_pos < MENU_LEN
    }

    pub fn new() -> (r: StartScreen)
        ensures
            r@ == initial_start(),
    {
        StartScreen { cursor_pos: 0, show_debug: false, using_touch: false }
    }

    pub fn cursor_pos(&self) -> (r: usize)
        ensures
            r == self@.cursor_pos,
            r < MENU_LEN,
    {
        proof {
            use_type_invariant(self);
        }
        self.cursor_pos
    }

    pub fn show_debug(&self) -> (r: bool)
        ensures
            r == self@.show_debug,
    {
        self.show_debug
    }

    pub fn using_touch(&self) -> (r: bool)
        ensures
            r == self@.using_touch,
    {
        self.using_touch
    }

    /// One frame of the start screen; `cooling_down` tells whether the
    /// cursor's cooldown timer is still running.
    pub fn update(&mut self, c: &StartScreenControls, i: &mut Input, cooling_down: bool) -> (r: StartStep)
        ensures
            ({
                let (s, step, consumed) = start_update_view(old(self)@, *c, old(i).using_touch, cooling_down);
                &&& final(self)@ == s
                &&& r == step
                &&& final(i).using_touch == old(i).using_touch
                &&& final(i).swallow == (old(i).swallow || consumed)
            }),
            final(self)@.cursor_pos < MENU_LEN,
            c.select && !(old(i).using_touch && c.new_game) ==> (r.transition == Transition::NewGame
                <==> final(self)@.cursor_pos == 0),
            cooling_down && !(old(i).using_touch && c.new_game) ==> final(self)@.cursor_pos
                == old(self)@.cursor_pos,
    {
        proof {
            use_type_invariant(&*self);
        }
        if i.using_touch {
            self.using_touch = i.using_touch;
            if c.new_game {
                return StartStep { transition: Transition::NewGame, cooldown: Cooldown::Untouched };
            }
            if c.toggle_debug_info {
                self.show_debug = !self.show_debug;
                i.consume();
            }
        }
        let mut cooldown = Cooldown::Untouched;
        if cooling_down {
            cooldown = Cooldown::Tick;
        } else {
            if c.menu_down && !c.menu_up {
                self.cursor_pos = (self.cursor_pos + 1) % MENU_LEN;
                cooldown = Cooldown::Restart;
            } else if c.menu_up && !c.menu_down {
                self.cursor_pos = (self.cursor_pos + MENU_LEN - 1) % MENU_LEN;
                cooldown = Cooldown::Restart;
            }
        }
        if c.select {
            if self.cursor_pos == 0 {
                return StartStep { transition: Transition::NewGame, cooldown };
            } else if self.cursor_pos == 1 {
                self.show_debug = !self.show_debug;
            } else {
                self.cursor_pos = 0;
            }
        }
        StartStep { transition: Transition::Stay, cooldown }
    }
}

/// The menu wraps around: from either entry, moving down and then up (or up
/// and then down) comes back to it, and so does moving twice the same way.
pub proof fn lemma_menu_wraps(pos: nat, down: StartScreenControls, up: StartScreenControls)
    requires
        pos < MENU_LEN,
        down.menu_down && !down.menu_up,
        up.menu_up && !up.menu_down,
    ensures
        cursor_after(cursor_after(pos, down, false).0, up, false).0 == pos,
        cursor_after(cursor_after(pos, up, false).0, down, false).0 == pos,
        cursor_after(cursor_after(pos, down, false).0, down, false).0 == pos,
        cursor_after(pos, down, false).0 < MENU_LEN,
        cursor_after(pos, up, false).0 < MENU_LEN,
{
}

/// While the cooldown timer runs, the cursor does not move.
pub proof fn lemma_cooldown_holds_cursor(pos: nat, c: StartScreenControls)
    ensures
        cursor_after(pos, c, true) == (pos, Cooldown::Tick),
{
}

/// A start-screen frame, over all inputs: touching "New Game" starts a game at
/// once and changes nothing but the touch flag.  Otherwise touching the debug
/// button is what swallows input; a running cooldown holds the cursor; holding
/// one direction alone moves the cursor to the other entry and restarts the
/// cooldown, holding none or both leaves it; a game starts exactly when
/// select is pressed with the cursor (after its move) on "New Game", and
/// otherwise the screen stays; the debug info flips once for the touched
/// debug button and once for selecting the debug entry.
pub proof fn lemma_start_step(s: StartView, c: StartScreenControls, touch: bool, cooling_down: bool)
    requires
        s.cursor_pos < MENU_LEN,
    ensures
        ({
            let (t, step, consumed) = start_update_view(s, c, touch, cooling_down);
            &&& t.using_touch == (s.using_touch || touch)
            &&& t.cursor_pos < MENU_LEN
            &&& (touch && c.new_game ==> {
                &&& step.transition == Transition::NewGame
                &&& step.cooldown == Cooldown::Untouched
                &&& !consumed
                &&& t.cursor_pos == s.cursor_pos
                &&& t.show_debug == s.show_debug
            })
            &&& (!(touch && c.new_game) ==> {
                &&& consumed == (touch && c.toggle_debug_info)
                &&& (cooling_down ==> t.cursor_pos == s.cursor_pos && step.cooldown == Cooldown::Tick)
                &&& (!cooling_down && c.menu_down == c.menu_up ==> t.cursor_pos == s.cursor_pos
                    && step.cooldown == Cooldown::Untouched)
                &&& (!cooling_down && c.menu_down != c.menu_up ==> t.cursor_pos != s.cursor_pos
                    && step.cooldown == Cooldown::Restart)
                &&& (step.transition == Transition::NewGame <==> c.select && t.cursor_pos == 0)
                &&& (step.transition != Transition::NewGame ==> step.transition == Transition::Stay)
                &&& t.show_debug == (s.show_debug != ((touch && c.toggle_debug_info) != (c.select
                    && t.cursor_pos == 1)))
            })
        }),
{
}

} // verus!

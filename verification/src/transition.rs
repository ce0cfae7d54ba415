use vstd::prelude::*;

verus! {

/// What the screen that handled a frame asks the main loop to do next.
#[derive(Clone, Copy, Debug, PartialEq, Eq, Structural)]
pub enum Transition {
    /// Stay on the current screen.
    Stay,
    /// Start a fresh game.
    NewGame,
    /// The game ended; `true` when every level was cleared.
    GameOver(bool),
    /// Go back to the start screen.
    ToStart,
}

impl Transition {
    /// Every transition other than `Stay` swallows the inputs that are held
    /// while it happens, so they do not leak into the next screen.
    pub fn consumes_input(&self) -> (r: bool)
        ensures
            r == !(*self is Stay),
    {
        match self {
            Transition::Stay => false,
            _ => true,
        }
    }
}

} // verus!

use vstd::prelude::*;

verus! {

/// Whether a held key or touched button counts: none does while input is
/// swallowed.
pub open spec fn passes(swallowing: bool, raw: bool) -> bool {
    !swallowing && raw
}

/// The input after `update` with the given readings.
pub open spec fn updated(i: Input, touching: bool, anything_active: bool) -> Input {
    Input { using_touch: i.using_touch || touching, swallow: i.swallow && anything_active }
}

/// The input after `consume`.
pub open spec fn consumed(i: Input) -> Input {
    Input { swallow: true, ..i }
}

/// The input after a series of updates, each given as (touching, anything active).
pub open spec fn updated_all(i: Input, readings: Seq<(bool, bool)>) -> Input
    decreases readings.len(),
{
    if readings.len() == 0 {
        i
    } else {
        let r = readings.last();
        updated(updated_all(i, readings.drop_last()), r.0, r.1)
    }
}

/// The input state that every screen reads through: whether touch input has
/// been seen, and whether held inputs are being swallowed after a screen
/// change.  The raw readings (keys, pointers) come from the platform.
pub struct Input {
    pub using_touch: bool,
    /// True while held inputs are ignored, until everything is released.
    pub swallow: bool,
}

impl Input {
    pub fn new() -> (r: Input)
        ensures
            !r.using_touch,
            !r.swallow,
    {
        Input { using_touch: false, swallow: false }
    }

    /// Per-frame update: `touching` tells whether any touch is active this
    /// frame, `anything_active` whether any key, touch or left mouse button
    /// is down.  Touch use is sticky; swallowing ends once nothing is active.
    pub fn update(&mut self, touching: bool, anything_active: bool)
        ensures
            *final(self) == updated(*old(self), touching, anything_active),
    {
        if touching {
            self.using_touch = true;
        }
        if self.swallow && !anything_active {
            self.swallow = false;
        }
    }

    /// Ignores every held input until all of them are released.
    pub fn consume(&mut self)
        ensures
            *final(self) == consumed(*old(self)),
    {
        self.swallow = true;
    }

    /// A fresh key press or an active touch, unless input is swallowed.
    pub fn any_press(&self, key_pressed_or_touch: bool) -> (r: bool)
        ensures
            r == passes(self.swallow, key_pressed_or_touch),
    {
        !self.swallow && key_pressed_or_touch
    }

    /// Whether some pointer lies inside a button, unless input is swallowed.
    pub fn is_pressed(&self, pointer_inside: bool) -> (r: bool)
        ensures
            r == passes(self.swallow, pointer_inside),
    {
        !self.swallow && pointer_inside
    }

    /// Whether a key is held down, unless input is swallowed.
    pub fn is_key_down(&self, down: bool) -> (r: bool)
        ensures
            r == passes(self.swallow, down),
    {
        !self.swallow && down
    }
}

/// After `consume`, no key or button counts, whatever the platform reports,
/// for as long as every `update` finds something still active; the first
/// `update` that finds nothing active lets them count again.  Touch use is
/// never forgotten.
pub proof fn lemma_consume_silences_until_release(
    i: Input,
    held: Seq<(bool, bool)>,
    touching: bool,
    raw: bool,
)
    requires
        forall|k: int| 0 <= k < held.len() ==> (#[trigger] held[k]).1,
    ensures
        !passes(updated_all(consumed(i), held).swallow, raw),
        passes(updated(updated_all(consumed(i), held), touching, false).swallow, raw) == raw,
        i.using_touch ==> updated_all(consumed(i), held).using_touch,
    decreases held.len(),
{
    if held.len() > 0 {
        lemma_consume_silences_until_release(i, held.drop_last(), touching, raw);
        assert(held.last().1);
    }
}

/// Touch use starts with the first touch and is never forgotten; swallowing
/// ends only with an update that finds nothing active, and `consume` changes
/// nothing but the swallowing.
pub proof fn lemma_update_and_consume(i: Input, touching: bool, anything_active: bool)
    ensures
        updated(i, touching, anything_active).using_touch <==> (i.using_touch || touching),
        updated(i, touching, anything_active).swallow ==> i.swallow,
        i.swallow && anything_active ==> updated(i, touching, anything_active).swallow,
        !anything_active ==> !updated(i, touching, anything_active).swallow,
        consumed(i).swallow,
        consumed(i).using_touch == i.using_touch,
        !passes(true, touching),
        !i.swallow ==> passes(i.swallow, touching) == touching,
{
}

} // verus!

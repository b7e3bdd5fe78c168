//! The per-tick input snapshot of an actor, with edge-triggered flags for
//! one-shot actions.
use vstd::prelude::*;

verus! {

/// One of the discrete inputs of an actor.
#[derive(Clone, Copy, Debug, PartialEq, Eq, Structural)]
pub enum InputType {
    Up,
    Down,
    Left,
    Right,
    Sprint,
    Jump,
}

/// The discrete flags of one tick.
#[derive(Clone, Copy, Debug, PartialEq, Eq, Structural)]
pub struct Inputs {
    pub up: bool,
    pub down: bool,
    pub left: bool,
    pub right: bool,
    pub sprint: bool,
    pub jump: bool,
}

pub open spec fn flag(i: Inputs, kind: InputType) -> bool {
    match kind {
        InputType::Up => i.up,
        InputType::Down => i.down,
        InputType::Left => i.left,
        InputType::Right => i.right,
        InputType::Sprint => i.sprint,
        InputType::Jump => i.jump,
    }
}

/// `i` with the flag of `kind` set to `value`.
pub open spec fn with_flag(i: Inputs, kind: InputType, value: bool) -> Inputs {
    match kind {
        InputType::Up => Inputs { up: value, ..i },
        InputType::Down => Inputs { down: value, ..i },
        InputType::Left => Inputs { left: value, ..i },
        InputType::Right => Inputs { right: value, ..i },
        InputType::Sprint => Inputs { sprint: value, ..i },
        InputType::Jump => Inputs { jump: value, ..i },
    }
}

impl Inputs {
    /// Nothing pressed.
    pub fn none() -> (r: Inputs)
        ensures
            forall|k: InputType| !flag(r, k),
    {
        Inputs { up: false, down: false, left: false, right: false, sprint: false, jump: false }
    }

    pub fn get(&self, kind: InputType) -> (r: bool)
        ensures
            r == flag(*self, kind),
    {
        match kind {
            InputType::Up => self.up,
            InputType::Down => self.down,
            InputType::Left => self.left,
            InputType::Right => self.right,
            InputType::Sprint => self.sprint,
            InputType::Jump => self.jump,
        }
    }

    pub fn set(&mut self, kind: InputType, value: bool)
        ensures
            *final(self) == with_flag(*old(self), kind, value),
    {
        match kind {
            InputType::Up => self.up = value,
            InputType::Down => self.down = value,
            InputType::Left => self.left = value,
            InputType::Right => self.right = value,
            InputType::Sprint => self.sprint = value,
            InputType::Jump => self.jump = value,
        }
    }
}

/// The inputs of an actor: the flags held this tick, and for each flag
/// whether it became true and has not been consumed since.
#[derive(Clone, Copy, Debug, PartialEq, Eq, Structural)]
pub struct PlayerInputs {
    pub current: Inputs,
    pub rising: Inputs,
}

impl PlayerInputs {
    pub fn new() -> (r: PlayerInputs)
        ensures
            forall|k: InputType| !flag(r.current, k) && !flag(r.rising, k),
    {
        PlayerInputs { current: Inputs::none(), rising: Inputs::none() }
    }

    /// The flags held this tick.
    pub fn get(&self) -> (r: Inputs)
        ensures
            r == self.current,
    {
        self.current
    }

    /// Takes the flags of a new tick; a flag that goes from false to true
    /// is marked as a fresh press until it is consumed.
    pub fn update(&mut self, next: Inputs)
        ensures
            final(self).current == next,
            forall|k: InputType|
                #![trigger flag(final(self).rising, k)]
                flag(final(self).rising, k) == (flag(old(self).rising, k) || (!flag(
                    old(self).current,
                    k,
                ) && flag(next, k))),
    {
        let prev = self.current;
        self.rising = Inputs {
            up: self.rising.up || (!prev.up && next.up),
            down: self.rising.down || (!prev.down && next.down),
            left: self.rising.left || (!prev.left && next.left),
            right: self.rising.right || (!prev.right && next.right),
            sprint: self.rising.sprint || (!prev.sprint && next.sprint),
            jump: self.rising.jump || (!prev.jump && next.jump),
        };
        self.current = next;
    }

    /// Whether `kind` was freshly pressed; the press is consumed, so a second
    /// call before the next press answers false.
    pub fn is_input_changed_to_true_and_set_to_false(&mut self, kind: InputType) -> (r: bool)
        ensures
            r == flag(old(self).rising, kind),
            final(self).current == old(self).current,
            final(self).rising == with_flag(old(self).rising, kind, false),
    {
        let r = self.rising.get(kind);
        self.rising.set(kind, false);
        r
    }
}

} // verus!

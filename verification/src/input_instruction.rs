//! Key bindings: what runs when a bound key is pressed or released.
use vstd::prelude::*;

verus! {

/// Whether a key went down or came up.
#[derive(Clone, Copy, Debug, PartialEq, Eq, Structural)]
pub enum KeyState {
    Pressed,
    Released,
}

/// A binding of key `key_code` (of type `K`) to an action (of type `A`) run
/// when it is pressed and one run when it is released; either may be absent.
pub struct InputInstruction<K, A> {
    pub key_code: K,
    on_pressed: Option<A>,
    on_released: Option<A>,
}

impl<K, A> InputInstruction<K, A> {
    /// The key this binding is for.
    pub closed spec fn key(&self) -> K {
        self.key_code
    }

    /// The action bound to the key going down.
    pub closed spec fn pressed_action(&self) -> Option<A> {
        self.on_pressed
    }

    /// The action bound to the key coming up.
    pub closed spec fn released_action(&self) -> Option<A> {
        self.on_released
    }

    /// The action bound to `state`.
    pub open spec fn action_for(&self, state: KeyState) -> Option<A> {
        match state {
            KeyState::Pressed => self.pressed_action(),
            KeyState::Released => self.released_action(),
        }
    }

    /// A binding of `key_code` with no actions yet.
    pub fn new(key_code: K) -> (r: Self)
        ensures
            r.key() == key_code,
            r.pressed_action() is None,
            r.released_action() is None,
    {
        InputInstruction { key_code, on_pressed: None, on_released: None }
    }

    /// The binding with `action` run when the key is pressed (replacing any
    /// earlier one).
    pub fn on_pressed(self, action: A) -> (r: Self)
        ensures
            r.key() == self.key(),
            r.pressed_action() == Some(action),
            r.released_action() == self.released_action(),
    {
        InputInstruction { key_code: self.key_code, on_pressed: Some(action), on_released: self.on_released }
    }

    /// The binding with `action` run when the key is released (replacing any
    /// earlier one).
    pub fn on_released(self, action: A) -> (r: Self)
        ensures
            r.key() == self.key(),
            r.pressed_action() == self.pressed_action(),
            r.released_action() == Some(action),
    {
        InputInstruction { key_code: self.key_code, on_pressed: self.on_pressed, on_released: Some(action) }
    }

    /// The action to run for a key event in `state`, if one is bound; running
    /// it through the returned reference updates the binding.
    pub fn handler_mut(&mut self, state: KeyState) -> (r: Option<&mut A>)
        ensures
            final(self).key() == old(self).key(),
            match r {
                Some(a) => {
                    &&& old(self).action_for(state) == Some(*a)
                    &&& final(self).action_for(state) == Some(*final(a))
                },
                None => {
                    &&& old(self).action_for(state) is None
                    &&& final(self).action_for(state) is None
                },
            },
            state == KeyState::Pressed ==> (r is Some <==> old(self).pressed_action() is Some),
            state == KeyState::Released ==> (r is Some <==> old(self).released_action() is Some),
            state == KeyState::Pressed ==> (r matches Some(a) ==> old(self).pressed_action() == Some(*a)
                && final(self).pressed_action() == Some(*final(a))),
            state == KeyState::Released ==> (r matches Some(a) ==> old(self).released_action() == Some(*a)
                && final(self).released_action() == Some(*final(a))),
            match state {
                KeyState::Pressed => final(self).released_action() == old(self).released_action(),
                KeyState::Released => final(self).pressed_action() == old(self).pressed_action(),
            },
    {
        match state {
            KeyState::Pressed => match &mut self.on_pressed {
                Some(a) => Some(a),
                None => None,
            },
            KeyState::Released => match &mut self.on_released {
                Some(a) => Some(a),
                None => None,
            },
        }
    }
}

} // verus!

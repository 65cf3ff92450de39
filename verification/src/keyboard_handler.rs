//! Which keys are held down.

use std::collections::HashMap;
use vstd::prelude::*;

verus! {

/// What happened to a key.
#[derive(Clone, Copy, Debug, PartialEq, Eq, Structural)]
pub enum KeyAction {
    Release,
    Press,
    Repeat,
}

/// An event of the window, as far as the keyboard is concerned. Keys are
/// named by their key codes.
#[derive(Clone, Copy, Debug, PartialEq, Eq, Structural)]
pub enum WindowEvent {
    Key(i32, KeyAction),
    Other,
}

/// What the handler reports back for an event.
#[derive(Clone, Copy, Debug, PartialEq, Eq, Structural)]
pub enum KeyBoardHandlerEvent {
    Pressed(i32),
    Released(i32),
}

/// Keeps track of the keys that are held down.
#[derive(Clone, Debug)]
pub struct KeyBoardHandler {
    pressed: HashMap<i32, bool>,
}

impl KeyBoardHandler {
    /// The keys that are held down.
    pub closed spec fn held(self) -> Set<i32> {
        self.pressed@.dom()
    }

    /// A handler with no key held down.
    pub fn new() -> (handler: KeyBoardHandler)
        ensures
            handler.held() == Set::<i32>::empty(),
    {
        broadcast use vstd::std_specs::hash::group_hash_axioms;

        KeyBoardHandler { pressed: HashMap::new() }
    }

    /// Takes note of an event. A key that is pressed is held from then on, a
    /// key that is released no longer. Both are reported back as the key
    /// having been pressed; a repeating key and any other event change
    /// nothing and are not reported.
    pub fn handle_event(&mut self, event: WindowEvent) -> (reported: Option<KeyBoardHandlerEvent>)
        ensures
            final(self).held() == match event {
                WindowEvent::Key(key, KeyAction::Press) => old(self).held().insert(key),
                WindowEvent::Key(key, KeyAction::Release) => old(self).held().remove(key),
                _ => old(self).held(),
            },
            reported == match event {
                WindowEvent::Key(key, KeyAction::Press) => Some(KeyBoardHandlerEvent::Pressed(key)),
                WindowEvent::Key(key, KeyAction::Release) => Some(
                    KeyBoardHandlerEvent::Pressed(key),
                ),
                _ => None::<KeyBoardHandlerEvent>,
            },
    {
        broadcast use vstd::std_specs::hash::group_hash_axioms;

        match event {
            WindowEvent::Key(key, KeyAction::Press) => {
                self.pressed.insert(key, true);
                Some(KeyBoardHandlerEvent::Pressed(key))
            },
            WindowEvent::Key(key, KeyAction::Release) => {
                self.pressed.remove(&key);
                Some(KeyBoardHandlerEvent::Pressed(key))
            },
            _ => None,
        }
    }

    /// Whether `key` is held down.
    pub fn key_pressed(&self, key: i32) -> (held: bool)
        ensures
            held == self.held().contains(key),
    {
        broadcast use vstd::std_specs::hash::group_hash_axioms;

        self.pressed.contains_key(&key)
    }
}

} // verus!

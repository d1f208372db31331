//! The keyboard state that scripts read: which keys are held, fed by key events.
use vstd::prelude::*;
use crate::input::{KeyCode, ParseKeyCodeError, entries_map, key_name, last_lookup};
use crate::util::eq_ignoring_ascii_case;

verus! {

/// Whether a key is held, and whether its last event was a key repeat.
#[derive(Debug, Clone, Copy, PartialEq, Eq, Structural)]
pub struct EngineKeyState {
    pub is_down: bool,
    pub is_repeat: bool,
}

/// The state of a key with no event yet.
pub open spec fn key_up() -> EngineKeyState {
    EngineKeyState { is_down: false, is_repeat: false }
}

/// The state of `key` in a map of key states; a key with no entry is up.
pub open spec fn key_state_of(keys: Map<KeyCode, EngineKeyState>, key: KeyCode) -> EngineKeyState {
    if keys.contains_key(key) {
        keys[key]
    } else {
        key_up()
    }
}

/// A key's state after an event: with key repeat enabled, or for an event that is not a repeat,
/// the event sets whether the key is held and whether it repeats; a repeat while key repeat is
/// disabled only clears the repeat flag.
pub open spec fn after_key_event(
    state: EngineKeyState,
    down: bool,
    repeat: bool,
    repeat_enabled: bool,
) -> EngineKeyState {
    if repeat_enabled || !repeat {
        EngineKeyState { is_down: down, is_repeat: repeat }
    } else {
        EngineKeyState { is_repeat: false, ..state }
    }
}

/// The keyboard state handed to scripts; code on the Rust side should rely on the event
/// handler's methods and the input state and bindings instead.
pub struct EngineKeyboardState {
    keys: Vec<(KeyCode, EngineKeyState)>,
    key_repeat_enabled: bool,
}

impl View for EngineKeyboardState {
    type V = (Map<KeyCode, EngineKeyState>, bool);

    /// Each key that had an event, with its state; and whether key repeat events count as key
    /// events.
    closed spec fn view(&self) -> (Map<KeyCode, EngineKeyState>, bool) {
        (entries_map(self.keys@), self.key_repeat_enabled)
    }
}

impl EngineKeyboardState {
    /// Whether key repeat events count as key events.
    pub open spec fn repeat_enabled(&self) -> bool {
        self@.1
    }

    /// A keyboard with no key held, and key repeat disabled.
    pub fn new() -> (state: Self)
        ensures
            state@.0 == Map::<KeyCode, EngineKeyState>::empty(),
            !state.repeat_enabled(),
    {
        let state = EngineKeyboardState { keys: Vec::new(), key_repeat_enabled: false };
        assert(state@.0 =~= Map::<KeyCode, EngineKeyState>::empty());
        state
    }

    /// The index of the last entry for `key`, if any.
    fn last_index_of(&self, key: KeyCode) -> (index: Option<usize>)
        ensures
            match index {
                Some(i) => {
                    &&& i < self.keys@.len()
                    &&& self.keys@[i as int].0 == key
                    &&& forall|j: int| i < j < self.keys@.len() ==> self.keys@[j].0 != key
                    &&& last_lookup(self.keys@, key) == Some(self.keys@[i as int].1)
                },
                None => last_lookup(self.keys@, key) is None,
            },
    {
        let mut n = self.keys.len();
        assert(self.keys@.take(n as int) =~= self.keys@);
        while n > 0
            invariant
                n <= self.keys@.len(),
                forall|j: int| n <= j < self.keys@.len() ==> self.keys@[j].0 != key,
                last_lookup(self.keys@, key) == last_lookup(self.keys@.take(n as int), key),
            decreases n,
        {
            let ghost prefix = self.keys@.take(n as int);
            if self.keys[n - 1].0 == key {
                return Some(n - 1);
            }
            assert(prefix.drop_last() =~= self.keys@.take(n - 1));
            n = n - 1;
        }
        None
    }

    /// Records a key event: the key went `down` or up, as a key repeat or not.
    pub fn set_key_state(&mut self, key: KeyCode, down: bool, repeat: bool)
        ensures
            final(self).repeat_enabled() == old(self).repeat_enabled(),
            final(self)@.0 == old(self)@.0.insert(
                key,
                after_key_event(key_state_of(old(self)@.0, key), down, repeat, old(self).repeat_enabled()),
            ),
    {
        let ghost old_entries = self.keys@;
        let index = self.last_index_of(key);
        let current = match index {
            Some(i) => self.keys[i].1,
            None => EngineKeyState { is_down: false, is_repeat: false },
        };
        let updated = if self.key_repeat_enabled || !repeat {
            EngineKeyState { is_down: down, is_repeat: repeat }
        } else {
            EngineKeyState { is_repeat: false, ..current }
        };
        match index {
            Some(i) => {
                self.keys.set(i, (key, updated));
                proof {
                    crate::input::lemma_lookup_update_last(old_entries, i as int, (key, updated));
                    assert forall|other: KeyCode| other != key implies last_lookup(
                        self.keys@,
                        other,
                    ) == last_lookup(old_entries, other) by {
                        crate::input::lemma_lookup_update_other(
                            old_entries,
                            i as int,
                            (key, updated),
                            other,
                        );
                    }
                }
            },
            None => {
                self.keys.push((key, updated));
                assert(self.keys@.drop_last() =~= old_entries);
            },
        }
        assert(self@.0 =~= old(self)@.0.insert(key, updated));
    }

    /// Whether the key with the given name is held, the name compared without regard to ASCII
    /// case; an error if no key has that name. This is what scripts ask.
    pub fn is_named_key_down(&self, name: &str) -> (down: Result<bool, ParseKeyCodeError>)
        ensures
            match down {
                Ok(d) => exists|k: KeyCode|
                    eq_ignoring_ascii_case(#[trigger] key_name(k), name@) && d == key_state_of(
                        self@.0,
                        k,
                    ).is_down,
                Err(_) => forall|k: KeyCode| !eq_ignoring_ascii_case(#[trigger] key_name(k), name@),
            },
    {
        match KeyCode::from_name(name) {
            Some(key) => Ok(self.is_key_down(key)),
            None => Err(ParseKeyCodeError),
        }
    }

    /// Whether a key is held.
    pub fn is_key_down(&self, key: KeyCode) -> (down: bool)
        ensures
            down == key_state_of(self@.0, key).is_down,
    {
        match self.last_index_of(key) {
            Some(i) => self.keys[i].1.is_down,
            None => false,
        }
    }
}

/// With key repeat disabled, a repeat event never changes whether a key is held, and leaves it
/// marked as not repeating; an event that is not a repeat always sets whether the key is held.
pub proof fn lemma_repeats_ignored_when_disabled(state: EngineKeyState, down: bool, repeat: bool)
    ensures
        repeat ==> after_key_event(state, down, repeat, false).is_down == state.is_down,
        repeat ==> !after_key_event(state, down, repeat, false).is_repeat,
        !repeat ==> after_key_event(state, down, repeat, false) == (EngineKeyState {
            is_down: down,
            is_repeat: false,
        }),
{
}

impl Default for EngineKeyboardState {
    /// A keyboard with no key held, and key repeat disabled.
    fn default() -> (state: Self)
        ensures
            state@.0 == Map::<KeyCode, EngineKeyState>::empty(),
            !state.repeat_enabled(),
    {
        Self::new()
    }
}

} // verus!

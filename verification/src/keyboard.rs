//! Keyboard input tracking: the fixed raw-name-to-logical-key table and
//! the set of keys currently held down.

use vstd::prelude::*;

verus! {

/// A semantic control input, decoupled from raw physical key names.
#[derive(Clone, Copy, PartialEq, Eq, Hash, Structural, Debug)]
pub enum Key {
    Up,
    Down,
    Left,
    Right,
    Turbo,
}

/// The fixed table from raw key names to logical keys; every name outside
/// the table maps to `None` and is ignored by the tracker.
pub open spec fn key_of(name: Seq<char>) -> Option<Key> {
    if name == "ArrowUp"@ {
        Some(Key::Up)
    } else if name == "ArrowDown"@ {
        Some(Key::Down)
    } else if name == "ArrowLeft"@ {
        Some(Key::Left)
    } else if name == "ArrowRight"@ {
        Some(Key::Right)
    } else if name == "Shift"@ {
        Some(Key::Turbo)
    } else {
        None
    }
}

/// Relies on `str`'s `PartialEq`: two string slices compare equal exactly
/// when they hold the same sequence of characters.
#[verifier::external_body]
fn str_eq(a: &str, b: &str) -> (r: bool)
    ensures
        r == (a@ == b@),
{
    a == b
}

impl Key {
    /// Map a raw key name to its logical key, `None` for any name outside
    /// the fixed table.
    pub fn from(name: &str) -> (r: Option<Key>)
        ensures
            r == key_of(name@),
    {
        if str_eq(name, "ArrowUp") {
            Some(Key::Up)
        } else if str_eq(name, "ArrowDown") {
            Some(Key::Down)
        } else if str_eq(name, "ArrowLeft") {
            Some(Key::Left)
        } else if str_eq(name, "ArrowRight") {
            Some(Key::Right)
        } else if str_eq(name, "Shift") {
            Some(Key::Turbo)
        } else {
            None
        }
    }
}

/// One key event as delivered by the host: `down` tells whether the key
/// was pressed or released, `name` is the raw key name it carried.
pub struct KeyEvent {
    pub down: bool,
    pub name: Seq<char>,
}

/// The held set after one event: a mapped name is inserted or removed
/// according to the event's direction, an unmapped name changes nothing.
pub open spec fn apply_event(held: Set<Key>, e: KeyEvent) -> Set<Key> {
    match key_of(e.name) {
        Some(k) => if e.down {
            held.insert(k)
        } else {
            held.remove(k)
        },
        None => held,
    }
}

/// The held set after a whole sequence of events, applied in order.
pub open spec fn apply_events(held: Set<Key>, events: Seq<KeyEvent>) -> Set<Key>
    decreases events.len(),
{
    if events.len() == 0 {
        held
    } else {
        apply_event(apply_events(held, events.drop_last()), events.last())
    }
}

/// The net state a sequence of events implies for one logical key: the
/// direction of the last event whose name maps to that key, and "not
/// held" where no event mentions it.
pub open spec fn net_down(events: Seq<KeyEvent>, k: Key) -> bool
    decreases events.len(),
{
    if events.len() == 0 {
        false
    } else if key_of(events.last().name) == Some(k) {
        events.last().down
    } else {
        net_down(events.drop_last(), k)
    }
}

/// Starting from no keys held, a key is in the held set exactly when the
/// most recent event for it was a press: down-down-up leaves it up,
/// down-up-up leaves it up, no event at all leaves it up.
pub proof fn lemma_held_matches_last_event(events: Seq<KeyEvent>, k: Key)
    ensures
        apply_events(Set::empty(), events).contains(k) == net_down(events, k),
    decreases events.len(),
{
    if events.len() == 0 {
    } else {
        lemma_held_matches_last_event(events.drop_last(), k);
    }
}

/// An event whose name is outside the key table leaves the held set as
/// it was, whatever direction it carries.
pub proof fn lemma_unmapped_event_is_noop(held: Set<Key>, e: KeyEvent)
    requires
        key_of(e.name) is None,
    ensures
        apply_event(held, e) == held,
{
}

/// The set of control keys currently held down, fed by the host's
/// key-down and key-up callbacks and queried by the frame step.
pub struct Keyboard {
    up: bool,
    down: bool,
    left: bool,
    right: bool,
    turbo: bool,
}

impl View for Keyboard {
    type V = Set<Key>;

    /// A `Keyboard` abstracts to the set of keys it records as held.
    closed spec fn view(&self) -> Set<Key> {
        Set::new(
            |k: Key|
                match k {
                    Key::Up => self.up,
                    Key::Down => self.down,
                    Key::Left => self.left,
                    Key::Right => self.right,
                    Key::Turbo => self.turbo,
                },
        )
    }
}

impl Keyboard {
    /// A fresh tracker holds no keys.
    pub fn new() -> (r: Keyboard)
        ensures
            r@ == Set::<Key>::empty(),
    {
        let r = Keyboard { up: false, down: false, left: false, right: false, turbo: false };
        proof {
            assert(r@ =~= Set::<Key>::empty());
        }
        r
    }

    /// Whether a logical key is currently held.
    pub fn is_down(&self, key: Key) -> (r: bool)
        ensures
            r == self@.contains(key),
    {
        match key {
            Key::Up => self.up,
            Key::Down => self.down,
            Key::Left => self.left,
            Key::Right => self.right,
            Key::Turbo => self.turbo,
        }
    }

    /// Record a key press: a mapped name joins the held set (pressing a
    /// held key again changes nothing), an unmapped name is ignored.
    pub fn on_key_down(&mut self, name: &str)
        ensures
            final(self)@ == apply_event(old(self)@, KeyEvent { down: true, name: name@ }),
            key_of(name@) is None ==> final(self)@ == old(self)@,
    {
        let key = Key::from(name);
        match key {
            Some(k) => self.set_held(k, true),
            None => {
                proof {
                    assert(self@ =~= apply_event(old(self)@, KeyEvent { down: true, name: name@ }));
                }
            },
        }
    }

    /// Record a key release: a mapped name leaves the held set (releasing
    /// an absent key changes nothing), an unmapped name is ignored.
    pub fn on_key_up(&mut self, name: &str)
        ensures
            final(self)@ == apply_event(old(self)@, KeyEvent { down: false, name: name@ }),
            key_of(name@) is None ==> final(self)@ == old(self)@,
    {
        let key = Key::from(name);
        match key {
            Some(k) => self.set_held(k, false),
            None => {
                proof {
                    assert(self@ =~= apply_event(old(self)@, KeyEvent { down: false, name: name@ }));
                }
            },
        }
    }

    /// Set one key's held flag, leaving every other key as it was.
    fn set_held(&mut self, key: Key, held: bool)
        ensures
            final(self)@ == (if held {
                old(self)@.insert(key)
            } else {
                old(self)@.remove(key)
            }),
    {
        match key {
            Key::Up => self.up = held,
            Key::Down => self.down = held,
            Key::Left => self.left = held,
            Key::Right => self.right = held,
            Key::Turbo => self.turbo = held,
        }
        proof {
            if held {
                assert(self@ =~= old(self)@.insert(key));
            } else {
                assert(self@ =~= old(self)@.remove(key));
            }
        }
    }
}

} // verus!

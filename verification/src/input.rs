//! Keys and the headings they stand for.

use vstd::prelude::*;
use crate::geometry::Direction;

verus! {

/// A key of the keyboard, as far as the game tells keys apart.
#[derive(Clone, Copy, Debug, PartialEq, Eq, Structural)]
pub enum Key {
    W,
    A,
    S,
    D,
    /// Any key that steers nothing.
    Other,
}

impl Key {
    /// The heading that the key asks for, if it asks for one.
    pub open spec fn spec_direction(self) -> Option<Direction> {
        match self {
            Key::W => Some(Direction::Up),
            Key::A => Some(Direction::Left),
            Key::S => Some(Direction::Down),
            Key::D => Some(Direction::Right),
            Key::Other => None,
        }
    }

    /// The heading that the key asks for, if it asks for one.
    #[verifier::when_used_as_spec(spec_direction)]
    pub fn direction(self) -> (d: Option<Direction>)
        ensures
            d == self.spec_direction(),
    {
        match self {
            Key::W => Some(Direction::Up),
            Key::A => Some(Direction::Left),
            Key::S => Some(Direction::Down),
            Key::D => Some(Direction::Right),
            Key::Other => None,
        }
    }
}

/// The heading asked for by the keys held down, listed in the order in which
/// the keyboard reports them: that of the last key, and none where no key is
/// held or the last key steers nothing. Keys before the last are ignored.
pub open spec fn requested(keys: Seq<Key>) -> Option<Direction> {
    if keys.len() == 0 {
        None
    } else {
        keys.last().spec_direction()
    }
}

/// The heading asked for by the keys held down: that of the last key.
pub fn requested_direction(keys: &Vec<Key>) -> (d: Option<Direction>)
    ensures
        d == requested(keys@),
{
    if keys.len() == 0 {
        None
    } else {
        keys[keys.len() - 1].direction()
    }
}

} // verus!

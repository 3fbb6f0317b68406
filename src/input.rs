use vstd::prelude::*;
use crate::geometry::Direction;

verus! {

/// The keys that the game reacts to.
#[derive(Clone, Copy, Debug, PartialEq, Eq, Structural)]
pub enum Key {
    W,
    A,
    S,
    D,
    Up,
    Down,
    Escape,
    Other,
}

/// One event of the window.
#[derive(Clone, Copy, Debug, PartialEq, Eq, Structural)]
pub enum Input {
    Quit,
    KeyDown(Key),
    Other,
}

/// The direction a key steers to: W up the screen, S down, A left, D right,
/// Up into the depth and Down out of it.
pub open spec fn key_direction_spec(k: Key) -> Option<Direction> {
    match k {
        Key::W => Some(Direction::NegY),
        Key::D => Some(Direction::PosX),
        Key::Down => Some(Direction::NegZ),
        Key::S => Some(Direction::PosY),
        Key::A => Some(Direction::NegX),
        Key::Up => Some(Direction::PosZ),
        _ => None,
    }
}

pub fn key_direction(k: Key) -> (r: Option<Direction>)
    ensures
        r == key_direction_spec(k),
{
    match k {
        Key::W => Some(Direction::NegY),
        Key::D => Some(Direction::PosX),
        Key::Down => Some(Direction::NegZ),
        Key::S => Some(Direction::PosY),
        Key::A => Some(Direction::NegX),
        Key::Up => Some(Direction::PosZ),
        _ => None,
    }
}

/// Each of the six directions has a key.
pub proof fn lemma_every_direction_has_a_key(d: Direction)
    ensures
        exists|k: Key| key_direction_spec(k) == Some(d),
{
    let k = match d {
        Direction::NegY => Key::W,
        Direction::PosX => Key::D,
        Direction::NegZ => Key::Down,
        Direction::PosY => Key::S,
        Direction::NegX => Key::A,
        Direction::PosZ => Key::Up,
    };
    assert(key_direction_spec(k) == Some(d));
}

/// An event that ends the game.
pub open spec fn is_stop(e: Input) -> bool {
    e == Input::Quit || e == Input::KeyDown(Key::Escape)
}

pub fn stops(e: Input) -> (r: bool)
    ensures
        r == is_stop(e),
{
    match e {
        Input::Quit => true,
        Input::KeyDown(Key::Escape) => true,
        _ => false,
    }
}

/// The direction after the events, read in order from `d`, up to the first
/// that ends the game; each direction key replaces the direction before it.
pub open spec fn steer(d: Direction, events: Seq<Input>) -> Direction
    decreases events.len(),
{
    if events.len() == 0 {
        d
    } else if is_stop(events[0]) {
        d
    } else {
        let next = match events[0] {
            Input::KeyDown(k) => match key_direction_spec(k) {
                Some(n) => n,
                None => d,
            },
            _ => d,
        };
        steer(next, events.drop_first())
    }
}

/// A key that sets a direction.
pub open spec fn is_steering(e: Input) -> bool {
    e matches Input::KeyDown(k) && key_direction_spec(k) is Some
}

/// Some event ends the game.
pub open spec fn has_stop(events: Seq<Input>) -> bool {
    exists|i: int| 0 <= i < events.len() && is_stop(events[i])
}

/// Of several direction keys in one batch of events with no stop, the last
/// one decides the direction.
pub proof fn lemma_last_key_wins(d: Direction, events: Seq<Input>, k: int, key: Key)
    requires
        0 <= k < events.len(),
        events[k] == Input::KeyDown(key),
        key_direction_spec(key) is Some,
        !has_stop(events),
        forall|j: int|
            k < j < events.len() ==> !is_steering(#[trigger] events[j]),
    ensures
        steer(d, events) == key_direction_spec(key).unwrap(),
    decreases events.len(),
{
    assert(!is_stop(events[0]));
    let rest = events.drop_first();
    let next = match events[0] {
        Input::KeyDown(k0) => match key_direction_spec(k0) {
            Some(n) => n,
            None => d,
        },
        _ => d,
    };
    assert(!has_stop(rest)) by {
        if has_stop(rest) {
            let i = choose|i: int| 0 <= i < rest.len() && is_stop(rest[i]);
            assert(is_stop(events[i + 1]));
        }
    }
    if k == 0 {
        lemma_no_keys_keeps(next, rest);
    } else {
        assert forall|j: int|
            k - 1 < j < rest.len() implies !is_steering(#[trigger] rest[j]) by {
            assert(rest[j] == events[j + 1]);
        }
        lemma_last_key_wins(next, rest, k - 1, key);
    }
}

/// Events with no stop and no direction key leave the direction.
proof fn lemma_no_keys_keeps(d: Direction, events: Seq<Input>)
    requires
        !has_stop(events),
        forall|j: int|
            0 <= j < events.len() ==> !is_steering(#[trigger] events[j]),
    ensures
        steer(d, events) == d,
    decreases events.len(),
{
    if events.len() > 0 {
        assert(!is_stop(events[0]));
        let rest = events.drop_first();
        assert(!has_stop(rest)) by {
            if has_stop(rest) {
                let i = choose|i: int| 0 <= i < rest.len() && is_stop(rest[i]);
                assert(is_stop(events[i + 1]));
            }
        }
        assert forall|j: int|
            0 <= j < rest.len() implies !is_steering(#[trigger] rest[j]) by {
            assert(rest[j] == events[j + 1]);
        }
        lemma_no_keys_keeps(d, rest);
    }
}

} // verus!

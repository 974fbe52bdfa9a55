use vstd::prelude::*;

verus! {

/// The keys that are not printable characters.
#[derive(Clone, Copy, Debug, PartialEq, Eq, Structural)]
pub enum KeyCode {
    Up,
    Down,
    Left,
    Right,
    Shift,
    Escape,
    Other,
}

/// One keypress as the input source reports it.
#[derive(Clone, Copy, Debug, PartialEq, Eq, Structural)]
pub enum Key {
    SpecialKey(KeyCode),
    Printable(char),
}

/// One of the four grid directions.
#[derive(Clone, Copy, Debug, PartialEq, Eq, Structural)]
pub enum Direction {
    Up,
    Down,
    Left,
    Right,
}

/// The direction that a key selects, if it is an arrow key.
pub open spec fn direction_of(k: Key) -> Option<Direction> {
    match k {
        Key::SpecialKey(KeyCode::Up) => Some(Direction::Up),
        Key::SpecialKey(KeyCode::Down) => Some(Direction::Down),
        Key::SpecialKey(KeyCode::Left) => Some(Direction::Left),
        Key::SpecialKey(KeyCode::Right) => Some(Direction::Right),
        _ => None,
    }
}

/// The modifier announces an attack and is never itself a move.
pub open spec fn is_modifier(k: Key) -> bool {
    k == Key::SpecialKey(KeyCode::Shift)
}

pub open spec fn delta_x(d: Direction) -> int {
    match d {
        Direction::Left => -1,
        Direction::Right => 1,
        _ => 0,
    }
}

pub open spec fn delta_y(d: Direction) -> int {
    match d {
        Direction::Up => -1,
        Direction::Down => 1,
        _ => 0,
    }
}

/// The word that messages use for a direction.
pub open spec fn direction_word(d: Direction) -> Seq<char> {
    match d {
        Direction::Up => "up"@,
        Direction::Down => "down"@,
        Direction::Left => "left"@,
        Direction::Right => "right"@,
    }
}

impl Key {
    pub fn direction(&self) -> (r: Option<Direction>)
        ensures
            r == direction_of(*self),
    {
        match self {
            Key::SpecialKey(KeyCode::Up) => Some(Direction::Up),
            Key::SpecialKey(KeyCode::Down) => Some(Direction::Down),
            Key::SpecialKey(KeyCode::Left) => Some(Direction::Left),
            Key::SpecialKey(KeyCode::Right) => Some(Direction::Right),
            _ => None,
        }
    }

    pub fn is_modifier(&self) -> (r: bool)
        ensures
            r == is_modifier(*self),
    {
        match self {
            Key::SpecialKey(KeyCode::Shift) => true,
            _ => false,
        }
    }
}

impl Direction {
    pub fn dx(&self) -> (r: i32)
        ensures
            r == delta_x(*self),
    {
        match self {
            Direction::Left => -1,
            Direction::Right => 1,
            _ => 0,
        }
    }

    pub fn dy(&self) -> (r: i32)
        ensures
            r == delta_y(*self),
    {
        match self {
            Direction::Up => -1,
            Direction::Down => 1,
            _ => 0,
        }
    }

    pub fn word(&self) -> (r: &'static str)
        ensures
            r@ == direction_word(*self),
    {
        match self {
            Direction::Up => "up",
            Direction::Down => "down",
            Direction::Left => "left",
            Direction::Right => "right",
        }
    }
}

} // verus!

use vstd::prelude::*;

use crate::geometry::Point;
use crate::input::{delta_x, delta_y, direction_of, Key, KeyCode};

verus! {

pub const MAP_WIDTH: usize = 80;

pub const MAP_HEIGHT: usize = 45;

/// The row that holds the two pillars of the starting map.
pub const PILLAR_ROW: usize = 22;

pub const WEST_PILLAR: usize = 30;

pub const EAST_PILLAR: usize = 50;

/// The flags of one grid cell.
#[derive(Clone, Copy, Debug, PartialEq, Eq, Structural)]
pub struct Tile {
    pub blocked: bool,
    pub blocks_sight: bool,
}

impl Tile {
    pub fn new(blocked: bool, blocks_sight: bool) -> (r: Tile)
        ensures
            r.blocked == blocked,
            r.blocks_sight == blocks_sight,
    {
        Tile { blocked, blocks_sight }
    }
}

/// A player character or an enemy.
#[derive(Clone, Copy, Debug, PartialEq, Eq, Structural)]
pub struct Actor {
    pub location: Point,
    pub display_char: char,
    pub hp: u32,
}

impl Actor {
    pub fn new(x: i32, y: i32, display_char: char, hp: u32) -> (r: Actor)
        ensures
            r.location == (Point { x, y }),
            r.display_char == display_char,
            r.hp == hp,
    {
        Actor { location: Point::new(x, y), display_char, hp }
    }
}

/// The grid is stored column by column: `tiles[x][y]`.
pub type Grid = Vec<Vec<Tile>>;

/// Every cell index of the grid is also a coordinate.
pub open spec fn grid_fits(tiles: Seq<Vec<Tile>>) -> bool {
    &&& tiles.len() <= i32::MAX
    &&& forall|x: int| 0 <= x < tiles.len() ==> #[trigger] tiles[x]@.len() <= i32::MAX
}

/// The cell `(x, y)` lies on the grid and does not block movement.
pub open spec fn walkable(tiles: Seq<Vec<Tile>>, x: int, y: int) -> bool {
    &&& 0 <= x < tiles.len()
    &&& 0 <= y < tiles[x]@.len()
    &&& !tiles[x]@[y].blocked
}

/// Where an actor ends up when it tries to move by `(dx, dy)`: it moves
/// exactly when the destination is walkable.
pub open spec fn stepped(a: Actor, tiles: Seq<Vec<Tile>>, dx: int, dy: int) -> Actor {
    let x = a.location.x + dx;
    let y = a.location.y + dy;
    if walkable(tiles, x, y) {
        Actor { location: Point { x: x as i32, y: y as i32 }, ..a }
    } else {
        a
    }
}

/// The player characters after one map turn driven by `key`: an arrow key
/// moves the first of them one step, any other key moves nobody.
pub open spec fn moved_party(pcs: Seq<Actor>, tiles: Seq<Vec<Tile>>, key: Key) -> Seq<Actor> {
    match direction_of(key) {
        Some(d) => if pcs.len() > 0 {
            pcs.update(0, stepped(pcs[0], tiles, delta_x(d), delta_y(d)))
        } else {
            pcs
        },
        None => pcs,
    }
}

/// The turn counter after one more turn; it stops at its largest value.
pub open spec fn next_turn(t: u64) -> u64 {
    if t < u64::MAX {
        (t + 1) as u64
    } else {
        t
    }
}

/// `i` is the first index of an actor standing on `p`.
pub open spec fn is_first_at(actors: Seq<Actor>, p: Point, i: int) -> bool {
    &&& 0 <= i < actors.len()
    &&& actors[i].location == p
    &&& forall|j: int| 0 <= j < i ==> actors[j].location != p
}

/// The index of the first actor standing on `p`, if any stands there.
pub open spec fn first_at(actors: Seq<Actor>, p: Point) -> Option<int> {
    if exists|i: int| is_first_at(actors, p, i) {
        Some(choose|i: int| is_first_at(actors, p, i))
    } else {
        None
    }
}

pub proof fn lemma_first_at_unique(actors: Seq<Actor>, p: Point, i: int)
    requires
        is_first_at(actors, p, i),
    ensures
        first_at(actors, p) == Some(i),
{
    let k = choose|k: int| is_first_at(actors, p, k);
    assert(is_first_at(actors, p, k));
    if k < i {
        assert(actors[k].location != p);
    } else if i < k {
        assert(actors[i].location != p);
    }
}

/// Looks up the first actor of `actors` that stands on `p`.
pub fn find_actor(actors: &Vec<Actor>, p: Point) -> (r: Option<usize>)
    ensures
        r matches Some(i) ==> first_at(actors@, p) == Some(i as int),
        r is None ==> first_at(actors@, p) is None,
        r is None <==> forall|j: int| 0 <= j < actors@.len() ==> actors@[j].location != p,
{
    let mut i: usize = 0;
    while i < actors.len()
        invariant
            i <= actors@.len(),
            forall|j: int| 0 <= j < i ==> actors@[j].location != p,
        decreases actors@.len() - i,
    {
        if actors[i].location == p {
            proof {
                lemma_first_at_unique(actors@, p, i as int);
            }
            return Some(i);
        }
        i = i + 1;
    }
    proof {
        assert forall|k: int| !is_first_at(actors@, p, k) by {}
    }
    None
}

/// `pillar(x, y)`: the cell holds one of the two pillars of the starting map.
pub open spec fn pillar(x: int, y: int) -> bool {
    y == PILLAR_ROW && (x == WEST_PILLAR || x == EAST_PILLAR)
}

/// The starting map: open floor of `MAP_WIDTH` by `MAP_HEIGHT` cells with two
/// pillars that block movement and sight.
pub fn make_map() -> (map: Grid)
    ensures
        map@.len() == MAP_WIDTH,
        forall|x: int| 0 <= x < MAP_WIDTH ==> #[trigger] map@[x]@.len() == MAP_HEIGHT,
        forall|x: int, y: int|
            0 <= x < MAP_WIDTH && 0 <= y < MAP_HEIGHT ==> #[trigger] map@[x]@[y] == (Tile {
                blocked: pillar(x, y),
                blocks_sight: pillar(x, y),
            }),
{
    let mut map: Grid = Vec::new();
    let mut x: usize = 0;
    while x < MAP_WIDTH
        invariant
            x <= MAP_WIDTH,
            map@.len() == x,
            forall|i: int| 0 <= i < x ==> #[trigger] map@[i]@.len() == MAP_HEIGHT,
            forall|i: int, j: int|
                0 <= i < x && 0 <= j < MAP_HEIGHT ==> #[trigger] map@[i]@[j] == (Tile {
                    blocked: pillar(i, j),
                    blocks_sight: pillar(i, j),
                }),
        decreases MAP_WIDTH - x,
    {
        let mut col: Vec<Tile> = Vec::new();
        let mut y: usize = 0;
        while y < MAP_HEIGHT
            invariant
                y <= MAP_HEIGHT,
                col@.len() == y,
                forall|j: int|
                    0 <= j < y ==> #[trigger] col@[j] == (Tile {
                        blocked: pillar(x as int, j),
                        blocks_sight: pillar(x as int, j),
                    }),
            decreases MAP_HEIGHT - y,
        {
            let wall = y == PILLAR_ROW && (x == WEST_PILLAR || x == EAST_PILLAR);
            col.push(Tile::new(wall, wall));
            y = y + 1;
        }
        map.push(col);
        x = x + 1;
    }
    map
}

/// Whether the cell `(x, y)` can be entered.
pub fn is_walkable(tiles: &Grid, x: i64, y: i64) -> (r: bool)
    ensures
        r == walkable(tiles@, x as int, y as int),
{
    if x < 0 || y < 0 {
        return false;
    }
    if x as u64 >= tiles.len() as u64 {
        return false;
    }
    let col = &tiles[x as usize];
    if y as u64 >= col.len() as u64 {
        return false;
    }
    !col[y as usize].blocked
}

impl Actor {
    /// Moves by `(dx, dy)` when the destination is walkable; stays otherwise.
    pub fn move_by(&mut self, dx: i32, dy: i32, tiles: &Grid)
        requires
            grid_fits(tiles@),
        ensures
            *final(self) == stepped(*old(self), tiles@, dx as int, dy as int),
    {
        let x = self.location.x as i64 + dx as i64;
        let y = self.location.y as i64 + dy as i64;
        if is_walkable(tiles, x, y) {
            assert(tiles@[x as int]@.len() <= i32::MAX);
            self.location = Point::new(x as i32, y as i32);
        }
    }
}

/// Handles one key of the free-roaming loop: an arrow key moves the player,
/// Escape asks to leave, any other key does nothing. Returns whether to leave.
pub fn handle_keys(player: &mut Actor, key: Key, tiles: &Grid) -> (exit: bool)
    requires
        grid_fits(tiles@),
    ensures
        exit == (key == Key::SpecialKey(KeyCode::Escape)),
        *final(player) == match direction_of(key) {
            Some(d) => stepped(*old(player), tiles@, delta_x(d), delta_y(d)),
            None => *old(player),
        },
{
    match key.direction() {
        Some(d) => {
            player.move_by(d.dx(), d.dy(), tiles);
        },
        None => {},
    }
    match key {
        Key::SpecialKey(KeyCode::Escape) => true,
        _ => false,
    }
}

/// The grid and the actors on it.
pub struct Maps {
    pub tiles: Grid,
    pub pcs: Vec<Actor>,
    pub enemies: Vec<Actor>,
    pub turns: u64,
}

/// `new` is `old` after one map turn driven by `key`.
pub open spec fn took_turn(old: Maps, new: Maps, key: Key) -> bool {
    &&& new.tiles == old.tiles
    &&& new.enemies == old.enemies
    &&& new.turns == next_turn(old.turns)
    &&& new.pcs@ == moved_party(old.pcs@, old.tiles@, key)
}

impl Maps {
    pub open spec fn wf(&self) -> bool {
        grid_fits(self.tiles@)
    }

    /// A map on `tiles` with the given actors, before its first turn.
    pub fn new(tiles: Grid, pcs: Vec<Actor>, enemies: Vec<Actor>) -> (r: Maps)
        ensures
            r.tiles == tiles,
            r.pcs == pcs,
            r.enemies == enemies,
            r.turns == 0,
    {
        Maps { tiles, pcs, enemies, turns: 0 }
    }

    /// The enemy standing on `p`, as an index into `enemies`.
    pub fn enemy_at(&self, p: Point) -> (r: Option<usize>)
        ensures
            r matches Some(i) ==> first_at(self.enemies@, p) == Some(i as int),
            r is None ==> first_at(self.enemies@, p) is None,
    {
        find_actor(&self.enemies, p)
    }

    /// The player character standing on `p`, as an index into `pcs`.
    pub fn actor_at(&self, p: Point) -> (r: Option<usize>)
        ensures
            r matches Some(i) ==> first_at(self.pcs@, p) == Some(i as int),
            r is None ==> first_at(self.pcs@, p) is None,
    {
        find_actor(&self.pcs, p)
    }

    /// Takes one map turn: an arrow key moves the first player character one
    /// step when the destination is walkable, and the turn counter advances.
    pub fn update(&mut self, key: Key)
        requires
            old(self).wf(),
        ensures
            took_turn(*old(self), *final(self), key),
            final(self).wf(),
    {
        if self.turns < u64::MAX {
            self.turns = self.turns + 1;
        }
        match key.direction() {
            Some(d) => {
                if self.pcs.len() > 0 {
                    let mut pc = self.pcs[0];
                    pc.move_by(d.dx(), d.dy(), &self.tiles);
                    self.pcs.set(0, pc);
                }
            },
            None => {},
        }
    }
}

} // verus!

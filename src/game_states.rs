use vstd::prelude::*;
use vstd::string::*;

use crate::combat::{damage_dealt, weapon_name, Weapon};
use crate::geometry::Point;
use crate::input::{delta_x, delta_y, direction_of, direction_word, is_modifier, Direction, Key};
use crate::map::{first_at, took_turn, Actor, Maps};
use crate::text::{decimal, decimal_string};
use crate::windows::{frame_steps, render_frame, RenderStep, Windows};

verus! {

/// What the driver knows at the start of a turn: the key just pressed, if
/// any, and where the player character stands.
#[derive(Clone, Copy, Debug, PartialEq, Eq, Structural)]
pub struct MoveInfo {
    pub last_keypress: Option<Key>,
    pub char_location: Point,
}

impl MoveInfo {
    pub fn new(last_keypress: Option<Key>, char_location: Point) -> (r: MoveInfo)
        ensures
            r.last_keypress == last_keypress,
            r.char_location == char_location,
    {
        MoveInfo { last_keypress, char_location }
    }
}

/// One mode of play. The driver keeps exactly one state active, feeds it one
/// keypress per turn through `update`, and swaps it for another when
/// `should_update_state` says so.
pub trait GameState {
    /// Whether the state is ready to hand over to the next one.
    spec fn ready(&self) -> bool;

    fn enter(&self, windows: &mut Windows);

    fn exit(&self) {
    }

    fn update(&mut self, maps: &mut Maps, windows: &mut Windows, move_info: &MoveInfo)
        requires
            old(maps).wf(),
        ensures
            final(maps).wf(),
    ;

    /// Every state draws a frame the same way.
    fn render(&self) -> (r: Vec<RenderStep>)
        ensures
            r@ == frame_steps(),
    {
        render_frame()
    }

    fn should_update_state(&self) -> (r: bool)
        ensures
            r == self.ready(),
    ;
}

/// Free movement: each key but the modifier gives the map one turn.
pub struct MovementGameState;

/// The result of one movement turn: the modifier (and no key at all) leaves
/// the map as it is; any other key gives the map exactly one turn.
pub open spec fn movement_outcome(old_maps: Maps, new_maps: Maps, move_info: MoveInfo) -> bool {
    match move_info.last_keypress {
        Some(k) => if is_modifier(k) {
            new_maps == old_maps
        } else {
            took_turn(old_maps, new_maps, k)
        },
        None => new_maps == old_maps,
    }
}

impl MovementGameState {
    pub fn new() -> (r: MovementGameState) {
        MovementGameState
    }
}

impl GameState for MovementGameState {
    open spec fn ready(&self) -> bool {
        true
    }

    fn should_update_state(&self) -> (r: bool) {
        true
    }

    /// Drops any prompt left by the previous state.
    fn enter(&self, windows: &mut Windows)
        ensures
            final(windows).input@ == Seq::<Seq<char>>::empty(),
            final(windows).messages@ == old(windows).messages@,
    {
        windows.input.flush_buffer();
    }

    fn update(&mut self, maps: &mut Maps, windows: &mut Windows, move_info: &MoveInfo)
        ensures
            movement_outcome(*old(maps), *final(maps), *move_info),
            *final(windows) == *old(windows),
    {
        match move_info.last_keypress {
            Some(k) => {
                // The modifier only announces an attack; the key after it
                // decides what happens.
                if !k.is_modifier() {
                    maps.update(k);
                }
            },
            None => {},
        }
    }
}

/// Waits for an arrow key and attacks in that direction with its weapon.
/// It is single-shot: the first arrow key resolves the attack and makes the
/// state ready to hand over; every other key is ignored.
pub struct AttackInputGameState {
    /// Set by the first arrow key; never cleared by this state.
    pub should_update_state: bool,
    pub weapon: Weapon,
}

/// The prompt shown on entering the attack state.
pub open spec fn prompt_message(w: Weapon) -> Seq<char> {
    "Which direction do you want to attack with "@ + weapon_name(w)
        + "? [Use the arrow keys to answer]"@
}

/// The report of an attack that dealt `damage` points.
pub open spec fn hit_message(d: Direction, w: Weapon, damage: u32) -> Seq<char> {
    "You attack "@ + direction_word(d) + " with "@ + weapon_name(w) + " for "@ + decimal(
        damage as nat,
    ) + " points of damage!"@
}

/// The report of an attack into an empty cell.
pub open spec fn miss_message() -> Seq<char> {
    "No enemy in that direction!"@
}

/// The cell next to `p` in direction `d`, if its coordinates are in range.
pub open spec fn target_of(p: Point, d: Direction) -> Option<Point> {
    let x = p.x + delta_x(d);
    let y = p.y + delta_y(d);
    if i32::MIN <= x <= i32::MAX && i32::MIN <= y <= i32::MAX {
        Some(Point { x: x as i32, y: y as i32 })
    } else {
        None
    }
}

/// The enemy that an attack from `p` in direction `d` reaches.
pub open spec fn enemy_target(enemies: Seq<Actor>, p: Point, d: Direction) -> Option<int> {
    match target_of(p, d) {
        Some(t) => first_at(enemies, t),
        None => None,
    }
}

/// The attacker is found on the map where the turn context says it stands.
pub open spec fn attacker_present(maps: Maps, move_info: MoveInfo) -> bool {
    first_at(maps.pcs@, move_info.char_location) is Some
}

/// The result of one turn of the attack state.
///
/// A key that is not an arrow (or no key) changes nothing. An arrow key makes
/// the state ready and resolves the attack: with an enemy in the target cell
/// the weapon damages it and a hit is reported; with none, a miss is
/// reported. Where the attacker cannot be found at its own location, the hit
/// is skipped: no damage and no report.
pub open spec fn attack_outcome(
    old_state: AttackInputGameState,
    new_state: AttackInputGameState,
    old_maps: Maps,
    new_maps: Maps,
    old_windows: Windows,
    new_windows: Windows,
    move_info: MoveInfo,
) -> bool {
    let dir = match move_info.last_keypress {
        Some(k) => direction_of(k),
        None => None,
    };
    match dir {
        None => {
            &&& new_state == old_state
            &&& new_maps == old_maps
            &&& new_windows == old_windows
        },
        Some(d) => {
            &&& new_state.ready()
            &&& new_state.weapon == old_state.weapon
            &&& new_windows.input@ == old_windows.input@
            &&& match enemy_target(old_maps.enemies@, move_info.char_location, d) {
                Some(i) => if attacker_present(old_maps, move_info) {
                    let enemy = old_maps.enemies@[i];
                    let damage = damage_dealt(old_state.weapon, enemy.hp);
                    &&& new_maps.tiles == old_maps.tiles
                    &&& new_maps.pcs == old_maps.pcs
                    &&& new_maps.turns == old_maps.turns
                    &&& new_maps.enemies@ == old_maps.enemies@.update(
                        i,
                        Actor { hp: (enemy.hp - damage) as u32, ..enemy },
                    )
                    &&& new_windows.messages@ == old_windows.messages@.push(
                        hit_message(d, old_state.weapon, damage),
                    )
                } else {
                    &&& new_maps == old_maps
                    &&& new_windows.messages@ == old_windows.messages@
                },
                None => {
                    &&& new_maps == old_maps
                    &&& new_windows.messages@ == old_windows.messages@.push(miss_message())
                },
            }
        },
    }
}

/// The cell next to `p` in direction `d`.
fn target_point(p: Point, d: Direction) -> (r: Option<Point>)
    ensures
        r == target_of(p, d),
{
    let x = p.x as i64 + d.dx() as i64;
    let y = p.y as i64 + d.dy() as i64;
    if i32::MIN as i64 <= x && x <= i32::MAX as i64 && i32::MIN as i64 <= y && y
        <= i32::MAX as i64 {
        Some(Point::new(x as i32, y as i32))
    } else {
        None
    }
}

/// Writes the report of a hit.
pub fn compose_hit_message(d: Direction, w: Weapon, damage: u32) -> (r: String)
    ensures
        r@ == hit_message(d, w, damage),
{
    let mut msg = String::from_str("You attack ");
    msg.append(d.word());
    msg.append(" with ");
    let name = w.get_name();
    msg.append(name.as_str());
    msg.append(" for ");
    let amount = decimal_string(damage);
    msg.append(amount.as_str());
    msg.append(" points of damage!");
    msg
}

/// Writes the prompt that asks for a direction.
pub fn compose_prompt(w: Weapon) -> (r: String)
    ensures
        r@ == prompt_message(w),
{
    let mut msg = String::from_str("Which direction do you want to attack with ");
    let name = w.get_name();
    msg.append(name.as_str());
    msg.append("? [Use the arrow keys to answer]");
    msg
}

impl AttackInputGameState {
    /// An attack state that throws a boomerang.
    pub fn new() -> (r: AttackInputGameState)
        ensures
            !r.ready(),
            r.weapon == Weapon::Boomerang,
    {
        AttackInputGameState { should_update_state: false, weapon: Weapon::boomerang() }
    }

    pub fn new_with_weapon(weapon: Weapon) -> (r: AttackInputGameState)
        ensures
            !r.ready(),
            r.weapon == weapon,
    {
        AttackInputGameState { should_update_state: false, weapon }
    }
}

impl GameState for AttackInputGameState {
    open spec fn ready(&self) -> bool {
        self.should_update_state
    }

    fn should_update_state(&self) -> (r: bool) {
        self.should_update_state
    }

    /// Drops any earlier prompt and asks for a direction, naming the weapon.
    fn enter(&self, windows: &mut Windows)
        ensures
            final(windows).input@ == seq![prompt_message(self.weapon)],
            final(windows).messages@ == old(windows).messages@,
    {
        windows.input.flush_buffer();
        let msg = compose_prompt(self.weapon);
        windows.input.buffer_message(msg.as_str());
        assert(windows.input@ =~= seq![prompt_message(self.weapon)]);
    }

    fn update(&mut self, maps: &mut Maps, windows: &mut Windows, move_info: &MoveInfo)
        ensures
            attack_outcome(
                *old(self),
                *final(self),
                *old(maps),
                *final(maps),
                *old(windows),
                *final(windows),
                *move_info,
            ),
    {
        let dir = match move_info.last_keypress {
            Some(k) => k.direction(),
            None => None,
        };
        match dir {
            Some(d) => {
                self.should_update_state = true;
                let p = move_info.char_location;
                let enemy = match target_point(p, d) {
                    Some(t) => maps.enemy_at(t),
                    None => None,
                };
                match enemy {
                    Some(i) => {
                        // The attacker must be found where the turn context
                        // places it; otherwise the hit is skipped.
                        match maps.actor_at(p) {
                            Some(_) => {
                                let mut target = maps.enemies[i];
                                let damage = self.weapon.deal_damage(&mut target);
                                maps.enemies.set(i, target);
                                let msg = compose_hit_message(d, self.weapon, damage);
                                windows.messages.buffer_message(msg.as_str());
                            },
                            None => {},
                        }
                    },
                    None => {
                        windows.messages.buffer_message("No enemy in that direction!");
                    },
                }
            },
            None => {},
        }
    }
}

} // verus!

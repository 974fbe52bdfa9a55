use vstd::prelude::*;

use crate::combat::{weapon_name, Weapon};
use crate::game_states::{
    attack_outcome, attacker_present, enemy_target, hit_message, miss_message, movement_outcome,
    prompt_message, AttackInputGameState, GameState, MoveInfo,
};
use crate::input::{direction_of, is_modifier, Direction, Key};
use crate::map::{moved_party, next_turn, Maps};
use crate::windows::Windows;

verus! {

/// In the attack state an arrow key resolves the attack: exactly one report,
/// a hit or a miss, is added after the earlier ones, and the state becomes
/// ready to hand over. (The attacker must be found at its own location; where
/// it is not, the hit is skipped without a report.)
pub proof fn lemma_arrow_key_resolves_attack(
    old_state: AttackInputGameState,
    new_state: AttackInputGameState,
    old_maps: Maps,
    new_maps: Maps,
    old_windows: Windows,
    new_windows: Windows,
    move_info: MoveInfo,
    k: Key,
    d: Direction,
)
    requires
        attack_outcome(
            old_state,
            new_state,
            old_maps,
            new_maps,
            old_windows,
            new_windows,
            move_info,
        ),
        move_info.last_keypress == Some(k),
        direction_of(k) == Some(d),
        attacker_present(old_maps, move_info),
    ensures
        new_state.ready(),
        new_windows.messages@.len() == old_windows.messages@.len() + 1,
        new_windows.messages@.drop_last() == old_windows.messages@,
        new_windows.messages@.last() == miss_message() || exists|damage: u32|
            new_windows.messages@.last() == hit_message(d, old_state.weapon, damage),
        new_windows.input@ == old_windows.input@,
{
    match enemy_target(old_maps.enemies@, move_info.char_location, d) {
        Some(i) => {
            let damage = crate::combat::damage_dealt(old_state.weapon, old_maps.enemies@[i].hp);
            assert(new_windows.messages@.last() == hit_message(d, old_state.weapon, damage));
            assert(new_windows.messages@.drop_last() =~= old_windows.messages@);
        },
        None => {
            assert(new_windows.messages@.drop_last() =~= old_windows.messages@);
        },
    }
}

/// In the attack state any key that is not an arrow adds no report and
/// leaves the state's readiness as it was.
pub proof fn lemma_other_key_ignored_by_attack(
    old_state: AttackInputGameState,
    new_state: AttackInputGameState,
    old_maps: Maps,
    new_maps: Maps,
    old_windows: Windows,
    new_windows: Windows,
    move_info: MoveInfo,
    k: Key,
)
    requires
        attack_outcome(
            old_state,
            new_state,
            old_maps,
            new_maps,
            old_windows,
            new_windows,
            move_info,
        ),
        move_info.last_keypress == Some(k),
        direction_of(k) is None,
    ensures
        new_windows.messages@ == old_windows.messages@,
        new_state.ready() == old_state.ready(),
        new_maps == old_maps,
{
}

/// The damage that a hit report states is exactly what the target enemy lost.
pub proof fn lemma_reported_damage_is_applied(
    old_state: AttackInputGameState,
    new_state: AttackInputGameState,
    old_maps: Maps,
    new_maps: Maps,
    old_windows: Windows,
    new_windows: Windows,
    move_info: MoveInfo,
    k: Key,
    d: Direction,
    i: int,
)
    requires
        attack_outcome(
            old_state,
            new_state,
            old_maps,
            new_maps,
            old_windows,
            new_windows,
            move_info,
        ),
        move_info.last_keypress == Some(k),
        direction_of(k) == Some(d),
        enemy_target(old_maps.enemies@, move_info.char_location, d) == Some(i),
        attacker_present(old_maps, move_info),
    ensures
        0 <= i < old_maps.enemies@.len(),
        new_maps.enemies@.len() == old_maps.enemies@.len(),
        new_maps.enemies@[i].hp <= old_maps.enemies@[i].hp,
        new_windows.messages@.last() == hit_message(
            d,
            old_state.weapon,
            (old_maps.enemies@[i].hp - new_maps.enemies@[i].hp) as u32,
        ),
{
    let t = crate::game_states::target_of(move_info.char_location, d).unwrap();
    assert(crate::map::is_first_at(old_maps.enemies@, t, i));
}

/// In the movement state the modifier key never moves anybody and takes no
/// map turn; every other key gives the map exactly one turn.
pub proof fn lemma_movement_delegates_once(
    old_maps: Maps,
    new_maps: Maps,
    move_info: MoveInfo,
    k: Key,
)
    requires
        movement_outcome(old_maps, new_maps, move_info),
        move_info.last_keypress == Some(k),
    ensures
        is_modifier(k) ==> new_maps.pcs@ == old_maps.pcs@ && new_maps.turns == old_maps.turns,
        !is_modifier(k) ==> new_maps.turns == next_turn(old_maps.turns) && new_maps.pcs@
            == moved_party(old_maps.pcs@, old_maps.tiles@, k),
{
}

/// The prompt of the attack state holds the weapon's name.
pub proof fn lemma_prompt_names_weapon(w: Weapon)
    ensures
        ({
            let start = "Which direction do you want to attack with "@.len();
            prompt_message(w).subrange(start as int, start + weapon_name(w).len() as int)
                == weapon_name(w)
        }),
{
    let a = "Which direction do you want to attack with "@;
    let b = weapon_name(w);
    let c = "? [Use the arrow keys to answer]"@;
    assert(prompt_message(w) == a + b + c);
    assert((a + b + c).subrange(a.len() as int, a.len() + b.len() as int) =~= b);
}

} // verus!

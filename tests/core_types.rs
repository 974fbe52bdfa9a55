use roguelike_core::combat::{Weapon, BOOMERANG_DAMAGE};
use roguelike_core::geometry::Point;
use roguelike_core::input::{Direction, Key, KeyCode};
use roguelike_core::map::{
    find_actor, handle_keys, is_walkable, make_map, Actor, Maps, Tile, MAP_HEIGHT, MAP_WIDTH,
};
use roguelike_core::text::decimal_string;
use roguelike_core::windows::{render_frame, MessageWindow, RenderStep, WindowKind};

#[test]
fn point_offsets_make_new_values() {
    let p = Point::new(5, 5);
    assert_eq!(p.offset_x(1), Point::new(6, 5));
    assert_eq!(p.offset_x(-1), Point::new(4, 5));
    assert_eq!(p.offset_y(1), Point::new(5, 6));
    assert_eq!(p.offset_y(-1), Point::new(5, 4));
    assert_eq!(p, Point::new(5, 5));
}

#[test]
fn arrow_keys_select_directions() {
    assert_eq!(Key::SpecialKey(KeyCode::Up).direction(), Some(Direction::Up));
    assert_eq!(Key::SpecialKey(KeyCode::Down).direction(), Some(Direction::Down));
    assert_eq!(Key::SpecialKey(KeyCode::Left).direction(), Some(Direction::Left));
    assert_eq!(Key::SpecialKey(KeyCode::Right).direction(), Some(Direction::Right));
    assert_eq!(Key::SpecialKey(KeyCode::Shift).direction(), None);
    assert_eq!(Key::Printable('a').direction(), None);
    assert!(Key::SpecialKey(KeyCode::Shift).is_modifier());
    assert!(!Key::Printable('a').is_modifier());
    assert_eq!(Direction::Up.word(), "up");
    assert_eq!(Direction::Right.word(), "right");
    assert_eq!((Direction::Left.dx(), Direction::Left.dy()), (-1, 0));
    assert_eq!((Direction::Down.dx(), Direction::Down.dy()), (0, 1));
}

#[test]
fn starting_map_has_two_pillars() {
    let map = make_map();
    assert_eq!(map.len(), MAP_WIDTH);
    assert!(map.iter().all(|col| col.len() == MAP_HEIGHT));
    assert_eq!(map[30][22], Tile::new(true, true));
    assert_eq!(map[50][22], Tile::new(true, true));
    let walls = map.iter().flatten().filter(|t| t.blocked).count();
    assert_eq!(walls, 2);
    assert_eq!(map[0][0], Tile::new(false, false));
}

#[test]
fn walkable_checks_bounds_and_walls() {
    let map = make_map();
    assert!(is_walkable(&map, 0, 0));
    assert!(!is_walkable(&map, -1, 0));
    assert!(!is_walkable(&map, 80, 0));
    assert!(!is_walkable(&map, 0, 45));
    assert!(!is_walkable(&map, 30, 22));
}

#[test]
fn move_by_stops_at_walls_and_edges() {
    let map = make_map();
    let mut a = Actor::new(29, 22, '@', 10);
    a.move_by(1, 0, &map);
    assert_eq!(a.location, Point::new(29, 22));
    a.move_by(0, -1, &map);
    assert_eq!(a.location, Point::new(29, 21));
    let mut b = Actor::new(0, 0, '@', 10);
    b.move_by(-1, 0, &map);
    assert_eq!(b.location, Point::new(0, 0));
}

#[test]
fn handle_keys_moves_and_exits() {
    let map = make_map();
    let mut player = Actor::new(40, 25, '@', 10);
    assert!(!handle_keys(&mut player, Key::SpecialKey(KeyCode::Up), &map));
    assert_eq!(player.location, Point::new(40, 24));
    assert!(!handle_keys(&mut player, Key::SpecialKey(KeyCode::Left), &map));
    assert_eq!(player.location, Point::new(39, 24));
    assert!(!handle_keys(&mut player, Key::Printable('x'), &map));
    assert_eq!(player.location, Point::new(39, 24));
    assert!(handle_keys(&mut player, Key::SpecialKey(KeyCode::Escape), &map));
    assert_eq!(player.location, Point::new(39, 24));
}

#[test]
fn find_actor_returns_first_match() {
    let actors = vec![
        Actor::new(1, 1, 'a', 1),
        Actor::new(2, 2, 'b', 1),
        Actor::new(2, 2, 'c', 1),
    ];
    assert_eq!(find_actor(&actors, Point::new(2, 2)), Some(1));
    assert_eq!(find_actor(&actors, Point::new(1, 1)), Some(0));
    assert_eq!(find_actor(&actors, Point::new(3, 3)), None);
    assert_eq!(find_actor(&Vec::new(), Point::new(0, 0)), None);
}

#[test]
fn map_update_moves_first_player_and_counts_turns() {
    let pcs = vec![Actor::new(10, 10, '@', 10), Actor::new(11, 10, '@', 10)];
    let enemies = vec![Actor::new(20, 20, 'g', 5)];
    let mut maps = Maps::new(make_map(), pcs, enemies);
    assert_eq!(maps.actor_at(Point::new(11, 10)), Some(1));
    assert_eq!(maps.enemy_at(Point::new(20, 20)), Some(0));
    maps.update(Key::SpecialKey(KeyCode::Down));
    assert_eq!(maps.pcs[0].location, Point::new(10, 11));
    assert_eq!(maps.pcs[1].location, Point::new(11, 10));
    assert_eq!(maps.turns, 1);
    maps.update(Key::Printable('q'));
    assert_eq!(maps.pcs[0].location, Point::new(10, 11));
    assert_eq!(maps.turns, 2);
    let mut last = Maps::new(make_map(), Vec::new(), Vec::new());
    last.turns = u64::MAX;
    last.update(Key::SpecialKey(KeyCode::Up));
    assert_eq!(last.turns, u64::MAX);
}

#[test]
fn decimal_string_writes_digits() {
    assert_eq!(decimal_string(0), "0");
    assert_eq!(decimal_string(7), "7");
    assert_eq!(decimal_string(10), "10");
    assert_eq!(decimal_string(305), "305");
    assert_eq!(decimal_string(u32::MAX), "4294967295");
}

#[test]
fn boomerang_damage_is_capped_by_hit_points() {
    let w = Weapon::boomerang();
    assert_eq!(w.get_name(), "Boomerang");
    let mut strong = Actor::new(1, 1, 'g', 10);
    assert_eq!(w.deal_damage(&mut strong), BOOMERANG_DAMAGE);
    assert_eq!(strong.hp, 10 - BOOMERANG_DAMAGE);
    let mut weak = Actor::new(1, 1, 'g', 2);
    assert_eq!(w.deal_damage(&mut weak), 2);
    assert_eq!(weak.hp, 0);
    assert_eq!(w.deal_damage(&mut weak), 0);
    assert_eq!(weak.location, Point::new(1, 1));
}

#[test]
fn message_window_keeps_order_and_flushes() {
    let mut w = MessageWindow::new();
    assert_eq!(w.len(), 0);
    w.buffer_message("first");
    w.buffer_message("second");
    assert_eq!(w.buffer, vec!["first".to_string(), "second".to_string()]);
    w.flush_buffer();
    assert_eq!(w.len(), 0);
}

#[test]
fn frame_is_bracketed() {
    assert_eq!(
        render_frame(),
        vec![
            RenderStep::BeginFrame,
            RenderStep::AttachWindow(WindowKind::Stats),
            RenderStep::AttachWindow(WindowKind::Input),
            RenderStep::AttachWindow(WindowKind::Messages),
            RenderStep::AttachWindow(WindowKind::MapPanel),
            RenderStep::DrawMap,
            RenderStep::EndFrame,
        ]
    );
}

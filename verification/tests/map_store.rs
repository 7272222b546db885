//! Tests of the map geometry store and the player scan.

use doom_core::map::MapData;
use doom_core::player::Player;
use doom_core::wad::thing::Thing;
use doom_core::wad::vertex::Vertex;

fn thing(x: i16, y: i16, direction: u16, typ: u16) -> Thing {
    Thing { x, y, direction, typ, flags: 0 }
}

#[test]
fn player_new_starts_at_origin() {
    let p = Player::new(1);
    assert_eq!(p, Player { id: 1, x: 0, y: 0, direction: 0 });
}

#[test]
fn bounds_scan_widens_minimum_first() {
    let vertexes = vec![Vertex { x: 0, y: 0 }, Vertex { x: 10, y: 0 }];
    let m = MapData::new("E1M1", vertexes, Vec::new(), Vec::new(), Vec::new(), Player::new(1));
    assert_eq!(m.name, "E1M1");
    assert_eq!(m.x_min, 0);
    assert_eq!(m.x_max, 10);
    // The first vertex only narrowed the y minimum, so the maximum was
    // widened by the second vertex alone.
    assert_eq!(m.y_min, 0);
    assert_eq!(m.y_max, 0);
}

#[test]
fn bounds_scan_over_mixed_coordinates() {
    let vertexes = vec![
        Vertex { x: -3, y: 7 },
        Vertex { x: 12, y: -4 },
        Vertex { x: 5, y: 9 },
    ];
    let m = MapData::new("E1M1", vertexes, Vec::new(), Vec::new(), Vec::new(), Player::new(1));
    assert_eq!((m.x_min, m.x_max, m.y_min, m.y_max), (-3, 12, -4, 9));
}

#[test]
fn last_matching_map_object_sets_the_player() {
    let things = vec![
        thing(1, 1, 0, 2),
        thing(5, 6, 90, 1),
        thing(7, 8, 180, 1),
        thing(9, 9, 270, 3),
    ];
    let m = MapData::new("E1M1", Vec::new(), Vec::new(), things, Vec::new(), Player::new(1));
    assert_eq!(m.player, Player { id: 1, x: 7, y: 8, direction: 180 });
}

#[test]
fn player_unchanged_when_no_map_object_matches() {
    let things = vec![thing(1, 1, 0, 2)];
    let m = MapData::new("E1M1", Vec::new(), Vec::new(), things, Vec::new(), Player::new(1));
    assert_eq!(m.player, Player::new(1));
}

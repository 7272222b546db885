//! Tests of the partition walker: leaf references, bearings, window
//! clipping, traversal order, and failure on broken references.

use doom_core::angle::Angle;
use doom_core::check_for_sub_sector;
use doom_core::errors::DoomError;
use doom_core::get_sub_sector;
use doom_core::view::bearing;
use doom_core::view::clip_vertexes_in_fov;
use doom_core::view::is_point_on_left_side;
use doom_core::view::vertex_to_angle;
use doom_core::view::visible_vertexes;
use doom_core::wad::node::Node;
use doom_core::wad::seg::Seg;
use doom_core::wad::ssector::SSector;
use doom_core::wad::vertex::Vertex;

fn node(px: i16, py: i16, dx: i16, dy: i16, right: u16, left: u16) -> Node {
    Node {
        x_partition: px,
        y_partition: py,
        change_x_partition: dx,
        change_y_partition: dy,
        right_box_top: 0,
        right_box_bottom: 0,
        right_box_left: 0,
        right_box_right: 0,
        left_box_top: 0,
        left_box_bottom: 0,
        left_box_left: 0,
        left_box_right: 0,
        right_child: right,
        left_child: left,
    }
}

fn seg(start: u16, end: u16) -> Seg {
    Seg {
        start_vertex: start,
        end_vertex: end,
        angle: 0,
        linedef: 0,
        side: 0,
        offset: 0,
    }
}

/// One root node splitting the plane at x = 0: the left child's leaf holds
/// one segment on the left, the right child's one on the right.
fn tiny_map() -> (Vec<Node>, Vec<Seg>, Vec<SSector>, Vec<Vertex>) {
    let nodes = vec![node(0, 0, 1, 0, 0x8000 | 1, 0x8000 | 0)];
    let segs = vec![seg(0, 1), seg(2, 3)];
    let ssectors = vec![
        SSector { seg_count: 1, first_seg: 0 },
        SSector { seg_count: 1, first_seg: 1 },
    ];
    let vertexes = vec![
        Vertex { x: -10, y: 5 },
        Vertex { x: -10, y: -5 },
        Vertex { x: 10, y: 5 },
        Vertex { x: 10, y: -5 },
    ];
    (nodes, segs, ssectors, vertexes)
}

#[test]
fn sub_sector_bit() {
    assert!(check_for_sub_sector(0x8000));
    assert!(check_for_sub_sector(0x8005));
    assert!(!check_for_sub_sector(0x7FFF));
    assert!(!check_for_sub_sector(0));
    assert_eq!(get_sub_sector(0x8000), 0);
    assert_eq!(get_sub_sector(0x8005), 5);
    assert_eq!(get_sub_sector(0x7FFF), 0x7FFF);
}

#[test]
fn bearing_on_axes_and_diagonals() {
    assert_eq!(bearing(1, 0), 0);
    assert_eq!(bearing(0, 1), 90_000);
    assert_eq!(bearing(-1, 0), 180_000);
    assert_eq!(bearing(0, -1), 270_000);
    assert_eq!(bearing(1, 1), 45_000);
    assert_eq!(bearing(-1, 1), 135_000);
    assert_eq!(bearing(-1, -1), 225_000);
    assert_eq!(bearing(1, -1), 315_000);
    assert_eq!(bearing(0, 0), 0);
}

#[test]
fn bearing_inside_octant() {
    // atan(1/2) is a bit over 26.5 degrees; the fixed-point value is
    // (45000*1*2 + 15640*1*1) / 4.
    assert_eq!(bearing(2, 1), 26_410);
    assert_eq!(bearing(1, 2), 90_000 - 26_410);
}

#[test]
fn vertex_to_angle_is_relative_to_observer() {
    let v = Vertex { x: 5, y: 5 };
    assert_eq!(vertex_to_angle(&v, 5, 0), Angle::new(90_000));
    assert_eq!(vertex_to_angle(&v, 0, 0), Angle::new(45_000));
    assert_eq!(vertex_to_angle(&v, 10, 10), Angle::new(225_000));
}

#[test]
fn side_test_uses_cross_product() {
    let n = node(0, 0, 1, 0, 0, 0);
    // The partition direction points along +x, so "left" is where the cross
    // product is not positive: observers with y >= 0.
    assert!(is_point_on_left_side(-5, 0, &n));
    assert!(is_point_on_left_side(3, 7, &n));
    assert!(!is_point_on_left_side(3, -7, &n));
}

#[test]
fn clip_keeps_segment_ahead_and_drops_segment_behind() {
    let facing = Angle::new(0);
    let ahead1 = Vertex { x: 10, y: 1 };
    let ahead2 = Vertex { x: 10, y: -1 };
    let behind1 = Vertex { x: -10, y: 1 };
    let behind2 = Vertex { x: -10, y: -1 };
    assert!(clip_vertexes_in_fov(&ahead1, &ahead2, 0, 0, &facing, 90_000));
    assert!(!clip_vertexes_in_fov(&behind1, &behind2, 0, 0, &facing, 90_000));
    // A segment reaching from ahead to behind overlaps the window partially
    // and is kept.
    assert!(clip_vertexes_in_fov(&ahead1, &behind1, 0, 0, &facing, 90_000));
}

#[test]
fn clip_with_zero_fov_sees_nothing() {
    let facing = Angle::new(0);
    let dead_center = Vertex { x: 10, y: 0 };
    let above = Vertex { x: 10, y: 1 };
    let below = Vertex { x: 10, y: -1 };
    assert!(!clip_vertexes_in_fov(&dead_center, &above, 0, 0, &facing, 0));
    assert!(!clip_vertexes_in_fov(&below, &above, 0, 0, &facing, 0));
}

#[test]
fn clip_with_full_fov_sees_everything() {
    let facing = Angle::new(123_000);
    let a = Vertex { x: -10, y: 3 };
    let b = Vertex { x: 4, y: -9 };
    assert!(clip_vertexes_in_fov(&a, &b, 0, 0, &facing, 360_000));
}

#[test]
fn left_side_observer_visits_left_child_first() {
    let (nodes, segs, ssectors, vertexes) = tiny_map();
    let facing = Angle::new(0);
    let out = visible_vertexes(&nodes, &segs, &ssectors, &vertexes, -5, 0, &facing, 360_000)
        .unwrap();
    assert_eq!(out.vertexes.len(), 2);
    // The left child's leaf (segment 0) comes first, near to far.
    assert_eq!(out.vertexes[0], (Vertex { x: -10, y: 5 }, Vertex { x: -10, y: -5 }));
    assert_eq!(out.vertexes[1], (Vertex { x: 10, y: 5 }, Vertex { x: 10, y: -5 }));
}

#[test]
fn right_side_observer_visits_right_child_first() {
    let (nodes, segs, ssectors, vertexes) = tiny_map();
    let facing = Angle::new(0);
    let out = visible_vertexes(&nodes, &segs, &ssectors, &vertexes, 5, -1, &facing, 360_000)
        .unwrap();
    assert_eq!(out.vertexes.len(), 2);
    assert_eq!(out.vertexes[0], (Vertex { x: 10, y: 5 }, Vertex { x: 10, y: -5 }));
    assert_eq!(out.vertexes[1], (Vertex { x: -10, y: 5 }, Vertex { x: -10, y: -5 }));
}

#[test]
fn zero_fov_emits_no_segments() {
    let (nodes, segs, ssectors, vertexes) = tiny_map();
    let facing = Angle::new(180_000);
    let out = visible_vertexes(&nodes, &segs, &ssectors, &vertexes, -5, 0, &facing, 0).unwrap();
    assert_eq!(out.vertexes.len(), 0);
}

#[test]
fn full_fov_emits_every_segment_in_every_reachable_leaf() {
    let (nodes, segs, ssectors, vertexes) = tiny_map();
    for facing_md in [0i64, 90_000, 777_000] {
        let facing = Angle::new(facing_md);
        let out = visible_vertexes(&nodes, &segs, &ssectors, &vertexes, -5, 0, &facing, 360_000)
            .unwrap();
        assert_eq!(out.vertexes.len(), segs.len());
    }
}

#[test]
fn empty_node_sequence_fails() {
    let (_, segs, ssectors, vertexes) = tiny_map();
    let facing = Angle::new(0);
    let r = visible_vertexes(&Vec::new(), &segs, &ssectors, &vertexes, 0, 0, &facing, 90_000);
    assert!(matches!(r.unwrap_err(), DoomError::IndexIntegrity { .. }));
}

#[test]
fn out_of_range_vertex_reference_fails_whole_query() {
    let (nodes, mut segs, ssectors, vertexes) = tiny_map();
    segs[0] = seg(9, 1);
    let facing = Angle::new(0);
    let r = visible_vertexes(&nodes, &segs, &ssectors, &vertexes, -5, 0, &facing, 360_000);
    assert_eq!(r.unwrap_err(), DoomError::IndexIntegrity { index: 9, limit: 4 });
}

#[test]
fn out_of_range_seg_run_fails_whole_query() {
    let (nodes, segs, mut ssectors, vertexes) = tiny_map();
    ssectors[0] = SSector { seg_count: 3, first_seg: 1 };
    let facing = Angle::new(0);
    let r = visible_vertexes(&nodes, &segs, &ssectors, &vertexes, -5, 0, &facing, 360_000);
    assert_eq!(r.unwrap_err(), DoomError::IndexIntegrity { index: 2, limit: 2 });
}

#[test]
fn non_decreasing_child_reference_fails() {
    // A root whose near child points back at itself would cycle; the walk
    // reports the reference instead of recursing.
    let nodes = vec![node(0, 0, 1, 0, 0, 0)];
    let (_, segs, ssectors, vertexes) = tiny_map();
    let facing = Angle::new(0);
    let r = visible_vertexes(&nodes, &segs, &ssectors, &vertexes, -5, 0, &facing, 360_000);
    assert!(matches!(r.unwrap_err(), DoomError::IndexIntegrity { .. }));
}

#[test]
fn out_of_range_sub_sector_reference_fails() {
    let (mut nodes, segs, ssectors, vertexes) = tiny_map();
    nodes[0] = node(0, 0, 1, 0, 0x8000 | 7, 0x8000 | 0);
    let facing = Angle::new(0);
    let r = visible_vertexes(&nodes, &segs, &ssectors, &vertexes, 5, -1, &facing, 360_000);
    assert_eq!(r.unwrap_err(), DoomError::IndexIntegrity { index: 7, limit: 2 });
}

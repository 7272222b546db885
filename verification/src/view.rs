//! The spatial-partition visibility walker.
//!
//! Given the decoded partition nodes, wall segments, leaf regions, and
//! vertices of one map, plus an observer pose (position, facing angle, field
//! of view), the walker visits the partition tree near-child first and emits
//! the endpoint pairs of the segments whose angular span crosses the view
//! window, in near-to-far order.
//!
//! Directions are measured in thousandths of a degree.  The bearing of a
//! point from the observer is a fixed-point arctangent: exact on the axes
//! and the diagonals, and within a quarter of a degree of the real
//! arctangent elsewhere, which is the resolution this walker needs.

use vstd::prelude::*;

use crate::angle::norm_md;
use crate::angle::Angle;
use crate::errors::DoomError;
use crate::wad::node::Node;
use crate::wad::seg::Seg;
use crate::wad::ssector::SSector;
use crate::wad::vertex::Vertex;
use crate::wad::vertex::VisibleVertexes;
use vstd::arithmetic::div_mod::lemma_div_is_ordered;
use vstd::arithmetic::div_mod::lemma_div_multiples_vanish;
use vstd::arithmetic::div_mod::lemma_div_pos_is_pos;

verus! {

/// The bit that marks a child reference as a leaf.
pub const SUB_SECTOR_IDENTIFIER: usize = 0x8000;

/// A node reference with the leaf bit set denotes a leaf region.
pub open spec fn spec_is_sub_sector(node: usize) -> bool {
    node & 0x8000 != 0
}

/// The leaf region index carried by a leaf reference: the reference with the
/// leaf bit cleared.
pub open spec fn spec_sub_sector(node: usize) -> usize {
    node & !0x8000
}

/// Whether `node` is a leaf reference (its leaf bit is set).
pub fn check_for_sub_sector(node: usize) -> (r: bool)
    ensures
        r == spec_is_sub_sector(node),
{
    node & SUB_SECTOR_IDENTIFIER > 0
}

/// The leaf region index carried by the leaf reference `node`.
pub fn get_sub_sector(node: usize) -> (r: usize)
    ensures
        r == spec_sub_sector(node),
{
    node & !SUB_SECTOR_IDENTIFIER
}

/// The fixed-point arctangent within one octant: for `0 <= ay <= ax`, the
/// direction of `(ax, ay)` in thousandths of a degree, between `0` and
/// `45000`.
pub open spec fn octant_md(ay: int, ax: int) -> int {
    (45000 * ay * ax + 15640 * ay * (ax - ay)) / (ax * ax)
}

/// The direction of `(ax, ay)` with both coordinates non-negative, in
/// thousandths of a degree, between `0` and `90000`.
pub open spec fn quadrant_md(ax: int, ay: int) -> int {
    if ay <= ax {
        octant_md(ay, ax)
    } else {
        90000 - octant_md(ax, ay)
    }
}

/// The bearing of the displacement `(dx, dy)`, counter-clockwise from the
/// positive x axis, in thousandths of a degree in `[0, 360000)`.  The zero
/// displacement is given bearing `0`.
pub open spec fn bearing_md(dx: int, dy: int) -> int {
    if dx == 0 && dy == 0 {
        0
    } else {
        let ax = if dx < 0 {
            -dx
        } else {
            dx
        };
        let ay = if dy < 0 {
            -dy
        } else {
            dy
        };
        if dx >= 0 && dy >= 0 {
            quadrant_md(ax, ay)
        } else if dx < 0 && dy >= 0 {
            180000 - quadrant_md(ax, ay)
        } else if dx < 0 {
            180000 + quadrant_md(ax, ay)
        } else {
            (360000 - quadrant_md(ax, ay)) % 360000
        }
    }
}

proof fn lemma_octant_range(ay: int, ax: int)
    requires
        0 <= ay <= ax,
        1 <= ax,
    ensures
        0 <= octant_md(ay, ax) <= 45000,
{
    let num = 45000 * ay * ax + 15640 * ay * (ax - ay);
    let den = ax * ax;
    assert(45000 * ay * ax + 15640 * ay * (ax - ay) >= 0 && ax * ax >= 1) by (nonlinear_arith)
        requires
            0 <= ay <= ax,
            1 <= ax,
    ;
    assert((ax - ay) * (45000 * ax - 15640 * ay) >= 0) by (nonlinear_arith)
        requires
            0 <= ay <= ax,
    ;
    assert(45000 * (ax * ax) - (45000 * ay * ax + 15640 * ay * (ax - ay)) == (ax - ay) * (45000
        * ax - 15640 * ay)) by (nonlinear_arith);
    lemma_div_pos_is_pos(num, den);
    lemma_div_is_ordered(num, 45000 * den, den);
    lemma_div_multiples_vanish(45000, den);
}

proof fn lemma_quadrant_range(ax: int, ay: int)
    requires
        0 <= ax,
        0 <= ay,
        ax + ay >= 1,
    ensures
        0 <= quadrant_md(ax, ay) <= 90000,
{
    if ay <= ax {
        lemma_octant_range(ay, ax);
    } else {
        lemma_octant_range(ax, ay);
    }
}

/// The bearing of any displacement lies in `[0, 360000)`.
pub proof fn lemma_bearing_range(dx: int, dy: int)
    ensures
        0 <= bearing_md(dx, dy) < 360000,
{
    if dx == 0 && dy == 0 {
    } else {
        let ax = if dx < 0 {
            -dx
        } else {
            dx
        };
        let ay = if dy < 0 {
            -dy
        } else {
            dy
        };
        lemma_quadrant_range(ax, ay);
        if !(dx >= 0 && dy >= 0) && !(dx < 0 && dy >= 0) && !(dx < 0) {
            let q = quadrant_md(ax, ay);
            if q == 0 {
                assert(360000int % 360000 == 0);
            } else {
                vstd::arithmetic::div_mod::lemma_small_mod((360000 - q) as nat, 360000nat);
            }
        }
    }
}

/// The fixed-point arctangent within one octant (see [`octant_md`]).
fn octant(ay: u64, ax: u64) -> (r: u64)
    requires
        ay <= ax,
        1 <= ax,
        ax <= 0xFFFF,
    ensures
        r == octant_md(ay as int, ax as int),
        r <= 45000,
{
    proof {
        lemma_octant_range(ay as int, ax as int);
        assert(45000 * ay * ax + 15640 * ay * (ax - ay) <= 0x10_0000_0000_0000 && 1 <= ax * ax
            && ax * ax <= 0x1_0000_0000) by (nonlinear_arith)
            requires
                ay <= ax,
                1 <= ax,
                ax <= 0xFFFF,
        ;
    }
    let num = 45000 * ay * ax + 15640 * ay * (ax - ay);
    num / (ax * ax)
}

/// The bearing of the displacement `(dx, dy)` in thousandths of a degree
/// (see [`bearing_md`]).
pub fn bearing(dx: i32, dy: i32) -> (r: u32)
    requires
        -0xFFFF <= dx <= 0xFFFF,
        -0xFFFF <= dy <= 0xFFFF,
    ensures
        r == bearing_md(dx as int, dy as int),
        r < 360000,
{
    proof {
        lemma_bearing_range(dx as int, dy as int);
    }
    if dx == 0 && dy == 0 {
        return 0;
    }
    let ax: u64 = if dx < 0 {
        (-(dx as i64)) as u64
    } else {
        dx as u64
    };
    let ay: u64 = if dy < 0 {
        (-(dy as i64)) as u64
    } else {
        dy as u64
    };
    let q: u64 = if ay <= ax {
        octant(ay, ax)
    } else {
        90000 - octant(ax, ay)
    };
    if dx >= 0 && dy >= 0 {
        q as u32
    } else if dx < 0 && dy >= 0 {
        (180000 - q) as u32
    } else if dx < 0 {
        (180000 + q) as u32
    } else {
        ((360000 - q) % 360000) as u32
    }
}

/// The bearing of `vertex` as seen from the observer at `(px, py)`, as a
/// normalized angle.
pub fn vertex_to_angle(vertex: &Vertex, px: i16, py: i16) -> (r: Angle)
    ensures
        r@ == bearing_md(vertex.x - px, vertex.y - py),
{
    let dx: i32 = vertex.x as i32 - px as i32;
    let dy: i32 = vertex.y as i32 - py as i32;
    let b = bearing(dx, dy);
    proof {
        vstd::arithmetic::div_mod::lemma_small_mod(b as nat, 360000nat);
    }
    Angle::new(b as i64)
}

/// The observer at `(px, py)` lies on the left side of `node`'s partition
/// line: the cross product of the displacement against the partition
/// direction is not positive.
pub open spec fn spec_on_left_side(px: int, py: int, node: Node) -> bool {
    (px - node.x_partition) * node.change_y_partition - (py - node.y_partition)
        * node.change_x_partition <= 0
}

/// Which side of `node`'s partition line the observer is on (see
/// [`spec_on_left_side`]).
pub fn is_point_on_left_side(px: i16, py: i16, node: &Node) -> (r: bool)
    ensures
        r == spec_on_left_side(px as int, py as int, *node),
{
    let dx: i64 = px as i64 - node.x_partition as i64;
    let dy: i64 = py as i64 - node.y_partition as i64;
    proof {
        let cy = node.change_y_partition as int;
        let cx = node.change_x_partition as int;
        assert(dx * cy <= 0x7FFF_FFFF_FFFF && dx * cy >= -0x7FFF_FFFF_FFFF && dy * cx
            <= 0x7FFF_FFFF_FFFF && dy * cx >= -0x7FFF_FFFF_FFFF) by (nonlinear_arith)
            requires
                -0x1_0000 <= dx <= 0x1_0000,
                -0x1_0000 <= dy <= 0x1_0000,
                -0x8000 <= cy <= 0x7FFF,
                -0x8000 <= cx <= 0x7FFF,
        ;
    }
    dx * (node.change_y_partition as i64) - dy * (node.change_x_partition as i64) <= 0
}

/// The signed offset of `bearing` from `facing`, in `(-180000, 180000]`.
pub open spec fn rel_offset_md(bearing: int, facing: int) -> int {
    let rel = norm_md(bearing - facing);
    if rel <= 180000 {
        rel
    } else {
        rel - 360000
    }
}

/// Whether the segment from `v1` to `v2` crosses the observer's view
/// window.  The window spans half the field of view to each side of the
/// facing direction; an empty field of view sees nothing.  The segment's
/// angular span is the short way between its two endpoint bearings, and the
/// segment is kept exactly when that span and the window intersect, so
/// partially overlapping segments are kept and fully outside ones are not.
pub open spec fn seg_visible(px: int, py: int, facing: int, fov: int, v1: Vertex, v2: Vertex) -> bool {
    if fov <= 0 {
        false
    } else {
        let s1 = rel_offset_md(bearing_md(v1.x - px, v1.y - py), facing);
        let s2 = rel_offset_md(bearing_md(v2.x - px, v2.y - py), facing);
        let lo = if s1 <= s2 {
            s1
        } else {
            s2
        };
        let hi = if s1 <= s2 {
            s2
        } else {
            s1
        };
        let half = fov / 2;
        if hi - lo <= 180000 {
            lo <= half && -half <= hi
        } else {
            hi <= half || -half <= lo
        }
    }
}

/// Whether the segment from `v1` to `v2` crosses the view window (see
/// [`seg_visible`]).
pub fn clip_vertexes_in_fov(
    v1: &Vertex,
    v2: &Vertex,
    px: i16,
    py: i16,
    facing: &Angle,
    fov: u32,
) -> (r: bool)
    ensures
        r == seg_visible(px as int, py as int, facing@, fov as int, *v1, *v2),
{
    if fov == 0 {
        return false;
    }
    let b1 = vertex_to_angle(v1, px, py);
    let b2 = vertex_to_angle(v2, px, py);
    let r1 = b1.sub(*facing).millidegrees();
    let r2 = b2.sub(*facing).millidegrees();
    let s1: i64 = if r1 <= 180000 {
        r1 as i64
    } else {
        r1 as i64 - 360000
    };
    let s2: i64 = if r2 <= 180000 {
        r2 as i64
    } else {
        r2 as i64 - 360000
    };
    let lo: i64 = if s1 <= s2 {
        s1
    } else {
        s2
    };
    let hi: i64 = if s1 <= s2 {
        s2
    } else {
        s1
    };
    let half: i64 = (fov / 2) as i64;
    if hi - lo <= 180000 {
        lo <= half && -half <= hi
    } else {
        hi <= half || -half <= lo
    }
}

/// An empty view window never shows a segment.
pub proof fn lemma_fov_zero_sees_nothing(px: int, py: int, facing: int, v1: Vertex, v2: Vertex)
    ensures
        !seg_visible(px, py, facing, 0, v1, v2),
{
}

/// A full-turn view window shows every segment, whatever its bearings.
pub proof fn lemma_fov_full_sees_everything(
    px: int,
    py: int,
    facing: int,
    fov: int,
    v1: Vertex,
    v2: Vertex,
)
    requires
        fov >= 360000,
    ensures
        seg_visible(px, py, facing, fov, v1, v2),
{
    lemma_bearing_range(v1.x - px, v1.y - py);
    lemma_bearing_range(v2.x - px, v2.y - py);
    let b1 = bearing_md(v1.x - px, v1.y - py);
    let b2 = bearing_md(v2.x - px, v2.y - py);
    vstd::arithmetic::div_mod::lemma_mod_bound(b1 - facing, 360000);
    vstd::arithmetic::div_mod::lemma_mod_bound(b2 - facing, 360000);
}

/// The pairs emitted from the first `n` segments of the run that starts at
/// segment index `first`: each in-bounds, in-range segment contributes its
/// endpoint pair when it crosses the view window; an out-of-range segment or
/// vertex index makes the whole run fail.
pub open spec fn emit_upto(
    segs: Seq<Seg>,
    vertexes: Seq<Vertex>,
    px: int,
    py: int,
    facing: int,
    fov: int,
    first: int,
    n: int,
) -> Option<Seq<(Vertex, Vertex)>>
    decreases n,
{
    if n <= 0 {
        Some(Seq::empty())
    } else {
        match emit_upto(segs, vertexes, px, py, facing, fov, first, n - 1) {
            None => None,
            Some(s) => {
                let k = first + n - 1;
                if !(0 <= k < segs.len()) {
                    None
                } else if segs[k].start_vertex >= vertexes.len() || segs[k].end_vertex
                    >= vertexes.len() {
                    None
                } else {
                    let v1 = vertexes[segs[k].start_vertex as int];
                    let v2 = vertexes[segs[k].end_vertex as int];
                    if seg_visible(px, py, facing, fov, v1, v2) {
                        Some(s.push((v1, v2)))
                    } else {
                        Some(s)
                    }
                }
            },
        }
    }
}

/// The pairs emitted from leaf region `ssector_id`: its whole run of
/// segments, or failure when the region or one of its references is out of
/// range.
pub open spec fn emit_sub_sector(
    segs: Seq<Seg>,
    ssectors: Seq<SSector>,
    vertexes: Seq<Vertex>,
    px: int,
    py: int,
    facing: int,
    fov: int,
    ssector_id: int,
) -> Option<Seq<(Vertex, Vertex)>> {
    if 0 <= ssector_id < ssectors.len() {
        let ss = ssectors[ssector_id];
        emit_upto(segs, vertexes, px, py, facing, fov, ss.first_seg as int, ss.seg_count as int)
    } else {
        None
    }
}

/// The walk's measure: leaves stop at once; an internal node may only
/// reference earlier nodes, so its index bounds the remaining depth.
pub open spec fn walk_measure(node_ref: usize) -> int {
    if node_ref & 0x8000 != 0 {
        0
    } else {
        node_ref as int + 1
    }
}

/// The ordered pairs a walk from `node_ref` emits.  A leaf reference emits
/// its leaf region; an internal node emits its near child's pairs, then its
/// far child's.  The walk fails on any reference that is out of range, and
/// on an internal child reference that does not precede its parent (such a
/// tree would cycle).
pub open spec fn walk_spec(
    nodes: Seq<Node>,
    segs: Seq<Seg>,
    ssectors: Seq<SSector>,
    vertexes: Seq<Vertex>,
    px: int,
    py: int,
    facing: int,
    fov: int,
    node_ref: usize,
) -> Option<Seq<(Vertex, Vertex)>>
    decreases walk_measure(node_ref),
{
    if node_ref & 0x8000 != 0 {
        emit_sub_sector(
            segs,
            ssectors,
            vertexes,
            px,
            py,
            facing,
            fov,
            (node_ref & !0x8000) as int,
        )
    } else if node_ref < nodes.len() {
        let node = nodes[node_ref as int];
        let near = if spec_on_left_side(px, py, node) {
            node.left_child
        } else {
            node.right_child
        };
        let far = if spec_on_left_side(px, py, node) {
            node.right_child
        } else {
            node.left_child
        };
        let c1 = near as usize;
        let c2 = far as usize;
        if c1 & 0x8000 == 0 && c1 >= node_ref {
            None
        } else {
            match walk_spec(nodes, segs, ssectors, vertexes, px, py, facing, fov, c1) {
                None => None,
                Some(a) => {
                    if c2 & 0x8000 == 0 && c2 >= node_ref {
                        None
                    } else {
                        match walk_spec(nodes, segs, ssectors, vertexes, px, py, facing, fov, c2) {
                            None => None,
                            Some(b) => Some(a + b),
                        }
                    }
                },
            }
        }
    } else {
        None
    }
}

proof fn lemma_emit_upto_none_persists(
    segs: Seq<Seg>,
    vertexes: Seq<Vertex>,
    px: int,
    py: int,
    facing: int,
    fov: int,
    first: int,
    m: int,
    n: int,
)
    requires
        0 <= m <= n,
        emit_upto(segs, vertexes, px, py, facing, fov, first, m) is None,
    ensures
        emit_upto(segs, vertexes, px, py, facing, fov, first, n) is None,
    decreases n - m,
{
    if m < n {
        lemma_emit_upto_none_persists(segs, vertexes, px, py, facing, fov, first, m, n - 1);
    }
}

/// Walks the run of segments of leaf region `ssector_id` and appends the
/// endpoint pairs of the visible ones to `out`, in run order.  Fails without
/// a defined output when the region index, a segment index, or a vertex
/// index is out of range.
pub fn find_vertexes_in_sub_sector(
    segs: &Vec<Seg>,
    ssectors: &Vec<SSector>,
    vertexes: &Vec<Vertex>,
    px: i16,
    py: i16,
    facing: &Angle,
    fov: u32,
    ssector_id: usize,
    out: &mut VisibleVertexes,
) -> (r: Result<(), DoomError>)
    ensures
        ({
            let e = emit_sub_sector(
                segs@,
                ssectors@,
                vertexes@,
                px as int,
                py as int,
                facing@,
                fov as int,
                ssector_id as int,
            );
            &&& (e matches Some(s) ==> r is Ok && final(out).vertexes@ == old(out).vertexes@ + s)
            &&& (e is None ==> r is Err)
        }),
        r matches Err(e) ==> e is IndexIntegrity,
{
    if ssector_id >= ssectors.len() {
        return Err(
            DoomError::IndexIntegrity { index: ssector_id as u64, limit: ssectors.len() as u64 },
        );
    }
    let ss = ssectors[ssector_id];
    let first = ss.first_seg as usize;
    let count = ss.seg_count as usize;
    let ghost s0 = out.vertexes@;
    let mut j: usize = 0;
    while j < count
        invariant
            j <= count,
            count <= 0xFFFF,
            first <= 0xFFFF,
            ssector_id < ssectors@.len(),
            first == ssectors@[ssector_id as int].first_seg,
            count == ssectors@[ssector_id as int].seg_count,
            match emit_upto(
                segs@,
                vertexes@,
                px as int,
                py as int,
                facing@,
                fov as int,
                first as int,
                j as int,
            ) {
                Some(s) => out.vertexes@ == s0 + s,
                None => false,
            },
        decreases count - j,
    {
        let ghost done = emit_upto(
            segs@,
            vertexes@,
            px as int,
            py as int,
            facing@,
            fov as int,
            first as int,
            j as int,
        );
        let k = first + j;
        if k >= segs.len() {
            proof {
                lemma_emit_upto_none_persists(
                    segs@,
                    vertexes@,
                    px as int,
                    py as int,
                    facing@,
                    fov as int,
                    first as int,
                    j as int + 1,
                    count as int,
                );
            }
            return Err(DoomError::IndexIntegrity { index: k as u64, limit: segs.len() as u64 });
        }
        let seg = segs[k];
        let sv = seg.start_vertex as usize;
        let ev = seg.end_vertex as usize;
        if sv >= vertexes.len() || ev >= vertexes.len() {
            proof {
                lemma_emit_upto_none_persists(
                    segs@,
                    vertexes@,
                    px as int,
                    py as int,
                    facing@,
                    fov as int,
                    first as int,
                    j as int + 1,
                    count as int,
                );
            }
            let bad = if sv >= vertexes.len() {
                sv
            } else {
                ev
            };
            return Err(
                DoomError::IndexIntegrity { index: bad as u64, limit: vertexes.len() as u64 },
            );
        }
        let v1 = vertexes[sv];
        let v2 = vertexes[ev];
        if clip_vertexes_in_fov(&v1, &v2, px, py, facing, fov) {
            out.vertexes.push((v1, v2));
        }
        proof {
            let next = emit_upto(
                segs@,
                vertexes@,
                px as int,
                py as int,
                facing@,
                fov as int,
                first as int,
                j as int + 1,
            );
            assert(next is Some);
        }
        j = j + 1;
    }
    Ok(())
}

/// Walks the partition tree from `node_ref` and appends the visible
/// endpoint pairs to `out`, near child before far child.  Fails without a
/// defined output on any out-of-range reference, and on an internal child
/// reference that does not precede its parent.
pub fn bsp(
    nodes: &Vec<Node>,
    segs: &Vec<Seg>,
    ssectors: &Vec<SSector>,
    vertexes: &Vec<Vertex>,
    px: i16,
    py: i16,
    facing: &Angle,
    fov: u32,
    node_ref: usize,
    out: &mut VisibleVertexes,
) -> (r: Result<(), DoomError>)
    ensures
        ({
            let w = walk_spec(
                nodes@,
                segs@,
                ssectors@,
                vertexes@,
                px as int,
                py as int,
                facing@,
                fov as int,
                node_ref,
            );
            &&& (w matches Some(s) ==> r is Ok && final(out).vertexes@ == old(out).vertexes@ + s)
            &&& (w is None ==> r is Err)
        }),
        r matches Err(e) ==> e is IndexIntegrity,
    decreases walk_measure(node_ref),
{
    if check_for_sub_sector(node_ref) {
        return find_vertexes_in_sub_sector(
            segs,
            ssectors,
            vertexes,
            px,
            py,
            facing,
            fov,
            get_sub_sector(node_ref),
            out,
        );
    }
    if node_ref >= nodes.len() {
        return Err(
            DoomError::IndexIntegrity { index: node_ref as u64, limit: nodes.len() as u64 },
        );
    }
    let node = nodes[node_ref];
    let (near, far) = if is_point_on_left_side(px, py, &node) {
        (node.left_child, node.right_child)
    } else {
        (node.right_child, node.left_child)
    };
    let c1 = near as usize;
    if !check_for_sub_sector(c1) && c1 >= node_ref {
        return Err(DoomError::IndexIntegrity { index: c1 as u64, limit: node_ref as u64 });
    }
    match bsp(nodes, segs, ssectors, vertexes, px, py, facing, fov, c1, out) {
        Ok(()) => (),
        Err(e) => {
            return Err(e);
        },
    }
    let c2 = far as usize;
    if !check_for_sub_sector(c2) && c2 >= node_ref {
        return Err(DoomError::IndexIntegrity { index: c2 as u64, limit: node_ref as u64 });
    }
    match bsp(nodes, segs, ssectors, vertexes, px, py, facing, fov, c2, out) {
        Ok(()) => (),
        Err(e) => {
            return Err(e);
        },
    }
    Ok(())
}

/// One visibility query: walks the whole partition tree from its root (the
/// last node) and returns the visible endpoint pairs in near-to-far order.
/// Fails, returning no partial output, when the map has no nodes or the walk
/// meets an out-of-range or non-decreasing reference.
pub fn visible_vertexes(
    nodes: &Vec<Node>,
    segs: &Vec<Seg>,
    ssectors: &Vec<SSector>,
    vertexes: &Vec<Vertex>,
    px: i16,
    py: i16,
    facing: &Angle,
    fov: u32,
) -> (r: Result<VisibleVertexes, DoomError>)
    ensures
        nodes@.len() == 0 ==> (r matches Err(e) && e is IndexIntegrity),
        nodes@.len() > 0 ==> match walk_spec(
            nodes@,
            segs@,
            ssectors@,
            vertexes@,
            px as int,
            py as int,
            facing@,
            fov as int,
            (nodes@.len() - 1) as usize,
        ) {
            Some(s) => (r matches Ok(v) && v.vertexes@ == s),
            None => (r matches Err(e) && e is IndexIntegrity),
        },
{
    if nodes.len() == 0 {
        return Err(DoomError::IndexIntegrity { index: 0, limit: 0 });
    }
    let mut out = VisibleVertexes { vertexes: Vec::new() };
    match bsp(nodes, segs, ssectors, vertexes, px, py, facing, fov, nodes.len() - 1, &mut out) {
        Ok(()) => Ok(out),
        Err(e) => Err(e),
    }
}

/// The endpoint pairs of the first `n` segments of the run starting at
/// `first`, with no view-window test: what a walk emits when everything is
/// visible.
pub open spec fn emit_upto_all(
    segs: Seq<Seg>,
    vertexes: Seq<Vertex>,
    first: int,
    n: int,
) -> Option<Seq<(Vertex, Vertex)>>
    decreases n,
{
    if n <= 0 {
        Some(Seq::empty())
    } else {
        match emit_upto_all(segs, vertexes, first, n - 1) {
            None => None,
            Some(s) => {
                let k = first + n - 1;
                if !(0 <= k < segs.len()) {
                    None
                } else if segs[k].start_vertex >= vertexes.len() || segs[k].end_vertex
                    >= vertexes.len() {
                    None
                } else {
                    Some(
                        s.push(
                            (
                                vertexes[segs[k].start_vertex as int],
                                vertexes[segs[k].end_vertex as int],
                            ),
                        ),
                    )
                }
            },
        }
    }
}

/// Every endpoint pair of leaf region `ssector_id`, in run order.
pub open spec fn emit_sub_sector_all(
    segs: Seq<Seg>,
    ssectors: Seq<SSector>,
    vertexes: Seq<Vertex>,
    ssector_id: int,
) -> Option<Seq<(Vertex, Vertex)>> {
    if 0 <= ssector_id < ssectors.len() {
        let ss = ssectors[ssector_id];
        emit_upto_all(segs, vertexes, ss.first_seg as int, ss.seg_count as int)
    } else {
        None
    }
}

/// The unclipped walk: what a walk from `node_ref` emits when every segment
/// of every visited leaf region is kept — each reachable leaf contributes
/// its whole run, near child before far child.
pub open spec fn walk_all(
    nodes: Seq<Node>,
    segs: Seq<Seg>,
    ssectors: Seq<SSector>,
    vertexes: Seq<Vertex>,
    px: int,
    py: int,
    node_ref: usize,
) -> Option<Seq<(Vertex, Vertex)>>
    decreases walk_measure(node_ref),
{
    if node_ref & 0x8000 != 0 {
        emit_sub_sector_all(segs, ssectors, vertexes, (node_ref & !0x8000) as int)
    } else if node_ref < nodes.len() {
        let node = nodes[node_ref as int];
        let near = if spec_on_left_side(px, py, node) {
            node.left_child
        } else {
            node.right_child
        };
        let far = if spec_on_left_side(px, py, node) {
            node.right_child
        } else {
            node.left_child
        };
        let c1 = near as usize;
        let c2 = far as usize;
        if c1 & 0x8000 == 0 && c1 >= node_ref {
            None
        } else {
            match walk_all(nodes, segs, ssectors, vertexes, px, py, c1) {
                None => None,
                Some(a) => {
                    if c2 & 0x8000 == 0 && c2 >= node_ref {
                        None
                    } else {
                        match walk_all(nodes, segs, ssectors, vertexes, px, py, c2) {
                            None => None,
                            Some(b) => Some(a + b),
                        }
                    }
                },
            }
        }
    } else {
        None
    }
}

proof fn lemma_emit_upto_fov_zero(
    segs: Seq<Seg>,
    vertexes: Seq<Vertex>,
    px: int,
    py: int,
    facing: int,
    first: int,
    n: int,
)
    ensures
        emit_upto(segs, vertexes, px, py, facing, 0, first, n) matches Some(s) ==> s.len() == 0,
    decreases n,
{
    if n > 0 {
        lemma_emit_upto_fov_zero(segs, vertexes, px, py, facing, first, n - 1);
    }
}

/// With an empty view window the walk emits nothing: whenever a walk with
/// field of view `0` succeeds, its output is the empty sequence.
pub proof fn lemma_walk_fov_zero_emits_nothing(
    nodes: Seq<Node>,
    segs: Seq<Seg>,
    ssectors: Seq<SSector>,
    vertexes: Seq<Vertex>,
    px: int,
    py: int,
    facing: int,
    node_ref: usize,
)
    ensures
        walk_spec(nodes, segs, ssectors, vertexes, px, py, facing, 0, node_ref) matches Some(s)
            ==> s.len() == 0,
    decreases walk_measure(node_ref),
{
    if node_ref & 0x8000 != 0 {
        let ss_id = (node_ref & !0x8000) as int;
        if 0 <= ss_id < ssectors.len() {
            let ss = ssectors[ss_id];
            lemma_emit_upto_fov_zero(
                segs,
                vertexes,
                px,
                py,
                facing,
                ss.first_seg as int,
                ss.seg_count as int,
            );
        }
    } else if node_ref < nodes.len() {
        let node = nodes[node_ref as int];
        let near = if spec_on_left_side(px, py, node) {
            node.left_child
        } else {
            node.right_child
        };
        let far = if spec_on_left_side(px, py, node) {
            node.right_child
        } else {
            node.left_child
        };
        let c1 = near as usize;
        let c2 = far as usize;
        if c1 & 0x8000 != 0 || c1 < node_ref {
            lemma_walk_fov_zero_emits_nothing(nodes, segs, ssectors, vertexes, px, py, facing, c1);
            if c2 & 0x8000 != 0 || c2 < node_ref {
                lemma_walk_fov_zero_emits_nothing(
                    nodes,
                    segs,
                    ssectors,
                    vertexes,
                    px,
                    py,
                    facing,
                    c2,
                );
            }
        }
    }
}

proof fn lemma_emit_upto_full_fov(
    segs: Seq<Seg>,
    vertexes: Seq<Vertex>,
    px: int,
    py: int,
    facing: int,
    fov: int,
    first: int,
    n: int,
)
    requires
        fov >= 360000,
    ensures
        emit_upto(segs, vertexes, px, py, facing, fov, first, n) == emit_upto_all(
            segs,
            vertexes,
            first,
            n,
        ),
    decreases n,
{
    if n > 0 {
        lemma_emit_upto_full_fov(segs, vertexes, px, py, facing, fov, first, n - 1);
        let k = first + n - 1;
        if 0 <= k < segs.len() && segs[k].start_vertex < vertexes.len() && segs[k].end_vertex
            < vertexes.len() {
            lemma_fov_full_sees_everything(
                px,
                py,
                facing,
                fov,
                vertexes[segs[k].start_vertex as int],
                vertexes[segs[k].end_vertex as int],
            );
        }
    }
}

/// With a full-turn view window the walk keeps every segment: a walk with a
/// field of view of a whole turn or more emits exactly the unclipped walk's
/// output — every segment of every reachable leaf region, whatever its
/// bearings, in visitation order.
pub proof fn lemma_walk_full_fov_emits_everything(
    nodes: Seq<Node>,
    segs: Seq<Seg>,
    ssectors: Seq<SSector>,
    vertexes: Seq<Vertex>,
    px: int,
    py: int,
    facing: int,
    fov: int,
    node_ref: usize,
)
    requires
        fov >= 360000,
    ensures
        walk_spec(nodes, segs, ssectors, vertexes, px, py, facing, fov, node_ref) == walk_all(
            nodes,
            segs,
            ssectors,
            vertexes,
            px,
            py,
            node_ref,
        ),
    decreases walk_measure(node_ref),
{
    if node_ref & 0x8000 != 0 {
        let ss_id = (node_ref & !0x8000) as int;
        if 0 <= ss_id < ssectors.len() {
            let ss = ssectors[ss_id];
            lemma_emit_upto_full_fov(
                segs,
                vertexes,
                px,
                py,
                facing,
                fov,
                ss.first_seg as int,
                ss.seg_count as int,
            );
        }
    } else if node_ref < nodes.len() {
        let node = nodes[node_ref as int];
        let near = if spec_on_left_side(px, py, node) {
            node.left_child
        } else {
            node.right_child
        };
        let far = if spec_on_left_side(px, py, node) {
            node.right_child
        } else {
            node.left_child
        };
        let c1 = near as usize;
        let c2 = far as usize;
        if c1 & 0x8000 != 0 || c1 < node_ref {
            lemma_walk_full_fov_emits_everything(
                nodes,
                segs,
                ssectors,
                vertexes,
                px,
                py,
                facing,
                fov,
                c1,
            );
            if c2 & 0x8000 != 0 || c2 < node_ref {
                lemma_walk_full_fov_emits_everything(
                    nodes,
                    segs,
                    ssectors,
                    vertexes,
                    px,
                    py,
                    facing,
                    fov,
                    c2,
                );
            }
        }
    }
}

} // verus!

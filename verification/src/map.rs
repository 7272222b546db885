//! The decoded geometry of one loaded map, read-only once built.

use vstd::prelude::*;

use crate::player::Player;
use crate::wad::linedef::LineDef;
use crate::wad::node::Node;
use crate::wad::thing::Thing;
use crate::wad::vertex::Vertex;
use vstd::string::StringExecFns;

verus! {

/// One step of the bounds scan: widen the running bounds by one vertex.
/// A vertex below the running minimum moves only the minimum, even when it
/// would also move the maximum; likewise for the y axis.
pub open spec fn shift_step(
    x_min: i16,
    x_max: i16,
    y_min: i16,
    y_max: i16,
    v: Vertex,
) -> (i16, i16, i16, i16) {
    let nx = if x_min > v.x {
        (v.x, x_max)
    } else if x_max < v.x {
        (x_min, v.x)
    } else {
        (x_min, x_max)
    };
    let ny = if y_min > v.y {
        (v.y, y_max)
    } else if y_max < v.y {
        (y_min, v.y)
    } else {
        (y_min, y_max)
    };
    (nx.0, nx.1, ny.0, ny.1)
}

/// The bounds after scanning the first `n` vertices, starting from the
/// given running bounds.
pub open spec fn shift_upto(
    vs: Seq<Vertex>,
    x_min: i16,
    x_max: i16,
    y_min: i16,
    y_max: i16,
    n: int,
) -> (i16, i16, i16, i16)
    decreases n,
{
    if n <= 0 {
        (x_min, x_max, y_min, y_max)
    } else {
        let acc = shift_upto(vs, x_min, x_max, y_min, y_max, n - 1);
        shift_step(acc.0, acc.1, acc.2, acc.3, vs[n - 1])
    }
}

/// The player after scanning the first `n` map objects: each object whose
/// type equals the player's id overwrites the player's position and facing,
/// so the last such object wins.
pub open spec fn player_upto(things: Seq<Thing>, p: Player, n: int) -> Player
    decreases n,
{
    if n <= 0 {
        p
    } else {
        let q = player_upto(things, p, n - 1);
        let t = things[n - 1];
        if t.typ == q.id {
            Player { id: q.id, x: t.x, y: t.y, direction: t.direction }
        } else {
            q
        }
    }
}

/// The geometry store of one loaded map: its name, the decoded collections,
/// the player found among its map objects, and the coordinate bounds of its
/// vertices.
#[derive(Debug)]
pub struct MapData {
    pub name: String,
    pub vertexes: Vec<Vertex>,
    pub line_defs: Vec<LineDef>,
    pub things: Vec<Thing>,
    pub nodes: Vec<Node>,
    pub player: Player,
    pub x_min: i16,
    pub x_max: i16,
    pub y_min: i16,
    pub y_max: i16,
}

impl MapData {
    /// Builds the store for one map: keeps the collections as decoded, scans
    /// the vertices for the coordinate bounds, and takes the player's
    /// position and facing from the last map object of the player's type.
    pub fn new(
        name: &str,
        vertexes: Vec<Vertex>,
        line_defs: Vec<LineDef>,
        things: Vec<Thing>,
        nodes: Vec<Node>,
        player: Player,
    ) -> (m: MapData)
        ensures
            m.name@ == name@,
            m.vertexes@ == vertexes@,
            m.line_defs@ == line_defs@,
            m.things@ == things@,
            m.nodes@ == nodes@,
            ({
                let acc = shift_upto(
                    vertexes@,
                    i16::MAX,
                    i16::MIN,
                    i16::MAX,
                    i16::MIN,
                    vertexes@.len() as int,
                );
                m.x_min == acc.0 && m.x_max == acc.1 && m.y_min == acc.2 && m.y_max == acc.3
            }),
            m.player == player_upto(things@, player, things@.len() as int),
    {
        let mut map = MapData {
            name: String::from_str(name),
            vertexes,
            line_defs,
            things,
            nodes,
            player,
            x_min: i16::MAX,
            x_max: i16::MIN,
            y_min: i16::MAX,
            y_max: i16::MIN,
        };
        map.calc_map_shift();
        map.calc_player_position();
        map
    }

    /// Widens the stored coordinate bounds by every vertex, in order (see
    /// [`shift_upto`]); everything else is unchanged.
    pub fn calc_map_shift(&mut self)
        ensures
            ({
                let acc = shift_upto(
                    old(self).vertexes@,
                    old(self).x_min,
                    old(self).x_max,
                    old(self).y_min,
                    old(self).y_max,
                    old(self).vertexes@.len() as int,
                );
                final(self).x_min == acc.0 && final(self).x_max == acc.1 && final(self).y_min
                    == acc.2 && final(self).y_max == acc.3
            }),
            final(self).name == old(self).name,
            final(self).vertexes == old(self).vertexes,
            final(self).line_defs == old(self).line_defs,
            final(self).things == old(self).things,
            final(self).nodes == old(self).nodes,
            final(self).player == old(self).player,
    {
        let n = self.vertexes.len();
        let mut i: usize = 0;
        while i < n
            invariant
                i <= n,
                n == self.vertexes@.len(),
                self.vertexes == old(self).vertexes,
                self.name == old(self).name,
                self.line_defs == old(self).line_defs,
                self.things == old(self).things,
                self.nodes == old(self).nodes,
                self.player == old(self).player,
                (self.x_min, self.x_max, self.y_min, self.y_max) == shift_upto(
                    old(self).vertexes@,
                    old(self).x_min,
                    old(self).x_max,
                    old(self).y_min,
                    old(self).y_max,
                    i as int,
                ),
            decreases n - i,
        {
            let v = self.vertexes[i];
            if self.x_min > v.x {
                self.x_min = v.x;
            } else if self.x_max < v.x {
                self.x_max = v.x;
            }
            if self.y_min > v.y {
                self.y_min = v.y;
            } else if self.y_max < v.y {
                self.y_max = v.y;
            }
            i = i + 1;
        }
    }

    /// Takes the player's position and facing from the last map object whose
    /// type equals the player's id (see [`player_upto`]); everything else is
    /// unchanged.
    pub fn calc_player_position(&mut self)
        ensures
            final(self).player == player_upto(
                old(self).things@,
                old(self).player,
                old(self).things@.len() as int,
            ),
            final(self).name == old(self).name,
            final(self).vertexes == old(self).vertexes,
            final(self).line_defs == old(self).line_defs,
            final(self).things == old(self).things,
            final(self).nodes == old(self).nodes,
            final(self).x_min == old(self).x_min,
            final(self).x_max == old(self).x_max,
            final(self).y_min == old(self).y_min,
            final(self).y_max == old(self).y_max,
    {
        let n = self.things.len();
        let mut i: usize = 0;
        while i < n
            invariant
                i <= n,
                n == self.things@.len(),
                self.things == old(self).things,
                self.name == old(self).name,
                self.vertexes == old(self).vertexes,
                self.line_defs == old(self).line_defs,
                self.nodes == old(self).nodes,
                self.x_min == old(self).x_min,
                self.x_max == old(self).x_max,
                self.y_min == old(self).y_min,
                self.y_max == old(self).y_max,
                self.player == player_upto(old(self).things@, old(self).player, i as int),
            decreases n - i,
        {
            let t = self.things[i];
            if t.typ == self.player.id {
                self.player.x = t.x;
                self.player.y = t.y;
                self.player.direction = t.direction;
            }
            i = i + 1;
        }
    }
}

} // verus!

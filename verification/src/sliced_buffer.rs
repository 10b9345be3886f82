//! The tiled framebuffer: fixed-size square tiles owning disjoint color
//! and depth storage, conservative AABB binning of triangles into tiles,
//! per-tile shading, and assembly of the flat output image.

use vstd::prelude::*;

use crate::fragment::{spec_apply_frag, spec_opt_tex, spec_tex_opt_wf};
use crate::fx::{ediv_nonneg, emod_i64, FX_ONE};
use crate::material::Material;
use crate::render_mode::RenderMode;
use crate::texture::Texture;
use crate::triangle::Triangle;

verus! {

/// The clamped extent of a tile starting at `pos`: full `size` unless the
/// surface ends first.
pub open spec fn spec_tile_extent(pos: int, size: int, dim: int) -> int {
    if pos + size >= dim {
        dim - pos
    } else {
        size
    }
}

/// One tile: its top-left pixel, clamped pixel size, grid coordinates,
/// its own color and depth storage, and the triangle indices binned to it
/// this frame.
pub struct Tile {
    pub pos_x: i64,
    pub pos_y: i64,
    pub size_x: i64,
    pub size_y: i64,
    pub idx_x: i64,
    pub idx_y: i64,
    pub depth_data: Vec<i64>,
    pub color_data: Vec<u32>,
    pub tri_idx: Vec<u32>,
}

/// A tile's geometry at grid cell `(kx, ky)` of a surface `w` by `h`
/// with tile edge `ts`, with buffers sized to its pixel area.
pub open spec fn spec_tile_ok(t: Tile, kx: int, ky: int, ts: int, w: int, h: int) -> bool {
    &&& t.idx_x == kx
    &&& t.idx_y == ky
    &&& t.pos_x == kx * ts
    &&& t.pos_y == ky * ts
    &&& t.size_x == spec_tile_extent(kx * ts, ts, w)
    &&& t.size_y == spec_tile_extent(ky * ts, ts, h)
    &&& 1 <= t.size_x
    &&& 1 <= t.size_y
    &&& t.pos_x + t.size_x <= w
    &&& t.pos_y + t.size_y <= h
    &&& 0 <= t.pos_x
    &&& 0 <= t.pos_y
    &&& t.color_data@.len() == t.size_x * t.size_y
    &&& t.depth_data@.len() == t.size_x * t.size_y
}

/// A vector of `n` copies of a color value.
fn filled_u32(n: usize, val: u32) -> (r: Vec<u32>)
    ensures
        r@.len() == n,
        forall|i: int| 0 <= i < n ==> r@[i] == val,
{
    let mut r: Vec<u32> = Vec::new();
    let mut i: usize = 0;
    while i < n
        invariant
            0 <= i <= n,
            r@.len() == i,
            forall|j: int| 0 <= j < i ==> r@[j] == val,
        decreases n - i,
    {
        r.push(val);
        i = i + 1;
    }
    r
}

/// A vector of `n` copies of a depth value.
fn filled_i64(n: usize, val: i64) -> (r: Vec<i64>)
    ensures
        r@.len() == n,
        forall|i: int| 0 <= i < n ==> r@[i] == val,
{
    let mut r: Vec<i64> = Vec::new();
    let mut i: usize = 0;
    while i < n
        invariant
            0 <= i <= n,
            r@.len() == i,
            forall|j: int| 0 <= j < i ==> r@[j] == val,
        decreases n - i,
    {
        r.push(val);
        i = i + 1;
    }
    r
}

impl Tile {
    /// A tile at the given position and grid cell, its size clamped to
    /// the surface and its buffers zeroed.
    fn new(
        pos_x: i64,
        pos_y: i64,
        size: i64,
        idx_x: i64,
        idx_y: i64,
        buff_width: u32,
        buff_height: u32,
    ) -> (r: Tile)
        requires
            pos_x == idx_x * size,
            pos_y == idx_y * size,
            0 <= pos_x < buff_width,
            0 <= pos_y < buff_height,
            1 <= size <= 4096,
            buff_width <= 4096,
            buff_height <= 4096,
        ensures
            spec_tile_ok(
                r,
                idx_x as int,
                idx_y as int,
                size as int,
                buff_width as int,
                buff_height as int,
            ),
            r.tri_idx@.len() == 0,
            forall|i: int| 0 <= i < r.color_data@.len() ==> r.color_data@[i] == 0u32,
            forall|i: int| 0 <= i < r.depth_data@.len() ==> r.depth_data@[i] == 0i64,
    {
        let mut size_x: i64 = size;
        let mut size_y: i64 = size;
        if pos_x + size_x >= buff_width as i64 {
            size_x = buff_width as i64 - pos_x;
        }
        if pos_y + size_y >= buff_height as i64 {
            size_y = buff_height as i64 - pos_y;
        }
        proof {
            assert(0 <= size_x * size_y && size_x * size_y <= 0x1000000) by (nonlinear_arith)
                requires
                    1 <= size_x <= 4096,
                    1 <= size_y <= 4096,
            ;
        }
        let area: usize = (size_x * size_y) as usize;
        Tile {
            pos_x,
            pos_y,
            size_x,
            size_y,
            idx_x,
            idx_y,
            color_data: filled_u32(area, 0),
            depth_data: filled_i64(area, 0),
            tri_idx: Vec::new(),
        }
    }

    /// Fill the tile's color storage with one value.
    pub fn clear_buffers_color(&mut self, val: u32)
        ensures
            final(self).color_data@.len() == old(self).color_data@.len(),
            forall|i: int|
                0 <= i < final(self).color_data@.len() ==> final(self).color_data@[i] == val,
            final(self).depth_data == old(self).depth_data,
            final(self).tri_idx == old(self).tri_idx,
            final(self).pos_x == old(self).pos_x && final(self).pos_y == old(self).pos_y,
            final(self).size_x == old(self).size_x && final(self).size_y == old(self).size_y,
            final(self).idx_x == old(self).idx_x && final(self).idx_y == old(self).idx_y,
    {
        let n: usize = self.color_data.len();
        self.color_data = filled_u32(n, val);
    }

    /// Fill the tile's depth storage with one value (typically the
    /// largest depth, standing for "no surface seen").
    pub fn clear_buffers_depth(&mut self, val: i64)
        ensures
            final(self).depth_data@.len() == old(self).depth_data@.len(),
            forall|i: int|
                0 <= i < final(self).depth_data@.len() ==> final(self).depth_data@[i] == val,
            final(self).color_data == old(self).color_data,
            final(self).tri_idx == old(self).tri_idx,
            final(self).pos_x == old(self).pos_x && final(self).pos_y == old(self).pos_y,
            final(self).size_x == old(self).size_x && final(self).size_y == old(self).size_y,
            final(self).idx_x == old(self).idx_x && final(self).idx_y == old(self).idx_y,
    {
        let n: usize = self.depth_data.len();
        self.depth_data = filled_i64(n, val);
    }
}

/// A tile after binning: the index pushed onto its bin exactly when the
/// triangle's box reaches the tile, everything else untouched.
pub open spec fn spec_tile_binned(t_old: Tile, t_new: Tile, hit: bool, i: u32) -> bool {
    &&& t_new.tri_idx@ == if hit {
        t_old.tri_idx@.push(i)
    } else {
        t_old.tri_idx@
    }
    &&& t_new.pos_x == t_old.pos_x
    &&& t_new.pos_y == t_old.pos_y
    &&& t_new.size_x == t_old.size_x
    &&& t_new.size_y == t_old.size_y
    &&& t_new.idx_x == t_old.idx_x
    &&& t_new.idx_y == t_old.idx_y
    &&& t_new.color_data == t_old.color_data
    &&& t_new.depth_data == t_old.depth_data
}

/// Whether a triangle's bounding box reaches grid cell `(kx, ky)` at the
/// binning granularity: tile-sized buckets of the box corners, a
/// conservative approximation of geometric overlap.
pub open spec fn spec_hits_tile(tri: Triangle, ts: int, kx: int, ky: int) -> bool {
    match tri.aabb {
        Some(bb) => {
            &&& (bb.min.x as int / 65536) / ts <= kx
            &&& kx <= (bb.max.x as int / 65536) / ts
            &&& (bb.min.y as int / 65536) / ts <= ky
            &&& ky <= (bb.max.y as int / 65536) / ts
        },
        None => false,
    }
}

/// The triangle indices out of `tris[..n]` binned to grid cell
/// `(kx, ky)`, in submission order.
pub open spec fn spec_bin(tris: Seq<Triangle>, ts: int, kx: int, ky: int, n: int) -> Seq<u32>
    decreases n,
{
    if n <= 0 {
        Seq::empty()
    } else {
        let pre = spec_bin(tris, ts, kx, ky, n - 1);
        if spec_hits_tile(tris[n - 1], ts, kx, ky) {
            pre.push((n - 1) as u32)
        } else {
            pre
        }
    }
}

/// Tile binning completeness: a triangle index is in a cell's bin exactly
/// when the cell lies in the inclusive rectangle of its bounding box's
/// tile buckets — no cell of that rectangle is skipped and no cell
/// outside it is ever included.
pub proof fn lemma_binning_complete(tris: Seq<Triangle>, ts: int, kx: int, ky: int, n: int, i: int)
    requires
        0 <= i < n <= tris.len(),
        n <= 0x100000000,
    ensures
        spec_bin(tris, ts, kx, ky, n).contains(i as u32) <==> spec_hits_tile(tris[i], ts, kx, ky),
    decreases n,
{
    let pre = spec_bin(tris, ts, kx, ky, n - 1);
    let cur = spec_bin(tris, ts, kx, ky, n);
    lemma_bin_members(tris, ts, kx, ky, n - 1);
    if i == n - 1 {
        if spec_hits_tile(tris[i], ts, kx, ky) {
            assert(cur[cur.len() - 1] == i as u32);
            assert(cur.contains(i as u32));
        } else {
            if cur.contains(i as u32) {
                let j = choose|j: int| 0 <= j < cur.len() && #[trigger] cur[j] == i as u32;
                assert(pre[j] < n - 1);
                assert(false);
            }
        }
    } else {
        lemma_binning_complete(tris, ts, kx, ky, n - 1, i);
        if spec_hits_tile(tris[i], ts, kx, ky) {
            let j = choose|j: int| 0 <= j < pre.len() && #[trigger] pre[j] == i as u32;
            assert(cur[j] == i as u32);
            assert(cur.contains(i as u32));
        } else {
            if cur.contains(i as u32) {
                let j = choose|j: int| 0 <= j < cur.len() && #[trigger] cur[j] == i as u32;
                if spec_hits_tile(tris[n - 1], ts, kx, ky) {
                    if j < pre.len() {
                        assert(pre[j] == i as u32);
                        assert(pre.contains(i as u32));
                    } else {
                        assert(cur[j] == (n - 1) as u32);
                        assert(false);
                    }
                } else {
                    assert(pre.contains(i as u32));
                }
                assert(false);
            }
        }
    }
}

/// A tile grid has `ceil(dim / ts)` cells along a dimension, every cell
/// start lies inside the surface, and the last cell's start is the floor
/// bucket of the last pixel.
pub proof fn lemma_grid_count(w: int, ts: int)
    requires
        1 <= w,
        1 <= ts,
    ensures
        (w + ts - 1) / ts == (w - 1) / ts + 1,
        1 <= (w + ts - 1) / ts <= w,
        forall|x: int| 0 <= x < (w + ts - 1) / ts ==> #[trigger] (x * ts) < w,
{
    vstd::arithmetic::div_mod::lemma_div_plus_one(w - 1, ts);
    assert(w + ts - 1 <= w * ts) by (nonlinear_arith)
        requires
            1 <= w,
            1 <= ts,
    ;
    vstd::arithmetic::div_mod::lemma_div_is_ordered(w + ts - 1, w * ts, ts);
    vstd::arithmetic::div_mod::lemma_div_multiples_vanish(w, ts);
    vstd::arithmetic::div_mod::lemma_div_pos_is_pos(w - 1, ts);
    let q = (w - 1) / ts;
    vstd::arithmetic::div_mod::lemma_fundamental_div_mod(w - 1, ts);
    assert forall|x: int| 0 <= x < (w + ts - 1) / ts implies #[trigger] (x * ts) < w by {
        assert(x * ts <= q * ts) by (nonlinear_arith)
            requires
                x <= q,
                ts >= 1,
        ;
        assert(q * ts <= w - 1) by (nonlinear_arith)
            requires
                w - 1 == ts * q + (w - 1) % ts,
                (w - 1) % ts >= 0,
        ;
    }
}

/// The whole frame-level aggregate: all tiles, the flat list of
/// screen-space triangles submitted this frame, the tile-grid dimensions
/// and the surface dimensions.
pub struct SlicedBuffers {
    pub tiles: Vec<Tile>,
    pub triangles: Vec<Triangle>,
    pub amount_of_tiles_x: i64,
    pub amount_of_tiles_y: i64,
    pub size_of_tiles: i64,
    pub buff_width: u32,
    pub buff_height: u32,
}

impl SlicedBuffers {
    /// The structural invariant: grid dimensions are the ceilings of the
    /// surface over the tile edge, and every tile sits at its grid cell
    /// with correctly sized buffers.
    pub open spec fn wf(self) -> bool {
        &&& 1 <= self.buff_width <= 4096
        &&& 1 <= self.buff_height <= 4096
        &&& 1 <= self.size_of_tiles <= 4096
        &&& self.amount_of_tiles_x == (self.buff_width as int + self.size_of_tiles as int - 1)
            / self.size_of_tiles as int
        &&& self.amount_of_tiles_y == (self.buff_height as int + self.size_of_tiles as int - 1)
            / self.size_of_tiles as int
        &&& self.tiles@.len() == self.amount_of_tiles_x as int * self.amount_of_tiles_y as int
        &&& forall|k: int|
            0 <= k < self.tiles@.len() ==> spec_tile_ok(
                #[trigger] self.tiles@[k],
                k % self.amount_of_tiles_x as int,
                k / self.amount_of_tiles_x as int,
                self.size_of_tiles as int,
                self.buff_width as int,
                self.buff_height as int,
            )
    }

    /// Construct the tile grid for a surface: `ceil(width / tile)` by
    /// `ceil(height / tile)` tiles in row-major order, edge tiles clamped.
    pub fn from_buffers(buff_width: u32, buff_height: u32, size_of_tile: i64) -> (r: Self)
        requires
            1 <= buff_width <= 4096,
            1 <= buff_height <= 4096,
            1 <= size_of_tile <= 4096,
        ensures
            r.wf(),
            r.buff_width == buff_width,
            r.buff_height == buff_height,
            r.size_of_tiles == size_of_tile,
            r.triangles@.len() == 0,
            forall|k: int| 0 <= k < r.tiles@.len() ==> #[trigger] r.tiles@[k].tri_idx@.len() == 0,
    {
        proof {
            lemma_grid_count(buff_width as int, size_of_tile as int);
            lemma_grid_count(buff_height as int, size_of_tile as int);
        }
        let ax: i64 = ediv_nonneg(buff_width as i64 + size_of_tile - 1, size_of_tile);
        let ay: i64 = ediv_nonneg(buff_height as i64 + size_of_tile - 1, size_of_tile);
        let mut tiles: Vec<Tile> = Vec::new();
        let mut y: i64 = 0;
        while y < ay
            invariant
                0 <= y <= ay,
                1 <= buff_width <= 4096,
                1 <= buff_height <= 4096,
                1 <= size_of_tile <= 4096,
                ax as int == (buff_width as int + size_of_tile as int - 1) / size_of_tile as int,
                ay as int == (buff_height as int + size_of_tile as int - 1) / size_of_tile as int,
                1 <= ax && 1 <= ay,
                ax <= 4096 && ay <= 4096,
                forall|x: int| 0 <= x < ax ==> #[trigger] (x * size_of_tile as int) < buff_width,
                forall|x: int| 0 <= x < ay ==> #[trigger] (x * size_of_tile as int) < buff_height,
                tiles@.len() == y * ax,
                forall|k: int|
                    0 <= k < tiles@.len() ==> spec_tile_ok(
                        #[trigger] tiles@[k],
                        k % ax as int,
                        k / ax as int,
                        size_of_tile as int,
                        buff_width as int,
                        buff_height as int,
                    ) && tiles@[k].tri_idx@.len() == 0,
            decreases ay - y,
        {
            let mut x: i64 = 0;
            while x < ax
                invariant
                    0 <= y < ay,
                    0 <= x <= ax,
                    1 <= buff_width <= 4096,
                    1 <= buff_height <= 4096,
                    1 <= size_of_tile <= 4096,
                    ax as int == (buff_width as int + size_of_tile as int - 1)
                        / size_of_tile as int,
                    ay as int == (buff_height as int + size_of_tile as int - 1)
                        / size_of_tile as int,
                    1 <= ax && 1 <= ay,
                    ax <= 4096 && ay <= 4096,
                    forall|j: int|
                        0 <= j < ax ==> #[trigger] (j * size_of_tile as int) < buff_width,
                    forall|j: int|
                        0 <= j < ay ==> #[trigger] (j * size_of_tile as int) < buff_height,
                    tiles@.len() == y * ax + x,
                    forall|k: int|
                        0 <= k < tiles@.len() ==> spec_tile_ok(
                            #[trigger] tiles@[k],
                            k % ax as int,
                            k / ax as int,
                            size_of_tile as int,
                            buff_width as int,
                            buff_height as int,
                        ) && tiles@[k].tri_idx@.len() == 0,
                decreases ax - x,
            {
                proof {
                    assert(0 <= y * ax + x && y * ax + x < 0x10000000 && x * size_of_tile
                        < 0x10000000 && y * size_of_tile < 0x10000000) by (nonlinear_arith)
                        requires
                            0 <= x < ax <= 4096,
                            0 <= y < ay <= 4096,
                            1 <= size_of_tile <= 4096,
                    ;
                    vstd::arithmetic::div_mod::lemma_fundamental_div_mod_converse(
                        y as int * ax as int + x as int,
                        ax as int,
                        y as int,
                        x as int,
                    );
                }
                let new_tile: Tile = Tile::new(
                    x * size_of_tile,
                    y * size_of_tile,
                    size_of_tile,
                    x,
                    y,
                    buff_width,
                    buff_height,
                );
                tiles.push(new_tile);
                x = x + 1;
            }
            proof {
                assert((y as int + 1) * ax as int == y as int * ax as int + ax as int)
                    by (nonlinear_arith);
            }
            y = y + 1;
        }
        proof {
            assert(ax as int * ay as int == ay as int * ax as int) by (nonlinear_arith);
        }
        SlicedBuffers {
            tiles,
            triangles: Vec::new(),
            amount_of_tiles_x: ax,
            amount_of_tiles_y: ay,
            size_of_tiles: size_of_tile,
            buff_width,
            buff_height,
        }
    }

    /// Reset every tile's depth storage to a fill value.
    pub fn clear_depth(&mut self, val: i64)
        requires
            old(self).wf(),
        ensures
            final(self).wf(),
            final(self).tiles@.len() == old(self).tiles@.len(),
            forall|k: int|
                0 <= k < final(self).tiles@.len() ==> {
                    &&& (#[trigger] final(self).tiles@[k]).depth_data@.len() == old(self).tiles@[k].depth_data@.len()
                    &&& forall|i: int|
                        0 <= i < final(self).tiles@[k].depth_data@.len() ==> final(self).tiles@[k].depth_data@[i] == val
                    &&& final(self).tiles@[k].color_data == old(self).tiles@[k].color_data
                    &&& final(self).tiles@[k].tri_idx == old(self).tiles@[k].tri_idx
                },
            final(self).triangles == old(self).triangles,
            final(self).amount_of_tiles_x == old(self).amount_of_tiles_x,
            final(self).amount_of_tiles_y == old(self).amount_of_tiles_y,
            final(self).size_of_tiles == old(self).size_of_tiles,
            final(self).buff_width == old(self).buff_width,
            final(self).buff_height == old(self).buff_height,
    {
        let n: usize = self.tiles.len();
        let mut k: usize = 0;
        while k < n
            invariant
                0 <= k <= n,
                n == self.tiles@.len(),
                self.tiles@.len() == old(self).tiles@.len(),
                forall|j: int|
                    k <= j < n ==> #[trigger] self.tiles@[j] == old(self).tiles@[j],
                forall|j: int|
                    0 <= j < k ==> {
                        &&& (#[trigger] self.tiles@[j]).depth_data@.len() == old(self).tiles@[j].depth_data@.len()
                        &&& forall|i: int|
                            0 <= i < self.tiles@[j].depth_data@.len()
                                ==> self.tiles@[j].depth_data@[i] == val
                        &&& self.tiles@[j].color_data == old(self).tiles@[j].color_data
                        &&& self.tiles@[j].tri_idx == old(self).tiles@[j].tri_idx
                        &&& self.tiles@[j].pos_x == old(self).tiles@[j].pos_x
                        &&& self.tiles@[j].pos_y == old(self).tiles@[j].pos_y
                        &&& self.tiles@[j].size_x == old(self).tiles@[j].size_x
                        &&& self.tiles@[j].size_y == old(self).tiles@[j].size_y
                        &&& self.tiles@[j].idx_x == old(self).tiles@[j].idx_x
                        &&& self.tiles@[j].idx_y == old(self).tiles@[j].idx_y
                    },
                self.triangles == old(self).triangles,
                self.amount_of_tiles_x == old(self).amount_of_tiles_x,
                self.amount_of_tiles_y == old(self).amount_of_tiles_y,
                self.size_of_tiles == old(self).size_of_tiles,
                self.buff_width == old(self).buff_width,
                self.buff_height == old(self).buff_height,
            decreases n - k,
        {
            self.tiles[k].clear_buffers_depth(val);
            k = k + 1;
        }
        proof {
            assert forall|k2: int| 0 <= k2 < self.tiles@.len() implies spec_tile_ok(
                #[trigger] self.tiles@[k2],
                k2 % self.amount_of_tiles_x as int,
                k2 / self.amount_of_tiles_x as int,
                self.size_of_tiles as int,
                self.buff_width as int,
                self.buff_height as int,
            ) by {
                assert(spec_tile_ok(
                    old(self).tiles@[k2],
                    k2 % self.amount_of_tiles_x as int,
                    k2 / self.amount_of_tiles_x as int,
                    self.size_of_tiles as int,
                    self.buff_width as int,
                    self.buff_height as int,
                ));
            }
        }
    }

    /// Reset every tile's color storage to a fill value.
    pub fn clear_color(&mut self, val: u32)
        requires
            old(self).wf(),
        ensures
            final(self).wf(),
            final(self).tiles@.len() == old(self).tiles@.len(),
            forall|k: int|
                0 <= k < final(self).tiles@.len() ==> {
                    &&& (#[trigger] final(self).tiles@[k]).color_data@.len() == old(self).tiles@[k].color_data@.len()
                    &&& forall|i: int|
                        0 <= i < final(self).tiles@[k].color_data@.len() ==> final(self).tiles@[k].color_data@[i] == val
                    &&& final(self).tiles@[k].depth_data == old(self).tiles@[k].depth_data
                    &&& final(self).tiles@[k].tri_idx == old(self).tiles@[k].tri_idx
                },
            final(self).triangles == old(self).triangles,
            final(self).amount_of_tiles_x == old(self).amount_of_tiles_x,
            final(self).amount_of_tiles_y == old(self).amount_of_tiles_y,
            final(self).size_of_tiles == old(self).size_of_tiles,
            final(self).buff_width == old(self).buff_width,
            final(self).buff_height == old(self).buff_height,
    {
        let n: usize = self.tiles.len();
        let mut k: usize = 0;
        while k < n
            invariant
                0 <= k <= n,
                n == self.tiles@.len(),
                self.tiles@.len() == old(self).tiles@.len(),
                forall|j: int|
                    k <= j < n ==> #[trigger] self.tiles@[j] == old(self).tiles@[j],
                forall|j: int|
                    0 <= j < k ==> {
                        &&& (#[trigger] self.tiles@[j]).color_data@.len() == old(self).tiles@[j].color_data@.len()
                        &&& forall|i: int|
                            0 <= i < self.tiles@[j].color_data@.len()
                                ==> self.tiles@[j].color_data@[i] == val
                        &&& self.tiles@[j].depth_data == old(self).tiles@[j].depth_data
                        &&& self.tiles@[j].tri_idx == old(self).tiles@[j].tri_idx
                        &&& self.tiles@[j].pos_x == old(self).tiles@[j].pos_x
                        &&& self.tiles@[j].pos_y == old(self).tiles@[j].pos_y
                        &&& self.tiles@[j].size_x == old(self).tiles@[j].size_x
                        &&& self.tiles@[j].size_y == old(self).tiles@[j].size_y
                        &&& self.tiles@[j].idx_x == old(self).tiles@[j].idx_x
                        &&& self.tiles@[j].idx_y == old(self).tiles@[j].idx_y
                    },
                self.triangles == old(self).triangles,
                self.amount_of_tiles_x == old(self).amount_of_tiles_x,
                self.amount_of_tiles_y == old(self).amount_of_tiles_y,
                self.size_of_tiles == old(self).size_of_tiles,
                self.buff_width == old(self).buff_width,
                self.buff_height == old(self).buff_height,
            decreases n - k,
        {
            self.tiles[k].clear_buffers_color(val);
            k = k + 1;
        }
        proof {
            assert forall|k2: int| 0 <= k2 < self.tiles@.len() implies spec_tile_ok(
                #[trigger] self.tiles@[k2],
                k2 % self.amount_of_tiles_x as int,
                k2 / self.amount_of_tiles_x as int,
                self.size_of_tiles as int,
                self.buff_width as int,
                self.buff_height as int,
            ) by {
                assert(spec_tile_ok(
                    old(self).tiles@[k2],
                    k2 % self.amount_of_tiles_x as int,
                    k2 / self.amount_of_tiles_x as int,
                    self.size_of_tiles as int,
                    self.buff_width as int,
                    self.buff_height as int,
                ));
            }
        }
    }

    /// Append one triangle's index to the bin of every grid cell its
    /// bounding box reaches.
    fn bin_triangle(&mut self, tri: Triangle, i: u32)
        requires
            old(self).wf(),
            tri.aabb_wf(old(self).buff_width as int, old(self).buff_height as int),
        ensures
            final(self).wf(),
            final(self).tiles@.len() == old(self).tiles@.len(),
            forall|k: int|
                0 <= k < final(self).tiles@.len() ==> spec_tile_binned(
                    old(self).tiles@[k],
                    #[trigger] final(self).tiles@[k],
                    spec_hits_tile(
                        tri,
                        old(self).size_of_tiles as int,
                        k % old(self).amount_of_tiles_x as int,
                        k / old(self).amount_of_tiles_x as int,
                    ),
                    i,
                ),
            final(self).triangles == old(self).triangles,
            final(self).amount_of_tiles_x == old(self).amount_of_tiles_x,
            final(self).amount_of_tiles_y == old(self).amount_of_tiles_y,
            final(self).size_of_tiles == old(self).size_of_tiles,
            final(self).buff_width == old(self).buff_width,
            final(self).buff_height == old(self).buff_height,
    {
        let ghost ts: int = self.size_of_tiles as int;
        let ghost ax: int = self.amount_of_tiles_x as int;
        let ghost ay: int = self.amount_of_tiles_y as int;
        proof {
            lemma_grid_count(self.buff_width as int, ts);
            lemma_grid_count(self.buff_height as int, ts);
        }
        let bb: crate::triangle::Aabb = tri.aabb.unwrap();
        let mnx: i64 = ediv_nonneg(ediv_nonneg(bb.min.x, FX_ONE), self.size_of_tiles);
        let mny: i64 = ediv_nonneg(ediv_nonneg(bb.min.y, FX_ONE), self.size_of_tiles);
        let mxx: i64 = crate::fx::ediv_i64(
            crate::fx::ediv_i64(bb.max.x, FX_ONE),
            self.size_of_tiles,
        );
        let mxy: i64 = crate::fx::ediv_i64(
            crate::fx::ediv_i64(bb.max.y, FX_ONE),
            self.size_of_tiles,
        );
        proof {
            vstd::arithmetic::div_mod::lemma_div_is_ordered(
                bb.max.x as int,
                (self.buff_width as int - 1) * 65536,
                65536,
            );
            vstd::arithmetic::div_mod::lemma_div_multiples_vanish(
                self.buff_width as int - 1,
                65536,
            );
            vstd::arithmetic::div_mod::lemma_div_is_ordered(
                bb.max.x as int / 65536,
                self.buff_width as int - 1,
                ts,
            );
            vstd::arithmetic::div_mod::lemma_div_is_ordered(
                bb.max.y as int,
                (self.buff_height as int - 1) * 65536,
                65536,
            );
            vstd::arithmetic::div_mod::lemma_div_multiples_vanish(
                self.buff_height as int - 1,
                65536,
            );
            vstd::arithmetic::div_mod::lemma_div_is_ordered(
                bb.max.y as int / 65536,
                self.buff_height as int - 1,
                ts,
            );
        }
        if mxx < mnx || mxy < mny {
            return ;
        }
        let mut x: i64 = mnx;
        while x <= mxx
            invariant
                self.wf(),
                mnx <= x,
                x <= mxx + 1,
                0 <= mnx,
                0 <= mny,
                mny <= mxy,
                mxx < self.amount_of_tiles_x,
                mxy < self.amount_of_tiles_y,
                self.amount_of_tiles_x <= 4096,
                self.amount_of_tiles_y <= 4096,
                ts == self.size_of_tiles as int,
                ax == self.amount_of_tiles_x as int,
                ay == self.amount_of_tiles_y as int,
                mnx as int == (bb.min.x as int / 65536) / ts,
                mny as int == (bb.min.y as int / 65536) / ts,
                mxx as int == (bb.max.x as int / 65536) / ts,
                mxy as int == (bb.max.y as int / 65536) / ts,
                self.tiles@.len() == old(self).tiles@.len(),
                forall|k: int|
                    0 <= k < self.tiles@.len() ==> spec_tile_binned(
                        old(self).tiles@[k],
                        #[trigger] self.tiles@[k],
                        spec_hits_tile(tri, ts, k % ax, k / ax) && k % ax < x,
                        i,
                    ),
                self.triangles == old(self).triangles,
                self.amount_of_tiles_x == old(self).amount_of_tiles_x,
                self.amount_of_tiles_y == old(self).amount_of_tiles_y,
                self.size_of_tiles == old(self).size_of_tiles,
                self.buff_width == old(self).buff_width,
                self.buff_height == old(self).buff_height,
                tri.aabb == Some(bb),
            decreases mxx + 1 - x,
        {
            let mut y: i64 = mny;
            while y <= mxy
                invariant
                    self.wf(),
                    mnx <= x <= mxx,
                    mny <= y,
                    y <= mxy + 1,
                    0 <= mnx,
                    0 <= mny,
                    mxx < self.amount_of_tiles_x,
                    mxy < self.amount_of_tiles_y,
                    self.amount_of_tiles_x <= 4096,
                    self.amount_of_tiles_y <= 4096,
                    ts == self.size_of_tiles as int,
                    ax == self.amount_of_tiles_x as int,
                    ay == self.amount_of_tiles_y as int,
                    mnx as int == (bb.min.x as int / 65536) / ts,
                    mny as int == (bb.min.y as int / 65536) / ts,
                    mxx as int == (bb.max.x as int / 65536) / ts,
                    mxy as int == (bb.max.y as int / 65536) / ts,
                    self.tiles@.len() == old(self).tiles@.len(),
                    forall|k: int|
                        0 <= k < self.tiles@.len() ==> spec_tile_binned(
                            old(self).tiles@[k],
                            #[trigger] self.tiles@[k],
                            spec_hits_tile(tri, ts, k % ax, k / ax) && (k % ax < x || (k % ax == x
                                && k / ax < y)),
                            i,
                        ),
                    self.triangles == old(self).triangles,
                    self.amount_of_tiles_x == old(self).amount_of_tiles_x,
                    self.amount_of_tiles_y == old(self).amount_of_tiles_y,
                    self.size_of_tiles == old(self).size_of_tiles,
                    self.buff_width == old(self).buff_width,
                    self.buff_height == old(self).buff_height,
                    tri.aabb == Some(bb),
                decreases mxy + 1 - y,
            {
                proof {
                    assert(0 <= x + y * ax && x + y * ax < ax * ay && y * ax <= 0x10000000)
                        by (nonlinear_arith)
                        requires
                            0 <= x < ax <= 4096,
                            0 <= y < ay <= 4096,
                    ;
                    vstd::arithmetic::div_mod::lemma_fundamental_div_mod_converse(
                        x as int + y as int * ax,
                        ax,
                        y as int,
                        x as int,
                    );
                }
                let idx: usize = (x + y * self.amount_of_tiles_x) as usize;
                let ghost pre_tiles: Seq<Tile> = self.tiles@;
                self.tiles[idx].tri_idx.push(i);
                proof {
                    assert forall|k: int|
                        0 <= k < self.tiles@.len() implies spec_tile_binned(
                        old(self).tiles@[k],
                        #[trigger] self.tiles@[k],
                        spec_hits_tile(tri, ts, k % ax, k / ax) && (k % ax < x || (k % ax == x
                            && k / ax < y + 1)),
                        i,
                    ) by {
                        vstd::arithmetic::div_mod::lemma_fundamental_div_mod(k, ax);
                        if k == idx as int {
                            assert(spec_hits_tile(tri, ts, k % ax, k / ax));
                            assert(self.tiles@[k].tri_idx@ == pre_tiles[k].tri_idx@.push(i));
                        } else {
                            if k % ax == x as int && k / ax == y as int {
                                assert(k == x as int + y as int * ax) by (nonlinear_arith)
                                    requires
                                        k == ax * (k / ax) + k % ax,
                                        k / ax == y as int,
                                        k % ax == x as int,
                                ;
                                assert(false);
                            }
                            assert(self.tiles@[k] == pre_tiles[k]);
                        }
                    }
                }
                y = y + 1;
            }
            x = x + 1;
        }
    }

    /// Bin every submitted triangle: append each triangle's index to all
    /// tiles whose area its bounding box overlaps at tile granularity.
    pub fn aa_bb_comparison(&mut self)
        requires
            old(self).wf(),
            old(self).triangles@.len() <= 0xffffffff,
            forall|j: int|
                0 <= j < old(self).triangles@.len() ==> (#[trigger] old(self).triangles@[j]).aabb_wf(
                    old(self).buff_width as int,
                    old(self).buff_height as int,
                ),
        ensures
            final(self).wf(),
            final(self).tiles@.len() == old(self).tiles@.len(),
            forall|k: int|
                0 <= k < final(self).tiles@.len() ==> {
                    &&& (#[trigger] final(self).tiles@[k]).tri_idx@ == old(self).tiles@[k].tri_idx@ + spec_bin(
                        old(self).triangles@,
                        old(self).size_of_tiles as int,
                        k % old(self).amount_of_tiles_x as int,
                        k / old(self).amount_of_tiles_x as int,
                        old(self).triangles@.len() as int,
                    )
                    &&& final(self).tiles@[k].color_data == old(self).tiles@[k].color_data
                    &&& final(self).tiles@[k].depth_data == old(self).tiles@[k].depth_data
                },
            final(self).triangles == old(self).triangles,
            final(self).amount_of_tiles_x == old(self).amount_of_tiles_x,
            final(self).amount_of_tiles_y == old(self).amount_of_tiles_y,
            final(self).size_of_tiles == old(self).size_of_tiles,
            final(self).buff_width == old(self).buff_width,
            final(self).buff_height == old(self).buff_height,
    {
        let n: usize = self.triangles.len();
        let mut i: usize = 0;
        while i < n
            invariant
                0 <= i <= n,
                n == self.triangles@.len(),
                self.wf(),
                self.triangles@.len() <= 0xffffffff,
                forall|j: int|
                    0 <= j < self.triangles@.len() ==> (#[trigger] self.triangles@[j]).aabb_wf(
                        self.buff_width as int,
                        self.buff_height as int,
                    ),
                self.tiles@.len() == old(self).tiles@.len(),
                forall|k: int|
                    0 <= k < self.tiles@.len() ==> {
                        &&& (#[trigger] self.tiles@[k]).tri_idx@ == old(self).tiles@[k].tri_idx@
                            + spec_bin(
                            self.triangles@,
                            self.size_of_tiles as int,
                            k % self.amount_of_tiles_x as int,
                            k / self.amount_of_tiles_x as int,
                            i as int,
                        )
                        &&& self.tiles@[k].color_data == old(self).tiles@[k].color_data
                        &&& self.tiles@[k].depth_data == old(self).tiles@[k].depth_data
                    },
                self.triangles == old(self).triangles,
                self.amount_of_tiles_x == old(self).amount_of_tiles_x,
                self.amount_of_tiles_y == old(self).amount_of_tiles_y,
                self.size_of_tiles == old(self).size_of_tiles,
                self.buff_width == old(self).buff_width,
                self.buff_height == old(self).buff_height,
            decreases n - i,
        {
            let ghost mid_tiles: Seq<Tile> = self.tiles@;
            let tri: Triangle = self.triangles[i];
            self.bin_triangle(tri, i as u32);
            proof {
                assert forall|k: int| 0 <= k < self.tiles@.len() implies (
                #[trigger] self.tiles@[k]).tri_idx@ == old(self).tiles@[k].tri_idx@ + spec_bin(
                    self.triangles@,
                    self.size_of_tiles as int,
                    k % self.amount_of_tiles_x as int,
                    k / self.amount_of_tiles_x as int,
                    i as int + 1,
                ) by {
                    let kx = k % self.amount_of_tiles_x as int;
                    let ky = k / self.amount_of_tiles_x as int;
                    if spec_hits_tile(tri, self.size_of_tiles as int, kx, ky) {
                        assert(self.tiles@[k].tri_idx@ =~= old(self).tiles@[k].tri_idx@
                            + spec_bin(
                            self.triangles@,
                            self.size_of_tiles as int,
                            kx,
                            ky,
                            i as int + 1,
                        ));
                    }
                }
            }
            i = i + 1;
        }
    }

    /// Bin an externally supplied triangle list, leaving the frame's own
    /// list untouched.
    pub fn external_aa_bb_comparison(&mut self, triangles: &Vec<Triangle>)
        requires
            old(self).wf(),
            triangles@.len() <= 0xffffffff,
            forall|j: int|
                0 <= j < triangles@.len() ==> (#[trigger] triangles@[j]).aabb_wf(
                    old(self).buff_width as int,
                    old(self).buff_height as int,
                ),
        ensures
            final(self).wf(),
            final(self).tiles@.len() == old(self).tiles@.len(),
            forall|k: int|
                0 <= k < final(self).tiles@.len() ==> {
                    &&& (#[trigger] final(self).tiles@[k]).tri_idx@ == old(self).tiles@[k].tri_idx@ + spec_bin(
                        triangles@,
                        old(self).size_of_tiles as int,
                        k % old(self).amount_of_tiles_x as int,
                        k / old(self).amount_of_tiles_x as int,
                        triangles@.len() as int,
                    )
                    &&& final(self).tiles@[k].color_data == old(self).tiles@[k].color_data
                    &&& final(self).tiles@[k].depth_data == old(self).tiles@[k].depth_data
                },
            final(self).triangles == old(self).triangles,
            final(self).amount_of_tiles_x == old(self).amount_of_tiles_x,
            final(self).amount_of_tiles_y == old(self).amount_of_tiles_y,
            final(self).size_of_tiles == old(self).size_of_tiles,
            final(self).buff_width == old(self).buff_width,
            final(self).buff_height == old(self).buff_height,
    {
        let n: usize = triangles.len();
        let mut i: usize = 0;
        while i < n
            invariant
                0 <= i <= n,
                n == triangles@.len(),
                self.wf(),
                triangles@.len() <= 0xffffffff,
                forall|j: int|
                    0 <= j < triangles@.len() ==> (#[trigger] triangles@[j]).aabb_wf(
                        self.buff_width as int,
                        self.buff_height as int,
                    ),
                self.tiles@.len() == old(self).tiles@.len(),
                forall|k: int|
                    0 <= k < self.tiles@.len() ==> {
                        &&& (#[trigger] self.tiles@[k]).tri_idx@ == old(self).tiles@[k].tri_idx@
                            + spec_bin(
                            triangles@,
                            self.size_of_tiles as int,
                            k % self.amount_of_tiles_x as int,
                            k / self.amount_of_tiles_x as int,
                            i as int,
                        )
                        &&& self.tiles@[k].color_data == old(self).tiles@[k].color_data
                        &&& self.tiles@[k].depth_data == old(self).tiles@[k].depth_data
                    },
                self.triangles == old(self).triangles,
                self.amount_of_tiles_x == old(self).amount_of_tiles_x,
                self.amount_of_tiles_y == old(self).amount_of_tiles_y,
                self.size_of_tiles == old(self).size_of_tiles,
                self.buff_width == old(self).buff_width,
                self.buff_height == old(self).buff_height,
            decreases n - i,
        {
            let tri: Triangle = triangles[i];
            self.bin_triangle(tri, i as u32);
            proof {
                assert forall|k: int| 0 <= k < self.tiles@.len() implies (
                #[trigger] self.tiles@[k]).tri_idx@ == old(self).tiles@[k].tri_idx@ + spec_bin(
                    triangles@,
                    self.size_of_tiles as int,
                    k % self.amount_of_tiles_x as int,
                    k / self.amount_of_tiles_x as int,
                    i as int + 1,
                ) by {
                    let kx = k % self.amount_of_tiles_x as int;
                    let ky = k / self.amount_of_tiles_x as int;
                    if spec_hits_tile(tri, self.size_of_tiles as int, kx, ky) {
                        assert(self.tiles@[k].tri_idx@ =~= old(self).tiles@[k].tri_idx@
                            + spec_bin(
                            triangles@,
                            self.size_of_tiles as int,
                            kx,
                            ky,
                            i as int + 1,
                        ));
                    }
                }
            }
            i = i + 1;
        }
    }

    /// Drop the frame's triangle list and every tile's triangle bin.
    pub fn clear_tiles(&mut self)
        requires
            old(self).wf(),
        ensures
            final(self).wf(),
            final(self).triangles@.len() == 0,
            final(self).tiles@.len() == old(self).tiles@.len(),
            forall|k: int|
                0 <= k < final(self).tiles@.len() ==> {
                    &&& (#[trigger] final(self).tiles@[k]).tri_idx@.len() == 0
                    &&& final(self).tiles@[k].color_data == old(self).tiles@[k].color_data
                    &&& final(self).tiles@[k].depth_data == old(self).tiles@[k].depth_data
                },
            final(self).amount_of_tiles_x == old(self).amount_of_tiles_x,
            final(self).amount_of_tiles_y == old(self).amount_of_tiles_y,
            final(self).size_of_tiles == old(self).size_of_tiles,
            final(self).buff_width == old(self).buff_width,
            final(self).buff_height == old(self).buff_height,
    {
        self.triangles.clear();
        let n: usize = self.tiles.len();
        let mut k: usize = 0;
        while k < n
            invariant
                0 <= k <= n,
                n == self.tiles@.len(),
                self.tiles@.len() == old(self).tiles@.len(),
                forall|j: int|
                    k <= j < n ==> #[trigger] self.tiles@[j] == old(self).tiles@[j],
                forall|j: int|
                    0 <= j < k ==> {
                        &&& (#[trigger] self.tiles@[j]).tri_idx@.len() == 0
                        &&& self.tiles@[j].color_data == old(self).tiles@[j].color_data
                        &&& self.tiles@[j].depth_data == old(self).tiles@[j].depth_data
                        &&& self.tiles@[j].pos_x == old(self).tiles@[j].pos_x
                        &&& self.tiles@[j].pos_y == old(self).tiles@[j].pos_y
                        &&& self.tiles@[j].size_x == old(self).tiles@[j].size_x
                        &&& self.tiles@[j].size_y == old(self).tiles@[j].size_y
                        &&& self.tiles@[j].idx_x == old(self).tiles@[j].idx_x
                        &&& self.tiles@[j].idx_y == old(self).tiles@[j].idx_y
                    },
                self.triangles@.len() == 0,
                self.amount_of_tiles_x == old(self).amount_of_tiles_x,
                self.amount_of_tiles_y == old(self).amount_of_tiles_y,
                self.size_of_tiles == old(self).size_of_tiles,
                self.buff_width == old(self).buff_width,
                self.buff_height == old(self).buff_height,
            decreases n - k,
        {
            self.tiles[k].tri_idx.clear();
            k = k + 1;
        }
        proof {
            assert forall|k2: int| 0 <= k2 < self.tiles@.len() implies spec_tile_ok(
                #[trigger] self.tiles@[k2],
                k2 % self.amount_of_tiles_x as int,
                k2 / self.amount_of_tiles_x as int,
                self.size_of_tiles as int,
                self.buff_width as int,
                self.buff_height as int,
            ) by {
                assert(spec_tile_ok(
                    old(self).tiles@[k2],
                    k2 % self.amount_of_tiles_x as int,
                    k2 / self.amount_of_tiles_x as int,
                    self.size_of_tiles as int,
                    self.buff_width as int,
                    self.buff_height as int,
                ));
            }
        }
    }
}

/// Every member of a bin prefix names one of the first `n` triangles.
pub proof fn lemma_bin_members(tris: Seq<Triangle>, ts: int, kx: int, ky: int, n: int)
    requires
        0 <= n <= 0x100000000,
    ensures
        forall|j: int|
            0 <= j < spec_bin(tris, ts, kx, ky, n).len() ==> 0 <= #[trigger] spec_bin(
                tris,
                ts,
                kx,
                ky,
                n,
            )[j] < n,
    decreases n,
{
    if n > 0 {
        lemma_bin_members(tris, ts, kx, ky, n - 1);
        let pre = spec_bin(tris, ts, kx, ky, n - 1);
        let cur = spec_bin(tris, ts, kx, ky, n);
        if spec_hits_tile(tris[n - 1], ts, kx, ky) {
            assert(forall|j: int| 0 <= j < pre.len() ==> cur[j] == #[trigger] pre[j]);
            assert(cur[cur.len() - 1] == (n - 1) as u32);
        }
    }
}


/// One pixel's (color, depth) state after shading the listed triangles
/// in order: the fold of [`spec_apply_frag`] over the index list.
pub open spec fn spec_shade_list(
    tris: Seq<Triangle>,
    idxs: Seq<u32>,
    n: int,
    mode: RenderMode,
    tex: Option<Texture>,
    mat: Material,
    px: int,
    py: int,
    c: int,
    d: int,
) -> (int, int)
    decreases n,
{
    if n <= 0 {
        (c, d)
    } else {
        let prev = spec_shade_list(tris, idxs, n - 1, mode, tex, mat, px, py, c, d);
        spec_apply_frag(tris[idxs[n - 1] as int], mode, tex, mat, px, py, prev.0, prev.1)
    }
}

impl Tile {
    /// Shade every pixel of this tile against its binned triangles, in
    /// bin order.  Tiles share no mutable state, so a host may run this
    /// on all tiles of a frame independently.
    pub fn render(
        &mut self,
        tri_buff: &Vec<Triangle>,
        texture: Option<&Texture>,
        material: &Material,
        render_type: &RenderMode,
    )
        requires
            0 <= old(self).pos_x && 0 <= old(self).pos_y,
            0 <= old(self).size_x && 0 <= old(self).size_y,
            old(self).pos_x + old(self).size_x <= 4096,
            old(self).pos_y + old(self).size_y <= 4096,
            old(self).color_data@.len() == old(self).size_x * old(self).size_y,
            old(self).depth_data@.len() == old(self).size_x * old(self).size_y,
            forall|j: int|
                0 <= j < old(self).tri_idx@.len() ==> (#[trigger] old(self).tri_idx@[j]) < tri_buff@.len(),
            forall|t: int| 0 <= t < tri_buff@.len() ==> (#[trigger] tri_buff@[t]).screen_wf(),
            spec_tex_opt_wf(spec_opt_tex(texture)),
            material.wf(),
        ensures
            final(self).pos_x == old(self).pos_x && final(self).pos_y == old(self).pos_y,
            final(self).size_x == old(self).size_x && final(self).size_y == old(self).size_y,
            final(self).idx_x == old(self).idx_x && final(self).idx_y == old(self).idx_y,
            final(self).tri_idx == old(self).tri_idx,
            final(self).color_data@.len() == old(self).color_data@.len(),
            final(self).depth_data@.len() == old(self).depth_data@.len(),
            forall|ix: int, iy: int|
                0 <= ix < old(self).size_x && 0 <= iy < old(self).size_y ==> (
                #[trigger] final(self).color_data@[ix + iy * old(self).size_x] as int,
                final(self).depth_data@[ix + iy * old(self).size_x] as int) == spec_shade_list(
                    tri_buff@,
                    old(self).tri_idx@,
                    old(self).tri_idx@.len() as int,
                    *render_type,
                    spec_opt_tex(texture),
                    *material,
                    (old(self).pos_x + ix) * 65536 + 32768,
                    (old(self).pos_y + iy) * 65536 + 32768,
                    old(self).color_data@[ix + iy * old(self).size_x] as int,
                    old(self).depth_data@[ix + iy * old(self).size_x] as int,
                ),
    {
        let n: usize = self.tri_idx.len();
        let mut i: usize = 0;
        while i < n
            invariant
                0 <= i <= n,
                n == self.tri_idx@.len(),
                self.pos_x == old(self).pos_x && self.pos_y == old(self).pos_y,
                self.size_x == old(self).size_x && self.size_y == old(self).size_y,
                self.idx_x == old(self).idx_x && self.idx_y == old(self).idx_y,
                self.tri_idx == old(self).tri_idx,
                0 <= self.pos_x && 0 <= self.pos_y,
                0 <= self.size_x && 0 <= self.size_y,
                self.pos_x + self.size_x <= 4096,
                self.pos_y + self.size_y <= 4096,
                self.color_data@.len() == old(self).color_data@.len(),
                self.depth_data@.len() == old(self).depth_data@.len(),
                self.color_data@.len() == self.size_x * self.size_y,
                self.depth_data@.len() == self.size_x * self.size_y,
                forall|j: int|
                    0 <= j < self.tri_idx@.len() ==> (#[trigger] self.tri_idx@[j]) < tri_buff@.len(),
                forall|t: int| 0 <= t < tri_buff@.len() ==> (#[trigger] tri_buff@[t]).screen_wf(),
                spec_tex_opt_wf(spec_opt_tex(texture)),
                material.wf(),
                forall|ix: int, iy: int|
                    0 <= ix < self.size_x && 0 <= iy < self.size_y ==> (
                    #[trigger] self.color_data@[ix + iy * self.size_x] as int,
                    self.depth_data@[ix + iy * self.size_x] as int) == spec_shade_list(
                        tri_buff@,
                        old(self).tri_idx@,
                        i as int,
                        *render_type,
                        spec_opt_tex(texture),
                        *material,
                        (self.pos_x + ix) * 65536 + 32768,
                        (self.pos_y + iy) * 65536 + 32768,
                        old(self).color_data@[ix + iy * self.size_x] as int,
                        old(self).depth_data@[ix + iy * self.size_x] as int,
                    ),
            decreases n - i,
        {
            let ti: u32 = self.tri_idx[i];
            let px: i64 = self.pos_x;
            let py: i64 = self.pos_y;
            let sx: i64 = self.size_x;
            let sy: i64 = self.size_y;
            let tri: &Triangle = &tri_buff[ti as usize];
            tri.render_fragments(
                px,
                py,
                sx,
                sy,
                &mut self.color_data,
                &mut self.depth_data,
                texture,
                material,
                render_type,
            );
            i = i + 1;
        }
    }
}

impl SlicedBuffers {
    /// Shade every tile of the frame against a supplied triangle list.
    ///
    /// Each tile owns disjoint buffers and only reads the shared list, so
    /// this loop is an embarrassingly parallel map a host may fan out.
    pub fn extern_render(
        &mut self,
        triangles: &Vec<Triangle>,
        texture: Option<&Texture>,
        material: &Material,
        render_type: &RenderMode,
    )
        requires
            old(self).wf(),
            forall|t: int| 0 <= t < triangles@.len() ==> (#[trigger] triangles@[t]).screen_wf(),
            forall|k: int, j: int|
                0 <= k < old(self).tiles@.len() && 0 <= j < old(self).tiles@[k].tri_idx@.len()
                    ==> (#[trigger] old(self).tiles@[k].tri_idx@[j]) < triangles@.len(),
            spec_tex_opt_wf(spec_opt_tex(texture)),
            material.wf(),
        ensures
            final(self).wf(),
            final(self).tiles@.len() == old(self).tiles@.len(),
            final(self).triangles == old(self).triangles,
            final(self).amount_of_tiles_x == old(self).amount_of_tiles_x,
            final(self).amount_of_tiles_y == old(self).amount_of_tiles_y,
            final(self).size_of_tiles == old(self).size_of_tiles,
            final(self).buff_width == old(self).buff_width,
            final(self).buff_height == old(self).buff_height,
            forall|k: int|
                0 <= k < final(self).tiles@.len() ==> {
                    &&& (#[trigger] final(self).tiles@[k]).tri_idx == old(self).tiles@[k].tri_idx
                    &&& final(self).tiles@[k].color_data@.len() == old(self).tiles@[k].color_data@.len()
                    &&& final(self).tiles@[k].depth_data@.len() == old(self).tiles@[k].depth_data@.len()
                    &&& forall|ix: int, iy: int|
                        0 <= ix < final(self).tiles@[k].size_x && 0 <= iy < final(self).tiles@[k].size_y ==> (
                        #[trigger] final(self).tiles@[k].color_data@[ix + iy * final(self).tiles@[k].size_x] as int,
                        final(self).tiles@[k].depth_data@[ix + iy * final(self).tiles@[k].size_x] as int) == spec_shade_list(
                            triangles@,
                            old(self).tiles@[k].tri_idx@,
                            old(self).tiles@[k].tri_idx@.len() as int,
                            *render_type,
                            spec_opt_tex(texture),
                            *material,
                            (old(self).tiles@[k].pos_x + ix) * 65536 + 32768,
                            (old(self).tiles@[k].pos_y + iy) * 65536 + 32768,
                            old(self).tiles@[k].color_data@[ix + iy * old(self).tiles@[k].size_x] as int,
                            old(self).tiles@[k].depth_data@[ix + iy * old(self).tiles@[k].size_x] as int,
                        )
                },
    {
        let n: usize = self.tiles.len();
        let mut k: usize = 0;
        while k < n
            invariant
                0 <= k <= n,
                n == self.tiles@.len(),
                self.wf(),
                self.tiles@.len() == old(self).tiles@.len(),
                self.triangles == old(self).triangles,
                self.amount_of_tiles_x == old(self).amount_of_tiles_x,
                self.amount_of_tiles_y == old(self).amount_of_tiles_y,
                self.size_of_tiles == old(self).size_of_tiles,
                self.buff_width == old(self).buff_width,
                self.buff_height == old(self).buff_height,
                forall|t: int| 0 <= t < triangles@.len() ==> (#[trigger] triangles@[t]).screen_wf(),
                forall|k2: int, j: int|
                    0 <= k2 < old(self).tiles@.len() && 0 <= j < old(self).tiles@[k2].tri_idx@.len() ==> (#[trigger] old(self).tiles@[k2].tri_idx@[j])
                        < triangles@.len(),
                spec_tex_opt_wf(spec_opt_tex(texture)),
                material.wf(),
                forall|k2: int| k <= k2 < n ==> #[trigger] self.tiles@[k2] == old(self).tiles@[k2],
                forall|k2: int|
                    0 <= k2 < k ==> {
                        &&& (#[trigger] self.tiles@[k2]).tri_idx == old(self).tiles@[k2].tri_idx
                        &&& self.tiles@[k2].pos_x == old(self).tiles@[k2].pos_x
                        &&& self.tiles@[k2].pos_y == old(self).tiles@[k2].pos_y
                        &&& self.tiles@[k2].size_x == old(self).tiles@[k2].size_x
                        &&& self.tiles@[k2].size_y == old(self).tiles@[k2].size_y
                        &&& self.tiles@[k2].idx_x == old(self).tiles@[k2].idx_x
                        &&& self.tiles@[k2].idx_y == old(self).tiles@[k2].idx_y
                        &&& self.tiles@[k2].color_data@.len() == old(self).tiles@[k2].color_data@.len()
                        &&& self.tiles@[k2].depth_data@.len() == old(self).tiles@[k2].depth_data@.len()
                        &&& forall|ix: int, iy: int|
                            0 <= ix < self.tiles@[k2].size_x && 0 <= iy < self.tiles@[k2].size_y
                                ==> (
                            #[trigger] self.tiles@[k2].color_data@[ix + iy
                                * self.tiles@[k2].size_x] as int,
                            self.tiles@[k2].depth_data@[ix + iy * self.tiles@[k2].size_x] as int)
                                == spec_shade_list(
                                triangles@,
                                old(self).tiles@[k2].tri_idx@,
                                old(self).tiles@[k2].tri_idx@.len() as int,
                                *render_type,
                                spec_opt_tex(texture),
                                *material,
                                (old(self).tiles@[k2].pos_x + ix) * 65536 + 32768,
                                (old(self).tiles@[k2].pos_y + iy) * 65536 + 32768,
                                old(self).tiles@[k2].color_data@[ix + iy * old(self).tiles@[k2].size_x] as int,
                                old(self).tiles@[k2].depth_data@[ix + iy * old(self).tiles@[k2].size_x] as int,
                            )
                    },
            decreases n - k,
        {
            self.tiles[k].render(triangles, texture, material, render_type);
            k = k + 1;
        }
    }

    /// Shade every tile against the frame's own triangle list.
    pub fn render(
        &mut self,
        texture: Option<&Texture>,
        material: &Material,
        render_type: &RenderMode,
    )
        requires
            old(self).wf(),
            forall|t: int|
                0 <= t < old(self).triangles@.len() ==> (#[trigger] old(self).triangles@[t]).screen_wf(),
            forall|k: int, j: int|
                0 <= k < old(self).tiles@.len() && 0 <= j < old(self).tiles@[k].tri_idx@.len()
                    ==> (#[trigger] old(self).tiles@[k].tri_idx@[j]) < old(self).triangles@.len(),
            spec_tex_opt_wf(spec_opt_tex(texture)),
            material.wf(),
        ensures
            final(self).wf(),
            final(self).tiles@.len() == old(self).tiles@.len(),
            final(self).triangles == old(self).triangles,
            final(self).buff_width == old(self).buff_width,
            final(self).buff_height == old(self).buff_height,
            forall|k: int|
                0 <= k < final(self).tiles@.len() ==> {
                    &&& (#[trigger] final(self).tiles@[k]).tri_idx == old(self).tiles@[k].tri_idx
                    &&& forall|ix: int, iy: int|
                        0 <= ix < final(self).tiles@[k].size_x && 0 <= iy < final(self).tiles@[k].size_y ==> (
                        #[trigger] final(self).tiles@[k].color_data@[ix + iy * final(self).tiles@[k].size_x] as int,
                        final(self).tiles@[k].depth_data@[ix + iy * final(self).tiles@[k].size_x] as int) == spec_shade_list(
                            old(self).triangles@,
                            old(self).tiles@[k].tri_idx@,
                            old(self).tiles@[k].tri_idx@.len() as int,
                            *render_type,
                            spec_opt_tex(texture),
                            *material,
                            (old(self).tiles@[k].pos_x + ix) * 65536 + 32768,
                            (old(self).tiles@[k].pos_y + iy) * 65536 + 32768,
                            old(self).tiles@[k].color_data@[ix + iy * old(self).tiles@[k].size_x] as int,
                            old(self).tiles@[k].depth_data@[ix + iy * old(self).tiles@[k].size_x] as int,
                        )
                },
    {
        let tris: Vec<Triangle> = self.triangles.clone();
        proof {
            assert(tris@ =~= self.triangles@);
        }
        self.extern_render(&tris, texture, material, render_type);
    }
}


impl SlicedBuffers {
    /// Assemble the flat output image: a pure gather that copies every
    /// tile's rectangle into its place in the full-resolution surface.
    /// Each output pixel is exactly the covering tile's local pixel.
    pub fn transfer_buffer(&self) -> (out: Vec<u32>)
        requires
            self.wf(),
        ensures
            out@.len() == self.buff_width as int * self.buff_height as int,
            forall|gx: int, gy: int|
                0 <= gx < self.buff_width && 0 <= gy < self.buff_height ==> {
                    let ts = self.size_of_tiles as int;
                    let cell = gx / ts + (gy / ts) * self.amount_of_tiles_x as int;
                    #[trigger] out@[gx + gy * self.buff_width as int]
                        == self.tiles@[cell].color_data@[(gx % ts) + (gy % ts)
                        * self.tiles@[cell].size_x]
                },
    {
        let w: i64 = self.buff_width as i64;
        let h: i64 = self.buff_height as i64;
        let ts: i64 = self.size_of_tiles;
        let ax: i64 = self.amount_of_tiles_x;
        let mut out: Vec<u32> = Vec::new();
        let mut gy: i64 = 0;
        while gy < h
            invariant
                0 <= gy <= h,
                self.wf(),
                w == self.buff_width as int,
                h == self.buff_height as int,
                ts == self.size_of_tiles as int,
                ax == self.amount_of_tiles_x as int,
                out@.len() == gy * w,
                forall|jx: int, jy: int|
                    0 <= jx < w && 0 <= jy < gy ==> {
                        let cell = jx / (ts as int) + (jy / (ts as int)) * (ax as int);
                        #[trigger] out@[jx + jy * w] == self.tiles@[cell].color_data@[(jx % (
                        ts as int)) + (jy % (ts as int)) * self.tiles@[cell].size_x]
                    },
            decreases h - gy,
        {
            let mut gx: i64 = 0;
            while gx < w
                invariant
                    0 <= gy < h,
                    0 <= gx <= w,
                    self.wf(),
                    w == self.buff_width as int,
                    h == self.buff_height as int,
                    ts == self.size_of_tiles as int,
                    ax == self.amount_of_tiles_x as int,
                    out@.len() == gy * w + gx,
                    forall|jx: int, jy: int|
                        0 <= jx < w && (0 <= jy < gy || (jy == gy && 0 <= jx < gx)) ==> {
                            let cell = jx / (ts as int) + (jy / (ts as int)) * (ax as int);
                            #[trigger] out@[jx + jy * w] == self.tiles@[cell].color_data@[(jx % (
                            ts as int)) + (jy % (ts as int)) * self.tiles@[cell].size_x]
                        },
                decreases w - gx,
            {
                let kx: i64 = ediv_nonneg(gx, ts);
                let ky: i64 = ediv_nonneg(gy, ts);
                let lx: i64 = emod_i64(gx, ts);
                let ly: i64 = emod_i64(gy, ts);
                proof {
                    lemma_grid_count(w as int, ts as int);
                    lemma_grid_count(h as int, ts as int);
                    vstd::arithmetic::div_mod::lemma_fundamental_div_mod(gx as int, ts as int);
                    vstd::arithmetic::div_mod::lemma_fundamental_div_mod(gy as int, ts as int);
                    assert(kx < ax && ky < self.amount_of_tiles_y as int) by (nonlinear_arith)
                        requires
                            gx as int == (ts as int) * (kx as int) + lx as int,
                            gy as int == (ts as int) * (ky as int) + ly as int,
                            0 <= lx < ts,
                            0 <= ly < ts,
                            0 <= gx < w,
                            0 <= gy < h,
                            1 <= ts,
                            ax as int == (w as int + ts as int - 1) / (ts as int),
                            self.amount_of_tiles_y as int == (h as int + ts as int - 1) / (
                            ts as int),
                            forall|x: int|
                                0 <= x < ax as int ==> #[trigger] (x * (ts as int)) < w as int,
                            forall|x: int|
                                0 <= x < self.amount_of_tiles_y as int ==> #[trigger] (x * (
                                ts as int)) < h as int,
                            kx >= 0 && ky >= 0,
                    ;
                    assert(0 <= kx + ky * ax && kx + ky * ax < ax * self.amount_of_tiles_y as int
                        && ky * ax <= 0x10000000) by (nonlinear_arith)
                        requires
                            0 <= kx < ax <= 4096,
                            0 <= ky < self.amount_of_tiles_y,
                            self.amount_of_tiles_y <= 0x10000,
                    ;
                }
                let cell: usize = (kx + ky * ax) as usize;
                let tile: &Tile = &self.tiles[cell];
                proof {
                    assert(tile.pos_x == kx as int * ts as int && tile.pos_y == ky as int * (
                    ts as int)) by {
                        vstd::arithmetic::div_mod::lemma_fundamental_div_mod_converse(
                            kx as int + ky as int * ax as int,
                            ax as int,
                            ky as int,
                            kx as int,
                        );
                    }
                    assert(lx < tile.size_x && ly < tile.size_y) by (nonlinear_arith)
                        requires
                            tile.pos_x == kx as int * (ts as int),
                            tile.pos_y == ky as int * (ts as int),
                            gx as int == (ts as int) * (kx as int) + lx as int,
                            gy as int == (ts as int) * (ky as int) + ly as int,
                            tile.size_x == spec_tile_extent(
                                kx as int * (ts as int),
                                ts as int,
                                w as int,
                            ),
                            tile.size_y == spec_tile_extent(
                                ky as int * (ts as int),
                                ts as int,
                                h as int,
                            ),
                            0 <= lx < ts,
                            0 <= ly < ts,
                            gx < w,
                            gy < h,
                            1 <= ts,
                    ;
                    assert(0 <= lx + ly * tile.size_x && lx + ly * tile.size_x < tile.size_x
                        * tile.size_y && ly * tile.size_x <= 0x1000000) by (nonlinear_arith)
                        requires
                            0 <= lx < tile.size_x <= 4096,
                            0 <= ly < tile.size_y <= 4096,
                    ;
                }
                let src: usize = (lx + ly * tile.size_x) as usize;
                let pix: u32 = tile.color_data[src];
                let ghost pre_out: Seq<u32> = out@;
                out.push(pix);
                proof {
                    assert(out@.len() == gy * w + gx + 1);
                    assert(gx as int + gy as int * w as int == gy as int * w as int + gx as int);
                    assert forall|jx: int, jy: int|
                        0 <= jx < w && (0 <= jy < gy || (jy == gy && 0 <= jx < gx + 1)) implies {
                        let cell2 = jx / (ts as int) + (jy / (ts as int)) * (ax as int);
                        #[trigger] out@[jx + jy * w] == self.tiles@[cell2].color_data@[(jx % (
                        ts as int)) + (jy % (ts as int)) * self.tiles@[cell2].size_x]
                    } by {
                        if jy == gy as int && jx == gx as int {
                            assert(out@[jx + jy * w] == pix);
                        } else {
                            assert(0 <= jx + jy * w && jx + jy * w < gy * w + gx)
                                by (nonlinear_arith)
                                requires
                                    0 <= jx < w,
                                    0 <= jy,
                                    jy < gy || (jy == gy && jx < gx),
                                    0 <= gx,
                                    0 <= gy,
                            ;
                            assert(out@[jx + jy * w] == pre_out[jx + jy * w]);
                        }
                    }
                }
                gx = gx + 1;
            }
            proof {
                assert((gy as int + 1) * w as int == gy as int * w as int + w as int)
                    by (nonlinear_arith);
            }
            gy = gy + 1;
        }
        proof {
            assert(h as int * w as int == w as int * h as int) by (nonlinear_arith);
        }
        out
    }
}


/// Rendering the same triangle twice into a pixel leaves exactly what one
/// pass leaves: the second pass interpolates the same depth, which fails
/// the strict depth test wherever the first pass wrote.  Together with
/// [`Tile::render`]'s pointwise contract this lifts the per-fragment
/// idempotence law to whole tiles.
pub proof fn lemma_shade_twice_is_once(
    tris: Seq<Triangle>,
    i: u32,
    mode: RenderMode,
    tex: Option<Texture>,
    mat: Material,
    px: int,
    py: int,
    c: int,
    d: int,
)
    ensures
        spec_shade_list(tris, seq![i, i], 2, mode, tex, mat, px, py, c, d) == spec_shade_list(
            tris,
            seq![i],
            1,
            mode,
            tex,
            mat,
            px,
            py,
            c,
            d,
        ),
{
    let once = spec_shade_list(tris, seq![i], 1, mode, tex, mat, px, py, c, d);
    crate::fragment::lemma_depth_test_idempotent(tris[i as int], mode, tex, mat, px, py, c, d);
    assert(seq![i, i][0] == i && seq![i, i][1] == i && seq![i][0] == i);
    assert(spec_shade_list(tris, seq![i, i], 0, mode, tex, mat, px, py, c, d) == (c, d));
    assert(spec_shade_list(tris, seq![i], 0, mode, tex, mat, px, py, c, d) == (c, d));
    assert(spec_shade_list(tris, seq![i, i], 1, mode, tex, mat, px, py, c, d) == once);
}

} // verus!

//! A CPU-only, tile-based triangle rasterizer.
//!
//! Geometry arrives as clip-space triangles; the library near-plane clips
//! them, projects them to screen space, bins them into fixed-size tiles and
//! shades every covered pixel with a depth test and one of several shading
//! modes.  All coordinates, attributes and depths are 16.16 fixed-point
//! values, so every stage of the pipeline is exact integer arithmetic.

use vstd::prelude::*;

pub mod fragment;
pub mod fx;
pub mod index_buffer;
pub mod material;
pub mod render_mode;
pub mod render_utils;
pub mod sampler;
pub mod sliced_buffer;
pub mod tex_manager;
pub mod texture;
pub mod triangle;
pub mod vecmath;
pub mod vertex;
pub mod viewport;

use crate::index_buffer::IndexBuffer;
use crate::sliced_buffer::SlicedBuffers;
use crate::tex_manager::TextureManager;
use crate::texture::Texture;

verus! {

pub fn add(left: usize, right: usize) -> (r: usize)
    requires
        left + right <= usize::MAX,
    ensures
        r == left + right,
{
    left + right
}

/// The renderer facade a host drives: it owns the tiled framebuffer, the
/// index buffers handed over so far, and the texture store.
pub struct TanglRenderer {
    pub buffer_width: u32,
    pub buffer_height: u32,
    pub tile_size: i64,
    pub buffers: SlicedBuffers,
    pub indices: Vec<IndexBuffer>,
    pub tex_manager: TextureManager,
}

impl TanglRenderer {
    /// The renderer's invariant: its tiled framebuffer is well formed and
    /// matches the configured dimensions.
    pub open spec fn wf(self) -> bool {
        &&& self.buffers.wf()
        &&& self.buffers.buff_width == self.buffer_width
        &&& self.buffers.buff_height == self.buffer_height
        &&& self.buffers.size_of_tiles == self.tile_size
    }

    /// Set a renderer up for a surface and tile edge length.
    #[allow(non_snake_case)]
    pub fn Tangl_Init(buff_width: u32, buff_height: u32, tile_size: i64) -> (r: Self)
        requires
            1 <= buff_width <= 4096,
            1 <= buff_height <= 4096,
            1 <= tile_size <= 4096,
        ensures
            r.wf(),
            r.buffer_width == buff_width,
            r.buffer_height == buff_height,
            r.tile_size == tile_size,
            r.buffers.triangles@.len() == 0,
            r.indices@.len() == 0,
            r.tex_manager.spec_assigned() == 0,
    {
        let buffers: SlicedBuffers = SlicedBuffers::from_buffers(
            buff_width,
            buff_height,
            tile_size,
        );
        TanglRenderer {
            buffer_width: buff_width,
            buffer_height: buff_height,
            tile_size,
            buffers,
            indices: Vec::new(),
            tex_manager: TextureManager::new(),
        }
    }

    /// Take over an index buffer; the handle is its position plus one.
    #[allow(non_snake_case)]
    pub fn Tangl_GenIndexBuffer(&mut self, data: Vec<i32>) -> (r: i32)
        requires
            old(self).indices@.len() < 0x7fffffff,
        ensures
            final(self).indices@.len() == old(self).indices@.len() + 1,
            final(self).indices@[old(self).indices@.len() as int].data@ == data@,
            r as int == old(self).indices@.len() + 1,
            final(self).buffers == old(self).buffers,
            final(self).tex_manager == old(self).tex_manager,
            final(self).buffer_width == old(self).buffer_width,
            final(self).buffer_height == old(self).buffer_height,
            final(self).tile_size == old(self).tile_size,
    {
        self.indices.push(IndexBuffer::new(data));
        self.indices.len() as i32
    }

    /// Store a decoded texture and hand back its handle.
    #[allow(non_snake_case)]
    pub fn Tangl_GenTexture(&mut self, texture: Texture) -> (idx: i32)
        requires
            old(self).tex_manager.spec_assigned() < 0x7fffffff,
        ensures
            idx as int == old(self).tex_manager.spec_assigned() + 1,
            final(self).tex_manager.spec_get(idx as int) == Some(texture),
            forall|i: int|
                i != idx as int ==> final(self).tex_manager.spec_get(i) == old(self).tex_manager.spec_get(i),
            final(self).buffers == old(self).buffers,
            final(self).indices == old(self).indices,
            final(self).buffer_width == old(self).buffer_width,
            final(self).buffer_height == old(self).buffer_height,
            final(self).tile_size == old(self).tile_size,
    {
        self.tex_manager.add_texture(texture)
    }

    /// Drop the texture behind a handle.
    #[allow(non_snake_case)]
    pub fn Tangl_DestroyTexture(&mut self, index: &i32)
        ensures
            final(self).tex_manager.spec_get(*index as int) is None,
            forall|i: int|
                i != *index as int ==> final(self).tex_manager.spec_get(i) == old(self).tex_manager.spec_get(i),
            final(self).buffers == old(self).buffers,
            final(self).indices == old(self).indices,
            final(self).buffer_width == old(self).buffer_width,
            final(self).buffer_height == old(self).buffer_height,
            final(self).tile_size == old(self).tile_size,
    {
        self.tex_manager.destroy_texture(index);
    }

    /// Fill every tile's color storage with a clear value.
    #[allow(non_snake_case)]
    pub fn Tangl_ClearColor(&mut self, val: u32)
        requires
            old(self).wf(),
        ensures
            final(self).wf(),
            final(self).buffers.tiles@.len() == old(self).buffers.tiles@.len(),
            forall|k: int|
                0 <= k < final(self).buffers.tiles@.len() ==> forall|i: int|
                    0 <= i < (#[trigger] final(self).buffers.tiles@[k]).color_data@.len() ==> final(self).buffers.tiles@[k].color_data@[i] == val,
    {
        self.buffers.clear_color(val);
    }

    /// Fill every tile's depth storage with a clear value.
    #[allow(non_snake_case)]
    pub fn Tangl_ClearDepth(&mut self, val: i64)
        requires
            old(self).wf(),
        ensures
            final(self).wf(),
            final(self).buffers.tiles@.len() == old(self).buffers.tiles@.len(),
            forall|k: int|
                0 <= k < final(self).buffers.tiles@.len() ==> forall|i: int|
                    0 <= i < (#[trigger] final(self).buffers.tiles@[k]).depth_data@.len() ==> final(self).buffers.tiles@[k].depth_data@[i] == val,
    {
        self.buffers.clear_depth(val);
    }

    /// Assemble the flat full-resolution image for display: each output
    /// pixel is exactly the covering tile's local pixel.
    #[allow(non_snake_case)]
    pub fn Tangl_SendForDisplay(&self) -> (out: Vec<u32>)
        requires
            self.wf(),
        ensures
            out@.len() == self.buffer_width as int * self.buffer_height as int,
            forall|gx: int, gy: int|
                0 <= gx < self.buffer_width && 0 <= gy < self.buffer_height ==> {
                    let ts = self.buffers.size_of_tiles as int;
                    let cell = gx / ts + (gy / ts) * self.buffers.amount_of_tiles_x as int;
                    #[trigger] out@[gx + gy * self.buffer_width as int]
                        == self.buffers.tiles@[cell].color_data@[(gx % ts) + (gy % ts)
                        * self.buffers.tiles@[cell].size_x]
                },
    {
        let out: Vec<u32> = self.buffers.transfer_buffer();
        proof {
            assert forall|gx: int, gy: int|
                0 <= gx < self.buffer_width && 0 <= gy < self.buffer_height implies {
                let ts = self.buffers.size_of_tiles as int;
                let cell = gx / ts + (gy / ts) * self.buffers.amount_of_tiles_x as int;
                #[trigger] out@[gx + gy * self.buffer_width as int]
                    == self.buffers.tiles@[cell].color_data@[(gx % ts) + (gy % ts)
                    * self.buffers.tiles@[cell].size_x]
            } by {
                assert(out@[gx + gy * self.buffers.buff_width as int] == {
                    let ts = self.buffers.size_of_tiles as int;
                    let cell = gx / ts + (gy / ts) * self.buffers.amount_of_tiles_x as int;
                    self.buffers.tiles@[cell].color_data@[(gx % ts) + (gy % ts)
                        * self.buffers.tiles@[cell].size_x]
                });
            }
        }
        out
    }
}

} // verus!

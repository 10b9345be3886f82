//! Textures: a packed-color pixel array with a sampler, plus the pure
//! repacking constructors that turn decoded image bytes into pixels.
//! Decoding image files is the host's business; only plain byte buffers
//! arrive here.

use vstd::prelude::*;

use crate::render_utils::{argb8_to_u32, rgba8_to_u32, spec_pack_argb, u32_to_argb8};
use crate::sampler::Sampler;

verus! {

/// A texture: `width * height` packed pixels and the sampler to use.
#[derive(Clone, Debug)]
pub struct Texture {
    pub width: u32,
    pub height: u32,
    pub data: Vec<u32>,
    pub sampler: Sampler,
}

/// The packed pixel of a texture at integer coordinates, row-major.
pub open spec fn spec_texel(t: Texture, x: int, y: int) -> int {
    t.data@[t.width as int * y + x] as int
}

impl Texture {
    /// The pixel array matches the stated dimensions.
    pub open spec fn wf(self) -> bool {
        self.data@.len() == self.width as int * self.height as int
    }

    /// The pure half of texture loading from an RGB image: every three
    /// bytes become one packed pixel, with the channels laid out exactly
    /// as the rest of the pipeline reads them back.
    pub fn from_rgb8(width: u32, height: u32, pixels: &Vec<u8>) -> (r: Texture)
        requires
            pixels@.len() == 3 * (width as int * height as int),
        ensures
            r.wf(),
            r.width == width,
            r.height == height,
            r.sampler == (Sampler { wrap_s: crate::sampler::Wrap::Repeat, wrap_t: crate::sampler::Wrap::Repeat }),
            forall|i: int|
                0 <= i < width as int * height as int ==> r.data@[i] as int == spec_pack_argb(
                    pixels@[3 * i] as int,
                    pixels@[3 * i + 1] as int,
                    pixels@[3 * i + 2] as int,
                    255,
                ),
    {
        let n: usize = pixels.len() / 3;
        proof {
            assert(pixels@.len() % 3 == 0 && pixels@.len() / 3 == width as int * height as int)
                by (nonlinear_arith)
                requires
                    pixels@.len() == 3 * (width as int * height as int),
            ;
        }
        let mut data: Vec<u32> = Vec::new();
        let mut i: usize = 0;
        while i < n
            invariant
                0 <= i <= n,
                n == width as int * height as int,
                pixels@.len() == 3 * n,
                pixels@.len() <= usize::MAX,
                data@.len() == i,
                forall|j: int|
                    0 <= j < i ==> data@[j] as int == spec_pack_argb(
                        pixels@[3 * j] as int,
                        pixels@[3 * j + 1] as int,
                        pixels@[3 * j + 2] as int,
                        255,
                    ),
            decreases n - i,
        {
            let px: u32 = argb8_to_u32(pixels[3 * i], pixels[3 * i + 1], pixels[3 * i + 2], 255);
            data.push(px);
            i = i + 1;
        }
        Texture { width, height, data, sampler: Sampler::default() }
    }

    /// The pure half of texture loading from an RGBA image: every four
    /// bytes become one packed pixel.
    pub fn from_rgba8(width: u32, height: u32, pixels: &Vec<u8>) -> (r: Texture)
        requires
            pixels@.len() == 4 * (width as int * height as int),
        ensures
            r.wf(),
            r.width == width,
            r.height == height,
            r.sampler == (Sampler { wrap_s: crate::sampler::Wrap::Repeat, wrap_t: crate::sampler::Wrap::Repeat }),
            forall|i: int|
                0 <= i < width as int * height as int ==> r.data@[i] as int == spec_pack_argb(
                    pixels@[4 * i] as int,
                    pixels@[4 * i + 1] as int,
                    pixels@[4 * i + 2] as int,
                    pixels@[4 * i + 3] as int,
                ),
    {
        let n: usize = pixels.len() / 4;
        proof {
            assert(pixels@.len() % 4 == 0 && pixels@.len() / 4 == width as int * height as int)
                by (nonlinear_arith)
                requires
                    pixels@.len() == 4 * (width as int * height as int),
            ;
        }
        let mut data: Vec<u32> = Vec::new();
        let mut i: usize = 0;
        while i < n
            invariant
                0 <= i <= n,
                n == width as int * height as int,
                pixels@.len() == 4 * n,
                pixels@.len() <= usize::MAX,
                data@.len() == i,
                forall|j: int|
                    0 <= j < i ==> data@[j] as int == spec_pack_argb(
                        pixels@[4 * j] as int,
                        pixels@[4 * j + 1] as int,
                        pixels@[4 * j + 2] as int,
                        pixels@[4 * j + 3] as int,
                    ),
            decreases n - i,
        {
            let px: u32 = rgba8_to_u32(
                pixels[4 * i],
                pixels[4 * i + 1],
                pixels[4 * i + 2],
                pixels[4 * i + 3],
            );
            data.push(px);
            i = i + 1;
        }
        Texture { width, height, data, sampler: Sampler::default() }
    }

    /// Fetch one pixel's `[a, r, g, b]` channel bytes.
    ///
    /// Out-of-range coordinates are an internal invariant violation of the
    /// wrap math, excluded here once and for all rather than clamped away.
    pub fn get_pixel(&self, img_width: u32, img_height: u32) -> (argb: [u8; 4])
        requires
            self.wf(),
            img_width < self.width,
            img_height < self.height,
        ensures
            argb[0] as int == spec_texel(*self, img_width as int, img_height as int) / 0x1000000,
            argb[1] as int == (spec_texel(*self, img_width as int, img_height as int) / 0x10000)
                % 0x100,
            argb[2] as int == (spec_texel(*self, img_width as int, img_height as int) / 0x100)
                % 0x100,
            argb[3] as int == spec_texel(*self, img_width as int, img_height as int) % 0x100,
    {
        proof {
            assert(0 <= (self.width as int) * (img_height as int) + (img_width as int)
                && (self.width as int) * (img_height as int) + (img_width as int)
                < (self.width as int) * (self.height as int)) by (nonlinear_arith)
                requires
                    (img_width as int) < (self.width as int),
                    (img_height as int) < (self.height as int),
            ;
        }
        let total: usize = self.data.len();
        let idx: usize = (self.width as usize) * (img_height as usize) + (img_width as usize);
        let color: u32 = self.data[idx];
        u32_to_argb8(color)
    }
}

impl Default for Texture {
    /// An empty texture with the default sampler.
    fn default() -> (r: Self)
        ensures
            r.width == 0,
            r.height == 0,
            r.data@.len() == 0,
            r.sampler == (Sampler { wrap_s: crate::sampler::Wrap::Repeat, wrap_t: crate::sampler::Wrap::Repeat }),
            r.wf(),
    {
        Texture { width: 0, height: 0, data: Vec::new(), sampler: Sampler::default() }
    }
}

} // verus!

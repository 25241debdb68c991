//! The render target: one color texture and a depth value for each of its
//! pixels.
use crate::binary32::Binary32;
use crate::color::Rgba8;
use crate::texture::{ETextureFormat, ETextureType, Texture, TextureDescriptor};
use vstd::prelude::*;

verus! {

/// What a frame buffer holds, as mathematics: the extent, the color bytes
/// row by row from the top left, and one depth for each pixel.
pub struct Surface {
    pub width: nat,
    pub height: nat,
    pub color: Seq<u8>,
    pub depth: Seq<Binary32>,
}

impl Surface {
    pub open spec fn pixel_count(self) -> nat {
        self.width * self.height
    }

    pub open spec fn wf(self) -> bool {
        &&& self.width > 0
        &&& self.height > 0
        &&& self.color.len() == 4 * self.pixel_count()
        &&& self.depth.len() == self.pixel_count()
    }

    /// The color of pixel `index`.
    pub open spec fn pixel(self, index: int) -> Rgba8 {
        Rgba8 {
            r: self.color[4 * index],
            g: self.color[4 * index + 1],
            b: self.color[4 * index + 2],
            a: self.color[4 * index + 3],
        }
    }

    /// The index of the pixel in column `wi` of row `hi`.
    pub open spec fn pixel_index(self, wi: usize, hi: usize) -> int {
        hi * self.width + wi
    }

    /// The surface with pixel `index` colored; one past the last pixel
    /// changes nothing.
    pub open spec fn with_color(self, index: int, color: Rgba8) -> Surface {
        if 0 <= index < self.pixel_count() {
            Surface { color: Texture::buffer_with_pixel(self.color, index, color), ..self }
        } else {
            self
        }
    }

    /// The surface with every pixel colored `color`.
    pub open spec fn filled(self, color: Rgba8) -> Surface {
        Surface {
            color: Seq::new(self.color.len(), |k: int| color.bytes()[k % 4]),
            ..self
        }
    }

    /// The surface with every depth set to `value`.
    pub open spec fn with_depth(self, value: Binary32) -> Surface {
        Surface { depth: Seq::new(self.depth.len(), |i: int| value), ..self }
    }
}

#[derive(Debug)]
pub struct FrameBuffer {
    pub texture: Texture,
    pub z_buffer: Vec<Binary32>,
}

impl View for FrameBuffer {
    type V = Surface;

    open spec fn view(&self) -> Surface {
        Surface {
            width: self.texture.descriptor.width as nat,
            height: self.texture.descriptor.height as nat,
            color: self.texture.layers()[0],
            depth: self.z_buffer@,
        }
    }
}

impl FrameBuffer {
    /// The depth of a cleared pixel: 1.0, the far plane.
    pub open spec fn default_zvalue() -> Binary32 {
        Binary32::one()
    }

    /// The invariant: a well-formed color texture and a depth for each of
    /// its pixels.
    pub open spec fn wf(&self) -> bool {
        &&& self.texture.wf()
        &&& self.z_buffer.len() == self.texture.descriptor.pixel_count()
    }

    /// Decides `wf`.
    pub fn validate(&self) -> (ok: bool)
        ensures
            ok == self.wf(),
    {
        if !self.texture.validate() {
            return false;
        }
        self.z_buffer.len() == self.texture.descriptor.width * self.texture.descriptor.height
    }

    /// A frame buffer over `texture`, every depth at the far plane.
    pub fn from_texture(texture: Texture) -> (fb: FrameBuffer)
        requires
            texture.wf(),
        ensures
            fb.wf(),
            fb.texture == texture,
            fb.z_buffer@ == Seq::new(
                texture.descriptor.pixel_count(),
                |i: int| Self::default_zvalue(),
            ),
    {
        let pixels: usize = texture.descriptor.width * texture.descriptor.height;
        let z_buffer: Vec<Binary32> = vec![Binary32::new_one(); pixels];
        assert(z_buffer@ =~= Seq::new(
            texture.descriptor.pixel_count(),
            |i: int| Self::default_zvalue(),
        ));
        FrameBuffer { texture, z_buffer }
    }

    pub fn get_color_attachment(&self) -> (t: &Texture)
        ensures
            *t == self.texture,
    {
        &self.texture
    }

    /// The depth buffer as a gray image. `shades[i]` is the gray level of
    /// the depth of pixel `i`; each pixel of the result repeats it in the
    /// three color channels, with full alpha.
    pub fn get_depth_texture(&self, shades: &Vec<u8>) -> (t: Texture)
        requires
            self.wf(),
            shades.len() == self.texture.descriptor.pixel_count(),
        ensures
            t.wf(),
            t.descriptor.width == self.texture.descriptor.width,
            t.descriptor.height == self.texture.descriptor.height,
            forall|i: int|
                0 <= i < shades.len() ==> #[trigger] t.pixel(0, i) == (Rgba8 {
                    r: shades[i],
                    g: shades[i],
                    b: shades[i],
                    a: 255,
                }),
    {
        let width = self.get_color_attachment().descriptor.width;
        let height = self.get_color_attachment().descriptor.height;
        let descriptor = TextureDescriptor {
            width,
            height,
            array_size: 1,
            format: ETextureFormat::R8g8b8a8Unorm,
            texture_type: ETextureType::Dim2D,
        };
        let mut texture = Texture::new(descriptor);
        let count: usize = width * height;
        let mut index: usize = 0;
        while index < count
            invariant
                index <= count,
                count == descriptor.pixel_count(),
                count == shades.len(),
                texture.wf(),
                texture.descriptor == descriptor,
                forall|i: int|
                    0 <= i < index ==> #[trigger] texture.pixel(0, i) == (Rgba8 {
                        r: shades[i],
                        g: shades[i],
                        b: shades[i],
                        a: 255,
                    }),
            decreases count - index,
        {
            let shade = shades[index];
            let gray = Rgba8 { r: shade, g: shade, b: shade, a: 255 };
            let ghost before = texture;
            texture.set_pixel(index, &gray);
            assert forall|i: int| 0 <= i < index + 1 implies #[trigger] texture.pixel(0, i) == (
            Rgba8 { r: shades[i], g: shades[i], b: shades[i], a: 255 }) by {
                if i < index {
                    assert(before.pixel(0, i) == (Rgba8 {
                        r: shades[i],
                        g: shades[i],
                        b: shades[i],
                        a: 255,
                    }));
                }
            }
            index += 1;
        }
        texture
    }
}

} // verus!

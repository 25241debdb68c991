//! Textures: a descriptor and the byte buffers it describes, with
//! nearest-texel reads and explicit writers.
use crate::color::Rgba8;
use crate::outside::{flip_rows, min_usize};
use vstd::prelude::*;

verus! {

#[derive(PartialEq, Eq, Structural, Debug, Clone, Copy)]
pub enum ETextureType {
    Dim2D,
}

#[derive(PartialEq, Eq, Structural, Debug, Clone, Copy)]
pub enum ETextureFormat {
    R8g8b8a8Unorm,
}

#[derive(Debug, Clone, Copy)]
pub struct TextureDescriptor {
    pub width: usize,
    pub height: usize,
    pub array_size: usize,
    pub format: ETextureFormat,
    pub texture_type: ETextureType,
}

impl TextureDescriptor {
    /// Bytes per pixel of the one supported format.
    pub open spec fn channels(&self) -> nat {
        4
    }

    /// The number of pixels of one layer.
    pub open spec fn pixel_count(&self) -> nat {
        (self.width * self.height) as nat
    }

    /// The length of each layer's buffer.
    pub open spec fn buffer_len(&self) -> nat {
        4 * self.pixel_count()
    }

    /// What every texture's descriptor satisfies: a positive extent, a
    /// single layer, and a layer that a buffer can hold.
    pub open spec fn is_valid(&self) -> bool {
        &&& self.width > 0
        &&& self.height > 0
        &&& self.array_size == 1
        &&& self.buffer_len() <= usize::MAX
    }

    /// Decides `is_valid`.
    pub fn validate(&self) -> (ok: bool)
        ensures
            ok == self.is_valid(),
    {
        if self.width == 0 || self.height == 0 || self.array_size != 1 {
            return false;
        }
        match self.width.checked_mul(self.height) {
            Some(pixels) => pixels.checked_mul(4).is_some(),
            None => {
                assert(self.width * self.height > usize::MAX);
                false
            },
        }
    }
}

/// The rows of `bytes`, each `row_len` long, in reverse order: row `y` of
/// the result is row `rows - 1 - y` of `bytes`.
pub open spec fn rows_reversed(bytes: Seq<u8>, row_len: int, rows: int) -> Seq<u8> {
    Seq::new(bytes.len(), |k: int| bytes[(rows - 1 - k / row_len) * row_len + k % row_len])
}

#[derive(Debug)]
pub struct Texture {
    pub buffers: Vec<Box<Vec<u8>>>,
    pub descriptor: TextureDescriptor,
}

impl Texture {
    /// The layers' contents.
    pub open spec fn layers(&self) -> Seq<Seq<u8>> {
        Seq::new(self.buffers.len() as nat, |i: int| self.buffers[i]@)
    }

    /// The texture's invariant: a valid descriptor, and one buffer of the
    /// described length for each layer.
    pub open spec fn wf(&self) -> bool {
        &&& self.descriptor.is_valid()
        &&& self.layers().len() == self.descriptor.array_size
        &&& forall|i: int|
            0 <= i < self.layers().len() ==> #[trigger] self.layers()[i].len()
                == self.descriptor.buffer_len()
    }

    /// The pixel at `index` of layer `layer`, counted row by row from the
    /// top left.
    pub open spec fn pixel(&self, layer: int, index: int) -> Rgba8 {
        Rgba8 {
            r: self.layers()[layer][4 * index],
            g: self.layers()[layer][4 * index + 1],
            b: self.layers()[layer][4 * index + 2],
            a: self.layers()[layer][4 * index + 3],
        }
    }

    pub fn get_channels(&self) -> (n: usize)
        ensures
            n == self.descriptor.channels(),
    {
        match self.descriptor.format {
            ETextureFormat::R8g8b8a8Unorm => 4,
        }
    }

    /// A zeroed texture of the described extent.
    pub fn new(descriptor: TextureDescriptor) -> (t: Texture)
        requires
            descriptor.is_valid(),
        ensures
            t.wf(),
            t.descriptor == descriptor,
            forall|l: int, k: int|
                0 <= l < t.layers().len() && 0 <= k < descriptor.buffer_len()
                    ==> #[trigger] t.layers()[l][k] == 0,
    {
        let mut buffers: Vec<Box<Vec<u8>>> = Vec::new();
        let pixels: usize = descriptor.width * descriptor.height;
        let len: usize = 4 * pixels;
        let mut i: usize = 0;
        while i < descriptor.array_size
            invariant
                i <= descriptor.array_size,
                buffers.len() == i,
                len == descriptor.buffer_len(),
                forall|l: int|
                    0 <= l < i ==> (#[trigger] buffers[l])@ =~= Seq::new(len as nat, |k: int| 0u8),
            decreases descriptor.array_size - i,
        {
            let buffer: Vec<u8> = vec![0u8; len];
            buffers.push(Box::new(buffer));
            i += 1;
        }
        let t = Texture { buffers, descriptor };
        assert(t.layers().len() == descriptor.array_size);
        assert forall|l: int| 0 <= l < t.layers().len() implies #[trigger] t.layers()[l].len()
            == descriptor.buffer_len() by {
            assert(t.layers()[l] == t.buffers[l]@);
        }
        t
    }

    /// Whether `buffers` are what a texture of this descriptor holds.
    pub open spec fn fits(buffers: Seq<Seq<u8>>, descriptor: TextureDescriptor) -> bool {
        &&& descriptor.is_valid()
        &&& buffers.len() == descriptor.array_size
        &&& forall|i: int|
            0 <= i < buffers.len() ==> #[trigger] buffers[i].len() == descriptor.buffer_len()
    }

    /// Decides `fits`, for a caller that must test before `from_buffers`.
    pub fn buffers_fit(buffers: &Vec<Box<Vec<u8>>>, descriptor: &TextureDescriptor) -> (ok:
        bool)
        ensures
            ok == Self::fits(Seq::new(buffers.len() as nat, |i: int| buffers[i]@), *descriptor),
    {
        let ghost model = Seq::new(buffers.len() as nat, |i: int| buffers[i]@);
        if !descriptor.validate() || buffers.len() != descriptor.array_size {
            return false;
        }
        let len: usize = 4 * (descriptor.width * descriptor.height);
        let mut i: usize = 0;
        while i < buffers.len()
            invariant
                i <= buffers.len(),
                model == Seq::new(buffers.len() as nat, |i: int| buffers[i]@),
                len == descriptor.buffer_len(),
                forall|l: int| 0 <= l < i ==> #[trigger] model[l].len() == len,
            decreases buffers.len() - i,
        {
            if buffers[i].len() != len {
                assert(model[i as int].len() != descriptor.buffer_len());
                return false;
            }
            i += 1;
        }
        true
    }

    /// Decides `wf`: through the public fields and `get_mut_buffers` a
    /// caller can break the invariant, and can ask here whether it has.
    pub fn validate(&self) -> (ok: bool)
        ensures
            ok == self.wf(),
    {
        assert(self.layers() =~= Seq::new(self.buffers.len() as nat, |i: int| self.buffers[i]@));
        Self::buffers_fit(&self.buffers, &self.descriptor)
    }

    /// The texture that owns `buffers`.
    pub fn from_buffers(buffers: Vec<Box<Vec<u8>>>, descriptor: TextureDescriptor) -> (t: Texture)
        requires
            Self::fits(Seq::new(buffers.len() as nat, |i: int| buffers[i]@), descriptor),
        ensures
            t.wf(),
            t.descriptor == descriptor,
            t.buffers == buffers,
    {
        Texture { buffers, descriptor }
    }

    pub fn get_buffers(&self) -> (b: &Vec<Box<Vec<u8>>>)
        ensures
            *b == self.buffers,
    {
        &self.buffers
    }

    /// The buffers, for writing. Nothing keeps the caller from breaking
    /// `wf` through them.
    pub fn get_mut_buffers(&mut self) -> (b: &mut Vec<Box<Vec<u8>>>)
        ensures
            *b == old(self).buffers,
            final(self).buffers == *final(b),
            final(self).descriptor == old(self).descriptor,
    {
        &mut self.buffers
    }

    /// The index of the texel nearest to column `col` and row `row`, each
    /// held to the last column and row.
    pub open spec fn texel_index(&self, col: int, row: int) -> int {
        let x = if col <= self.descriptor.width - 1 { col } else { self.descriptor.width - 1 };
        let y = if row <= self.descriptor.height - 1 { row } else { self.descriptor.height - 1 };
        y * self.descriptor.width + x
    }

    /// Nearest-texel read of layer `layer`. `col` and `row` are the texture
    /// coordinates scaled by the extent and truncated; beyond the last
    /// column or row they read the last.
    pub fn sample(&self, col: usize, row: usize, layer: usize) -> (c: Rgba8)
        requires
            self.wf(),
            layer < self.descriptor.array_size,
        ensures
            0 <= self.texel_index(col as int, row as int) < self.descriptor.pixel_count(),
            c == self.pixel(layer as int, self.texel_index(col as int, row as int)),
    {
        let width = self.descriptor.width;
        let height = self.descriptor.height;
        let x = min_usize(col, width - 1);
        let y = min_usize(row, height - 1);
        assert(0 <= y * width + x < width * height) by (nonlinear_arith)
            requires
                0 <= x < width,
                0 <= y < height,
        ;
        let index = (y * width + x) * self.get_channels();
        assert(self.layers()[layer as int] == self.buffers[layer as int]@);
        let buffer = &self.buffers[layer];
        Rgba8 {
            r: buffer[index],
            g: buffer[index + 1],
            b: buffer[index + 2],
            a: buffer[index + 3],
        }
    }

    /// `buffer` with the four bytes of pixel `index` replaced by `color`.
    pub open spec fn buffer_with_pixel(buffer: Seq<u8>, index: int, color: Rgba8) -> Seq<u8> {
        buffer.update(4 * index, color.r).update(4 * index + 1, color.g).update(
            4 * index + 2,
            color.b,
        ).update(4 * index + 3, color.a)
    }

    /// Writes `color` to pixel `index` of the first layer; an index past
    /// the last pixel writes nothing.
    pub fn set_pixel(&mut self, index: usize, color: &Rgba8)
        requires
            old(self).wf(),
        ensures
            final(self).wf(),
            final(self).descriptor == old(self).descriptor,
            index < old(self).descriptor.pixel_count() ==> final(self).layers() =~= seq![
                Self::buffer_with_pixel(old(self).layers()[0], index as int, *color),
            ],
            index >= old(self).descriptor.pixel_count() ==> final(self).layers() == old(
                self,
            ).layers(),
    {
        let max_index = self.descriptor.width * self.descriptor.height;
        if index < max_index {
            assert(self.layers()[0] == self.buffers[0]@);
            let buffer: &mut Vec<u8> = &mut **(&mut self.buffers[0]);
            buffer[index * 4] = color.r;
            buffer[index * 4 + 1] = color.g;
            buffer[index * 4 + 2] = color.b;
            buffer[index * 4 + 3] = color.a;
            assert(self.layers()[0] == self.buffers[0]@);
        }
    }

    /// Reading at the origin gives the first pixel of the buffer, and
    /// reading at the far corner, whose scaled coordinates are the width
    /// and the height, gives the last.
    pub proof fn corners_read_exactly(&self)
        requires
            self.wf(),
        ensures
            self.texel_index(0, 0) == 0,
            self.texel_index(self.descriptor.width as int, self.descriptor.height as int)
                == self.descriptor.pixel_count() - 1,
            self.pixel(0, self.texel_index(0, 0)) == (Rgba8 {
                r: self.layers()[0][0],
                g: self.layers()[0][1],
                b: self.layers()[0][2],
                a: self.layers()[0][3],
            }),
            self.pixel(
                0,
                self.texel_index(self.descriptor.width as int, self.descriptor.height as int),
            ) == (Rgba8 {
                r: self.layers()[0][self.layers()[0].len() - 4],
                g: self.layers()[0][self.layers()[0].len() - 3],
                b: self.layers()[0][self.layers()[0].len() - 2],
                a: self.layers()[0][self.layers()[0].len() - 1],
            }),
    {
        let w = self.descriptor.width as int;
        let h = self.descriptor.height as int;
        assert((h - 1) * w + (w - 1) == w * h - 1 && 0 * w == 0) by (nonlinear_arith);
    }

    /// The texture of a decoded image: `bytes` holds `width * height`
    /// pixels row by row from the top, and `is_flipv` asks for the rows in
    /// reverse order. Without a pixel, or with a buffer of another length,
    /// there is no texture.
    pub fn from_image(width: u32, height: u32, bytes: Vec<u8>, is_flipv: bool) -> (t: Option<
        Texture,
    >)
        ensures
            t is Some <==> width > 0 && height > 0 && bytes.len() == 4 * width * height,
            t matches Some(texture) ==> {
                &&& texture.wf()
                &&& texture.descriptor.width == width
                &&& texture.descriptor.height == height
                &&& texture.layers()[0] == if is_flipv {
                    rows_reversed(bytes@, 4 * width, height as int)
                } else {
                    bytes@
                }
            },
    {
        if width == 0 || height == 0 {
            return None;
        }
        assert(width * height <= 0xFFFF_FFFF * 0xFFFF_FFFF && 4 * width * height == 4 * (width
            * height)) by (nonlinear_arith)
            requires
                0 <= width <= 0xFFFF_FFFF,
                0 <= height <= 0xFFFF_FFFF,
        ;
        let pixels: u64 = (width as u64) * (height as u64);
        if pixels > 0x3FFF_FFFF_FFFF_FFFF || (bytes.len() as u64) != 4 * pixels {
            return None;
        }
        let descriptor = TextureDescriptor {
            width: width as usize,
            height: height as usize,
            array_size: 1,
            format: ETextureFormat::R8g8b8a8Unorm,
            texture_type: ETextureType::Dim2D,
        };
        let rows: Vec<u8> = if is_flipv {
            match flip_rows(width, height, bytes) {
                Some(flipped) => flipped,
                None => { return None; },
            }
        } else {
            bytes
        };
        let mut buffers: Vec<Box<Vec<u8>>> = Vec::new();
        buffers.push(Box::new(rows));
        let texture = Texture { buffers, descriptor };
        assert(texture.layers()[0] == rows@);
        Some(texture)
    }
}

} // verus!

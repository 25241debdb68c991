//! The renderer: it owns the frame buffer and is its only writer.
use crate::binary32::Binary32;
use crate::color::Rgba8;
use crate::depth_cmp::EDepthCmpFunc;
use crate::error::DrawError;
use crate::frame_buffer::{FrameBuffer, Surface};
use crate::graphics_pipeline::{EFaceCullingMode, GraphicsPipeline};
use crate::shader::{LayoutError, RasterizationData, Shader, ShaderVertexData};
use crate::texture::{Texture, TextureDescriptor};
use vstd::prelude::*;

verus! {

/// One candidate write of a rasterized triangle: the viewport pixel that
/// its sample falls on (none for a sample outside the viewport), the
/// depth interpolated there and the shaded color.
#[derive(Clone, Copy, Debug)]
pub struct RenderResult {
    pub pixel: Option<(usize, usize)>,
    pub depth: Binary32,
    pub color: Rgba8,
}

/// The first `n` of `items`.
pub open spec fn first_n<T>(items: Seq<T>, n: usize) -> Seq<T> {
    items.take(n as int)
}

/// The first `n + 1` items are the first `n` and then item `n`.
pub proof fn first_n_step<T>(items: Seq<T>, n: usize)
    requires
        n < items.len(),
        n < usize::MAX,
    ensures
        first_n(items, (n + 1) as usize).drop_last() == first_n(items, n),
        first_n(items, (n + 1) as usize).last() == items[n as int],
        first_n(items, (n + 1) as usize).len() == n + 1,
{
    assert(first_n(items, (n + 1) as usize).drop_last() =~= first_n(items, n));
}

impl Surface {
    /// The depth test and write of one candidate. A candidate without a
    /// pixel, or whose pixel lies past the last one, changes nothing. Else
    /// the candidate's depth is held against the stored one: on a pass it
    /// replaces the stored depth and `color` the stored color, on a fail
    /// nothing changes.
    pub open spec fn depth_write(
        self,
        pixel: Option<(usize, usize)>,
        depth: Binary32,
        color: Rgba8,
        mode: EDepthCmpFunc,
    ) -> Surface {
        match pixel {
            Some((wi, hi)) => {
                let index = self.pixel_index(wi, hi);
                if index < self.pixel_count() && mode.passes(depth, self.depth[index]) {
                    Surface { depth: self.depth.update(index, depth), ..self }.with_color(
                        index,
                        color,
                    )
                } else {
                    self
                }
            },
            None => self,
        }
    }

    /// The surface after the candidates of one triangle, in their order.
    pub open spec fn commit(self, candidates: Seq<RenderResult>, mode: EDepthCmpFunc) -> Surface
        decreases candidates.len(),
    {
        if candidates.len() == 0 {
            self
        } else {
            let last = candidates.last();
            self.commit(candidates.drop_last(), mode).depth_write(
                last.pixel,
                last.depth,
                last.color,
                mode,
            )
        }
    }

    /// The surface after the candidates of each triangle in turn.
    pub open spec fn commit_all(self, batches: Seq<Seq<RenderResult>>, mode: EDepthCmpFunc)
        -> Surface
        decreases batches.len(),
    {
        if batches.len() == 0 {
            self
        } else {
            self.commit_all(batches.drop_last(), mode).commit(batches.last(), mode)
        }
    }
}

/// The candidate lists of `batches`, as mathematics.
pub open spec fn batches_view(batches: &Vec<Vec<RenderResult>>) -> Seq<Seq<RenderResult>> {
    Seq::new(batches.len() as nat, |i: int| batches[i]@)
}

/// The number of elements of a draw call: its indices, or its vertices
/// where it has no indices.
pub open spec fn element_count(vertex_count: usize, indices: Option<Seq<u32>>) -> nat {
    match indices {
        Some(list) => list.len(),
        None => vertex_count as nat,
    }
}

/// The vertex that element `k` names: the index at `k`, or `k` itself
/// where there are no indices.
pub open spec fn element(indices: Option<Seq<u32>>, k: int) -> int {
    match indices {
        Some(list) => list[k] as int,
        None => k,
    }
}

/// What `assemble_triangles` returns for a draw call.
pub open spec fn assembly_verdict(
    vertex_count: usize,
    indices: Option<Seq<u32>>,
    r: Result<Vec<(usize, usize, usize)>, DrawError>,
) -> bool {
    let count = element_count(vertex_count, indices);
    match r {
        Ok(triangles) => {
            &&& count % 3 == 0
            &&& triangles.len() == count / 3
            &&& forall|k: int| 0 <= k < count ==> 0 <= #[trigger] element(indices, k) < vertex_count
            &&& forall|i: int|
                0 <= i < triangles.len() ==> (#[trigger] triangles[i]) == (
                    element(indices, 3 * i) as usize,
                    element(indices, 3 * i + 1) as usize,
                    element(indices, 3 * i + 2) as usize,
                )
        },
        Err(DrawError::PartialTriangle { count: reported }) => {
            &&& count % 3 != 0
            &&& reported == count
        },
        Err(DrawError::VertexOutOfRange { triangle, corner, index }) => {
            &&& count % 3 == 0
            &&& corner < 3
            &&& 3 * triangle + corner < count
            &&& index == element(indices, 3 * triangle + corner)
            &&& index >= vertex_count
            &&& forall|k: int|
                0 <= k < 3 * triangle + corner ==> 0 <= #[trigger] element(indices, k)
                    < vertex_count
        },
    }
}

/// The indices as mathematics.
pub open spec fn indices_view(index_buffer: Option<&Vec<u32>>) -> Option<Seq<u32>> {
    match index_buffer {
        Some(list) => Some(list@),
        None => None,
    }
}

pub struct Renderer {
    pub frame_buffer: FrameBuffer,
}

impl View for Renderer {
    type V = Surface;

    open spec fn view(&self) -> Surface {
        self.frame_buffer@
    }
}

impl Renderer {
    pub open spec fn wf(&self) -> bool {
        self.frame_buffer.wf()
    }

    /// Decides `wf`.
    pub fn validate(&self) -> (ok: bool)
        ensures
            ok == self.wf(),
    {
        self.frame_buffer.validate()
    }

    /// A renderer over a fresh target: every color byte 0, every depth at
    /// the far plane.
    pub fn from_texture_descriptor(descriptor: TextureDescriptor) -> (r: Renderer)
        requires
            descriptor.is_valid(),
        ensures
            r.wf(),
            r.frame_buffer.texture.descriptor == descriptor,
            r@.color == Seq::new(descriptor.buffer_len(), |k: int| 0u8),
            r@.depth == Seq::new(descriptor.pixel_count(), |i: int| FrameBuffer::default_zvalue()),
    {
        let texture = Texture::new(descriptor);
        assert(texture.layers()[0] =~= Seq::new(descriptor.buffer_len(), |k: int| 0u8));
        Renderer { frame_buffer: FrameBuffer::from_texture(texture) }
    }

    pub fn get_frame_buffer(&self) -> (fb: &FrameBuffer)
        ensures
            *fb == self.frame_buffer,
    {
        &self.frame_buffer
    }

    pub fn get_back_buffer_width_height(&self) -> (extent: (usize, usize))
        ensures
            extent.0 == self@.width,
            extent.1 == self@.height,
    {
        (self.frame_buffer.texture.descriptor.width, self.frame_buffer.texture.descriptor.height)
    }

    /// Colors every pixel `color`; without a color, zeroes every byte.
    pub fn clear_color(&mut self, color: Option<&Rgba8>)
        requires
            old(self).wf(),
        ensures
            final(self).wf(),
            final(self)@ == old(self)@.filled(
                match color {
                    Some(c) => *c,
                    None => (Rgba8 { r: 0, g: 0, b: 0, a: 0 }),
                },
            ),
    {
        let (width, height) = self.get_back_buffer_width_height();
        let fill: Rgba8 = match color {
            Some(c) => *c,
            None => Rgba8 { r: 0, g: 0, b: 0, a: 0 },
        };
        let count: usize = width * height;
        let mut index: usize = 0;
        while index < count
            invariant
                index <= count,
                count == old(self)@.pixel_count(),
                self.wf(),
                self@.width == old(self)@.width,
                self@.height == old(self)@.height,
                self@.depth == old(self)@.depth,
                forall|k: int| 0 <= k < 4 * index ==> #[trigger] self@.color[k] == fill.bytes()[k % 4],
            decreases count - index,
        {
            let ghost before = self@.color;
            self.frame_buffer.texture.set_pixel(index, &fill);
            assert forall|k: int| 0 <= k < 4 * (index + 1) implies #[trigger] self@.color[k]
                == fill.bytes()[k % 4] by {
                assert(self@.color == Texture::buffer_with_pixel(before, index as int, fill));
                if k < 4 * index {
                    assert(before[k] == fill.bytes()[k % 4]);
                }
            }
            index += 1;
        }
        assert(self@.color =~= old(self)@.filled(fill).color);
    }

    /// Sets every depth to `value`; without a value, to the far plane.
    pub fn clear_depth(&mut self, value: Option<Binary32>)
        requires
            old(self).wf(),
        ensures
            final(self).wf(),
            final(self)@ == old(self)@.with_depth(
                match value {
                    Some(v) => v,
                    None => FrameBuffer::default_zvalue(),
                },
            ),
    {
        let fill: Binary32 = match value {
            Some(v) => v,
            None => Binary32::new_one(),
        };
        let count: usize = self.frame_buffer.z_buffer.len();
        let mut index: usize = 0;
        while index < count
            invariant
                index <= count,
                count == self.frame_buffer.z_buffer.len(),
                self.frame_buffer.texture == old(self).frame_buffer.texture,
                self.frame_buffer.z_buffer.len() == old(self).frame_buffer.z_buffer.len(),
                forall|i: int| 0 <= i < index ==> #[trigger] self.frame_buffer.z_buffer[i] == fill,
            decreases count - index,
        {
            self.frame_buffer.z_buffer[index] = fill;
            index += 1;
        }
        assert(self@.depth =~= old(self)@.with_depth(fill).depth);
    }

    /// Colors pixel `index`; an index past the last pixel is skipped.
    pub fn set_color_by_index(&mut self, index: usize, color: &Rgba8)
        requires
            old(self).wf(),
        ensures
            final(self).wf(),
            final(self)@ == old(self)@.with_color(index as int, *color),
    {
        self.frame_buffer.texture.set_pixel(index, color);
    }

    /// Colors the pixel in column `wi` of row `hi`. Where the pixel's
    /// index, `hi * width + wi`, is past the last pixel, nothing is
    /// written.
    pub fn set_color_by_whi_viewport(&mut self, wi: usize, hi: usize, color: &Rgba8)
        requires
            old(self).wf(),
        ensures
            final(self).wf(),
            final(self)@ == old(self)@.with_color(old(self)@.pixel_index(wi, hi), *color),
    {
        let (width, _) = self.get_back_buffer_width_height();
        match hi.checked_mul(width) {
            Some(row_start) => match row_start.checked_add(wi) {
                Some(index) => {
                    self.set_color_by_index(index, color);
                },
                None => {},
            },
            None => {},
        }
    }

    /// Colors the viewport pixel that a point falls on; a point outside
    /// the viewport has none and is skipped.
    pub fn set_color_by_point_ndc(&mut self, pixel: Option<(usize, usize)>, color: &Rgba8)
        requires
            old(self).wf(),
        ensures
            final(self).wf(),
            final(self)@ == match pixel {
                Some((wi, hi)) => old(self)@.with_color(old(self)@.pixel_index(wi, hi), *color),
                None => old(self)@,
            },
    {
        match pixel {
            Some((wi, hi)) => {
                self.set_color_by_whi_viewport(wi, hi, color);
            },
            None => {},
        }
    }

    /// The depth test and write of one candidate.
    pub fn set_color_depth_func(
        &mut self,
        pixel: Option<(usize, usize)>,
        depth: Binary32,
        color: &Rgba8,
        depth_cmp_func: &EDepthCmpFunc,
    )
        requires
            old(self).wf(),
        ensures
            final(self).wf(),
            final(self)@ == old(self)@.depth_write(pixel, depth, *color, *depth_cmp_func),
    {
        let (width, _) = self.get_back_buffer_width_height();
        match pixel {
            Some((wi, hi)) => {
                match hi.checked_mul(width) {
                    Some(row_start) => match row_start.checked_add(wi) {
                        Some(index) => {
                            if index < self.frame_buffer.z_buffer.len() {
                                let stored: Binary32 = self.frame_buffer.z_buffer[index];
                                if depth_cmp_func.test(depth, stored) {
                                    self.frame_buffer.z_buffer[index] = depth;
                                    self.set_color_by_whi_viewport(wi, hi, color);
                                }
                            }
                        },
                        None => {},
                    },
                    None => {},
                }
            },
            None => {},
        }
    }

    /// Commits the candidates of one triangle, in their order.
    pub fn write_candidates(
        &mut self,
        candidates: &Vec<RenderResult>,
        depth_cmp_func: &EDepthCmpFunc,
    )
        requires
            old(self).wf(),
        ensures
            final(self).wf(),
            final(self)@ == old(self)@.commit(candidates@, *depth_cmp_func),
    {
        let mut i: usize = 0;
        while i < candidates.len()
            invariant
                i <= candidates.len(),
                self.wf(),
                self@ == old(self)@.commit(first_n(candidates@, i), *depth_cmp_func),
            decreases candidates.len() - i,
        {
            let candidate = candidates[i];
            proof {
                first_n_step(candidates@, i);
            }
            self.set_color_depth_func(
                candidate.pixel,
                candidate.depth,
                &candidate.color,
                depth_cmp_func,
            );
            i += 1;
        }
        assert(first_n(candidates@, i) =~= candidates@);
    }

    /// Commits the candidates of a draw call's triangles, triangle by
    /// triangle in the order given, under the pipeline's depth test.
    pub fn render_graphics_pipeline<S>(
        &mut self,
        graphics_pipeline: &GraphicsPipeline<S>,
        batches: &Vec<Vec<RenderResult>>,
    )
        requires
            old(self).wf(),
        ensures
            final(self).wf(),
            final(self)@ == old(self)@.commit_all(
                batches_view(batches),
                graphics_pipeline.depth_cmp_func,
            ),
    {
        let mut i: usize = 0;
        while i < batches.len()
            invariant
                i <= batches.len(),
                self.wf(),
                self@ == old(self)@.commit_all(
                    first_n(batches_view(batches), i),
                    graphics_pipeline.depth_cmp_func,
                ),
            decreases batches.len() - i,
        {
            proof {
                first_n_step(batches_view(batches), i);
            }
            self.write_candidates(&batches[i], &graphics_pipeline.depth_cmp_func);
            i += 1;
        }
        assert(first_n(batches_view(batches), i) =~= batches_view(batches));
    }

    /// Whether a triangle of the given facing goes on to rasterization
    /// under the culling mode.
    pub fn is_pass_face_culling(facing: bool, face_culling_mode: &EFaceCullingMode) -> (pass: bool)
        ensures
            pass == face_culling_mode.keeps(facing),
    {
        match face_culling_mode {
            EFaceCullingMode::Neither => true,
            EFaceCullingMode::Front => facing,
            EFaceCullingMode::Back => !facing,
        }
    }

    /// Groups a draw call's elements into triangles: three elements each,
    /// every corner given as its place in the vertex buffer. Refused are
    /// an element count that is no multiple of three and, after that, the
    /// first index that names no vertex.
    pub fn assemble_triangles(vertex_count: usize, index_buffer: Option<&Vec<u32>>) -> (r: Result<
        Vec<(usize, usize, usize)>,
        DrawError,
    >)
        ensures
            assembly_verdict(vertex_count, indices_view(index_buffer), r),
    {
        let ghost indices = indices_view(index_buffer);
        let count: usize = match index_buffer {
            Some(list) => list.len(),
            None => vertex_count,
        };
        if count % 3 != 0 {
            return Err(DrawError::PartialTriangle { count });
        }
        let triangle_count: usize = count / 3;
        let mut triangles: Vec<(usize, usize, usize)> = Vec::new();
        let mut i: usize = 0;
        while i < triangle_count
            invariant
                i <= triangle_count,
                count == element_count(vertex_count, indices),
                indices == indices_view(index_buffer),
                count % 3 == 0,
                triangle_count == count / 3,
                triangles.len() == i,
                forall|k: int| 0 <= k < 3 * i ==> 0 <= #[trigger] element(indices, k) < vertex_count,
                forall|t: int|
                    0 <= t < i ==> (#[trigger] triangles[t]) == (
                        element(indices, 3 * t) as usize,
                        element(indices, 3 * t + 1) as usize,
                        element(indices, 3 * t + 2) as usize,
                    ),
            decreases triangle_count - i,
        {
            let mut corners: [usize; 3] = [0, 0, 0];
            let mut corner: usize = 0;
            while corner < 3
                invariant
                    corner <= 3,
                    i < triangle_count,
                    count == element_count(vertex_count, indices),
                    indices == indices_view(index_buffer),
                    count % 3 == 0,
                    triangle_count == count / 3,
                    forall|k: int|
                        0 <= k < 3 * i + corner ==> 0 <= #[trigger] element(indices, k)
                            < vertex_count,
                    forall|j: int|
                        0 <= j < corner ==> (#[trigger] corners[j]) == element(indices, 3 * i + j),
                decreases 3 - corner,
            {
                let k: usize = i * 3 + corner;
                let vertex: usize = match index_buffer {
                    Some(list) => list[k] as usize,
                    None => k,
                };
                if vertex >= vertex_count {
                    return Err(DrawError::VertexOutOfRange { triangle: i, corner, index: vertex });
                }
                corners[corner] = vertex;
                corner += 1;
            }
            triangles.push((corners[0], corners[1], corners[2]));
            i += 1;
        }
        Ok(triangles)
    }

    /// Whether `r` is what the vertex stage returns where the shader's
    /// vertex stage gave `outputs` for the three vertices, in their
    /// order: the outputs themselves where their attribute lists agree in
    /// layout, and else the first disagreement of the three layouts.
    pub open spec fn vertex_stage_verdict<T: ShaderVertexData, S: Shader<T> + ?Sized>(
        shader: &S,
        a: &T,
        b: &T,
        c: &T,
        outputs: (RasterizationData, RasterizationData, RasterizationData),
        r: Result<(RasterizationData, RasterizationData, RasterizationData), LayoutError>,
    ) -> bool {
        &&& call_ensures(S::vertex, (shader, a), outputs.0)
        &&& call_ensures(S::vertex, (shader, b), outputs.1)
        &&& call_ensures(S::vertex, (shader, c), outputs.2)
        &&& match r {
            Ok(data) => {
                &&& data == outputs
                &&& outputs.0.layout() == outputs.1.layout()
                &&& outputs.1.layout() == outputs.2.layout()
            },
            Err(error) => RasterizationData::layout_verdict(
                outputs.0.layout(),
                outputs.1.layout(),
                outputs.2.layout(),
                Err(error),
            ),
        }
    }

    /// The vertex stage of one triangle: the shader runs on each of the
    /// three vertices, and the three attribute lists are held against
    /// each other. Where they agree in layout the three outputs come
    /// back; where they do not, the first disagreement does.
    pub fn vertex_stage<T: ShaderVertexData, S: Shader<T> + ?Sized>(
        shader: &S,
        a: &T,
        b: &T,
        c: &T,
    ) -> (r: Result<(RasterizationData, RasterizationData, RasterizationData), LayoutError>)
        ensures
            r matches Ok(data) ==> data.0.layout() == data.1.layout() && data.1.layout()
                == data.2.layout(),
            exists|outputs: (RasterizationData, RasterizationData, RasterizationData)|
                Self::vertex_stage_verdict(shader, a, b, c, outputs, r),
    {
        let data_a = shader.vertex(a);
        let data_b = shader.vertex(b);
        let data_c = shader.vertex(c);
        let ghost outputs = (data_a, data_b, data_c);
        match RasterizationData::compare_layouts(&data_a, &data_b, &data_c) {
            Ok(_) => {
                let r = Ok((data_a, data_b, data_c));
                assert(Self::vertex_stage_verdict(shader, a, b, c, outputs, r));
                r
            },
            Err(error) => {
                let r = Err(error);
                assert(Self::vertex_stage_verdict(shader, a, b, c, outputs, r));
                r
            },
        }
    }
}

} // verus!

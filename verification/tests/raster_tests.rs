use sr::binary32::Binary32;
use sr::color::Rgba8;
use sr::depth_cmp::EDepthCmpFunc;
use sr::graphics_pipeline::{EFaceCullingMode, GraphicsPipeline};
use sr::renderer::{RenderResult, Renderer};
use sr::shader::{EShaderAttribute, RasterizationData};
use sr::texture::{ETextureFormat, ETextureType, TextureDescriptor};

fn b(x: f32) -> Binary32 {
    Binary32::from_bits(x.to_bits())
}

fn f(x: Binary32) -> f32 {
    f32::from_bits(x.to_bits())
}

fn values(attribute: &EShaderAttribute) -> Vec<f32> {
    match attribute {
        EShaderAttribute::Vec4(v) => v.iter().map(|x| f(*x)).collect(),
        EShaderAttribute::Vec3(v) => v.iter().map(|x| f(*x)).collect(),
        EShaderAttribute::Vec2(v) => v.iter().map(|x| f(*x)).collect(),
        EShaderAttribute::Vec1(v) => v.iter().map(|x| f(*x)).collect(),
    }
}

fn weighted(w1: f32, w2: f32, w3: f32) -> impl Fn(Binary32, Binary32, Binary32) -> Binary32 {
    move |x, y, z| b(f(x) * w1 + f(y) * w2 + f(z) * w3)
}

fn tagged(column: i32, row: i32) -> RenderResult {
    RenderResult {
        pixel: Some((column as usize, row as usize)),
        depth: b(0.5),
        color: Rgba8::new(column as u8, row as u8, 0, 255),
    }
}

fn places(candidates: &Vec<RenderResult>) -> Vec<(u8, u8)> {
    candidates.iter().map(|c| (c.color.r, c.color.g)).collect()
}

#[test]
fn attribute_is_blended_component_by_component() {
    let a = EShaderAttribute::Vec4([b(1.0), b(0.0), b(0.0), b(1.0)]);
    let bb = EShaderAttribute::Vec4([b(0.0), b(1.0), b(0.0), b(1.0)]);
    let c = EShaderAttribute::Vec4([b(0.0), b(0.0), b(1.0), b(1.0)]);
    let out = EShaderAttribute::interpolate(&a, &bb, &c, &weighted(0.5, 0.25, 0.25));
    assert_eq!(out.components(), 4);
    assert_eq!(values(&out), vec![0.5, 0.25, 0.25, 1.0]);
    let out = EShaderAttribute::interpolate(&a, &bb, &c, &weighted(0.0, 0.0, 1.0));
    assert_eq!(values(&out), vec![0.0, 0.0, 1.0, 1.0]);
}

#[test]
fn attribute_keeps_its_arity() {
    let one = weighted(1.0, 2.0, 4.0);
    let v3 = EShaderAttribute::Vec3([b(1.0), b(2.0), b(3.0)]);
    let out = EShaderAttribute::interpolate(&v3, &v3, &v3, &one);
    assert_eq!(out.components(), 3);
    assert_eq!(values(&out), vec![7.0, 14.0, 21.0]);
    let v2 = EShaderAttribute::Vec2([b(1.0), b(-1.0)]);
    let out = EShaderAttribute::interpolate(&v2, &v2, &v2, &one);
    assert_eq!(out.components(), 2);
    assert_eq!(values(&out), vec![7.0, -7.0]);
    let v1 = EShaderAttribute::Vec1([b(0.5)]);
    let out = EShaderAttribute::interpolate(&v1, &v1, &v1, &one);
    assert_eq!(out.components(), 1);
    assert_eq!(values(&out), vec![3.5]);
}

#[test]
fn attribute_lists_are_blended_slot_by_slot() {
    let data = |s: f32| RasterizationData {
        position: [b(0.0), b(0.0), b(0.0), b(1.0)],
        attributes: vec![
            EShaderAttribute::Vec2([b(s), b(2.0 * s)]),
            EShaderAttribute::Vec1([b(-s)]),
            EShaderAttribute::Vec3([b(s), b(s), b(0.0)]),
        ],
    };
    let out = RasterizationData::interpolate(
        &data(1.0),
        &data(2.0),
        &data(4.0),
        &weighted(0.5, 0.25, 0.25),
    );
    assert_eq!(out.len(), 3);
    assert_eq!(values(&out[0]), vec![2.0, 4.0]);
    assert_eq!(values(&out[1]), vec![-2.0]);
    assert_eq!(values(&out[2]), vec![2.0, 2.0, 0.0]);
    let none = RasterizationData { position: [b(0.0); 4], attributes: vec![] };
    assert!(RasterizationData::interpolate(&none, &none, &none, &weighted(1.0, 0.0, 0.0)).is_empty());
}

#[test]
fn grid_is_walked_row_by_row() {
    let all = |column: i32, row: i32| Some(tagged(column, row));
    let out = Renderer::render_triangle(false, true, &EFaceCullingMode::Back, (1, 4), (5, 7), &all);
    assert_eq!(places(&out), vec![(1, 5), (2, 5), (3, 5), (1, 6), (2, 6), (3, 6)]);
}

#[test]
fn samples_that_are_not_covered_give_no_candidate() {
    let lower = |column: i32, row: i32| if column <= row { Some(tagged(column, row)) } else { None };
    let out = Renderer::render_triangle(true, true, &EFaceCullingMode::Front, (0, 3), (0, 3), &lower);
    assert_eq!(places(&out), vec![(0, 0), (0, 1), (1, 1), (0, 2), (1, 2), (2, 2)]);
    let nothing = |_: i32, _: i32| None;
    let out =
        Renderer::render_triangle(true, true, &EFaceCullingMode::Neither, (0, 3), (0, 3), &nothing);
    assert!(out.is_empty());
}

#[test]
fn empty_grids_have_no_samples() {
    let all = |column: i32, row: i32| Some(tagged(column, row));
    let mode = EFaceCullingMode::Neither;
    assert!(Renderer::render_triangle(true, true, &mode, (3, 3), (0, 5), &all).is_empty());
    assert!(Renderer::render_triangle(true, true, &mode, (0, 5), (2, 2), &all).is_empty());
    assert!(Renderer::render_triangle(true, true, &mode, (4, 1), (0, 5), &all).is_empty());
    assert!(Renderer::render_triangle(true, true, &mode, (0, 5), (7, -7), &all).is_empty());
    assert_eq!(Renderer::render_triangle(true, true, &mode, (-2, 0), (-1, 0), &all).len(), 2);
}

#[test]
fn culled_and_degenerate_triangles_are_not_sampled() {
    let all = |column: i32, row: i32| Some(tagged(column, row));
    assert!(Renderer::render_triangle(true, true, &EFaceCullingMode::Back, (0, 4), (0, 4), &all)
        .is_empty());
    assert!(Renderer::render_triangle(false, true, &EFaceCullingMode::Front, (0, 4), (0, 4), &all)
        .is_empty());
    assert!(Renderer::render_triangle(false, false, &EFaceCullingMode::Back, (0, 4), (0, 4), &all)
        .is_empty());
    assert!(Renderer::render_triangle(true, false, &EFaceCullingMode::Neither, (0, 4), (0, 4), &all)
        .is_empty());
    assert_eq!(
        Renderer::render_triangle(false, true, &EFaceCullingMode::Back, (0, 4), (0, 4), &all).len(),
        16
    );
}

#[test]
fn reversed_winding_under_back_culling_leaves_the_target_cleared() {
    let descriptor = TextureDescriptor {
        width: 4,
        height: 4,
        array_size: 1,
        format: ETextureFormat::R8g8b8a8Unorm,
        texture_type: ETextureType::Dim2D,
    };
    let all = |column: i32, row: i32| Some(tagged(column, row));
    let mut pipeline = GraphicsPipeline::from_shader(());
    pipeline.face_culling_mode = EFaceCullingMode::Back;
    pipeline.depth_cmp_func = EDepthCmpFunc::Always;

    let facing = false;
    let kept =
        Renderer::render_triangle(facing, true, &pipeline.face_culling_mode, (0, 4), (0, 4), &all);
    let mut renderer = Renderer::from_texture_descriptor(descriptor);
    renderer.render_graphics_pipeline(&pipeline, &vec![kept]);
    let colors = renderer.get_frame_buffer().get_color_attachment().get_buffers()[0].clone();
    assert!(colors.chunks(4).all(|p| p[3] == 255));

    let reversed =
        Renderer::render_triangle(!facing, true, &pipeline.face_culling_mode, (0, 4), (0, 4), &all);
    let mut renderer = Renderer::from_texture_descriptor(descriptor);
    renderer.render_graphics_pipeline(&pipeline, &vec![reversed]);
    let colors = renderer.get_frame_buffer().get_color_attachment().get_buffers()[0].clone();
    assert_eq!(*colors, vec![0u8; 64]);
    assert!(renderer.get_frame_buffer().z_buffer.iter().all(|d| d.to_bits() == 1.0f32.to_bits()));
}

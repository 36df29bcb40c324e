use egui_glfw_gl::carried::Single;
use egui_glfw_gl::delta::{font_gamma, FontGamma, ImageDelta, TexturesDelta};
use egui_glfw_gl::gl::{BufferTarget, Capability, ComponentType, GlCall, GlCommand};
use egui_glfw_gl::painter::{
    narrow_indices, paints_meshes_only, scissor_rect, ClippedPrimitive, GlObjects, Mesh, Painter, PixelRect,
    Primitive, ScissorRect, COLOR_OFFSET, COLOR_SIZE, POS_OFFSET, POS_SIZE, TEX_COORDS_OFFSET,
    TEX_COORDS_SIZE, VERTEX_SIZE_BYTES,
};
use egui_glfw_gl::texture::{Color32, TextureFilter, TextureId, TextureOptions, TextureWrapMode};

const RED: Color32 = Color32 { r: 255, g: 0, b: 0, a: 255 };
const GREEN: Color32 = Color32 { r: 0, g: 255, b: 0, a: 255 };
const BLUE: Color32 = Color32 { r: 0, g: 0, b: 255, a: 255 };
const WHITE: Color32 = Color32 { r: 255, g: 255, b: 255, a: 255 };

fn objects() -> GlObjects {
    GlObjects {
        program: 1,
        vertex_array: 2,
        vertex_buffer: 3,
        index_buffer: 4,
        a_pos: 0,
        a_tc: 1,
        a_srgba: 2,
        u_screen_size: 5,
        u_sampler: 6,
    }
}

fn scale(value: f32) -> Single {
    Single { bits: value.to_bits() }
}

fn image(width: usize, height: usize, pos: Option<[usize; 2]>) -> ImageDelta {
    ImageDelta {
        size: [width, height],
        pixels: vec![WHITE; width * height],
        options: TextureOptions::linear(),
        pos,
    }
}

fn delta(set: Vec<(TextureId, ImageDelta)>, free: Vec<TextureId>) -> TexturesDelta {
    TexturesDelta { set, free }
}

fn everything() -> PixelRect {
    PixelRect { min_x: 0, min_y: 0, max_x: 800, max_y: 600 }
}

fn mesh(texture_id: TextureId, indices: Vec<u32>) -> ClippedPrimitive {
    ClippedPrimitive { clip_rect: everything(), primitive: Primitive::Mesh(Mesh { texture_id, indices }) }
}

fn setup(pixels_per_point: f32) -> Vec<GlCommand> {
    vec![
        GlCommand::Call(GlCall::Enable(Capability::FramebufferSrgb)),
        GlCommand::Call(GlCall::Enable(Capability::ScissorTest)),
        GlCommand::Call(GlCall::Enable(Capability::Blend)),
        GlCommand::Call(GlCall::BlendPremultiplied),
        GlCommand::Call(GlCall::UseProgram(1)),
        GlCommand::Call(GlCall::ActiveTextureUnit(0)),
        GlCommand::Call(GlCall::ScreenSizeUniform {
            location: 5,
            width: 800,
            height: 600,
            pixels_per_point: scale(pixels_per_point),
        }),
        GlCommand::Call(GlCall::SamplerUniform { location: 6, unit: 0 }),
        GlCommand::Call(GlCall::Viewport { width: 800, height: 600 }),
    ]
}

fn teardown() -> Vec<GlCommand> {
    vec![
        GlCommand::Call(GlCall::Disable(Capability::ScissorTest)),
        GlCommand::Call(GlCall::Disable(Capability::FramebufferSrgb)),
    ]
}

fn draw(name: u32, scissor: (u32, u32, u32, u32), primitive: usize, indices: Vec<u16>) -> Vec<GlCommand> {
    let count = indices.len();
    vec![
        GlCommand::Call(GlCall::BindTexture(name)),
        GlCommand::Call(GlCall::Scissor {
            x: scissor.0,
            y: scissor.1,
            width: scissor.2,
            height: scissor.3,
        }),
        GlCommand::Call(GlCall::BindVertexArray(2)),
        GlCommand::Call(GlCall::BindBuffer { target: BufferTarget::Array, buffer: 3 }),
        GlCommand::Call(GlCall::BufferVertices { primitive }),
        GlCommand::Call(GlCall::BindBuffer { target: BufferTarget::ElementArray, buffer: 4 }),
        GlCommand::BufferIndices(indices),
        GlCommand::Call(GlCall::VertexAttribPointer {
            location: 0,
            components: 2,
            kind: ComponentType::Real,
            stride: 20,
            offset: 0,
        }),
        GlCommand::Call(GlCall::EnableVertexAttribArray(0)),
        GlCommand::Call(GlCall::VertexAttribPointer {
            location: 1,
            components: 2,
            kind: ComponentType::Real,
            stride: 20,
            offset: 8,
        }),
        GlCommand::Call(GlCall::EnableVertexAttribArray(1)),
        GlCommand::Call(GlCall::VertexAttribPointer {
            location: 2,
            components: 4,
            kind: ComponentType::UnsignedByte,
            stride: 20,
            offset: 16,
        }),
        GlCommand::Call(GlCall::EnableVertexAttribArray(2)),
        GlCommand::Call(GlCall::DrawTriangles { count }),
        GlCommand::Call(GlCall::DisableVertexAttribArray(0)),
        GlCommand::Call(GlCall::DisableVertexAttribArray(1)),
        GlCommand::Call(GlCall::DisableVertexAttribArray(2)),
    ]
}

fn round_to_pixels(pixels_per_point: f32, min: (f32, f32), max: (f32, f32)) -> PixelRect {
    PixelRect {
        min_x: (pixels_per_point * min.0).round() as i64,
        min_y: (pixels_per_point * min.1).round() as i64,
        max_x: (pixels_per_point * max.0).round() as i64,
        max_y: (pixels_per_point * max.1).round() as i64,
    }
}

#[test]
fn vertex_layout_is_interleaved_with_a_stride_of_twenty_bytes() {
    assert_eq!(POS_OFFSET, 0);
    assert_eq!(TEX_COORDS_OFFSET, POS_OFFSET + POS_SIZE * 4);
    assert_eq!(COLOR_OFFSET, TEX_COORDS_OFFSET + TEX_COORDS_SIZE * 4);
    assert_eq!(VERTEX_SIZE_BYTES, COLOR_OFFSET + COLOR_SIZE);
    assert_eq!(VERTEX_SIZE_BYTES, 20);
}

#[test]
fn font_gamma_is_one_for_updates_and_four_tenths_for_atlases() {
    assert_eq!(font_gamma(Some([16, 32])), FontGamma::Update);
    assert_eq!(font_gamma(None), FontGamma::Atlas);
    assert_eq!(FontGamma::Update.tenths(), 10);
    assert_eq!(FontGamma::Atlas.tenths(), 4);
    assert_eq!(FontGamma::Update.tenths() as f32 / 10.0, 1.0f32);
    assert_eq!(FontGamma::Atlas.tenths() as f32 / 10.0, 0.4f32);
}

#[test]
fn clip_scissor_conversion() {
    let clip = round_to_pixels(2.0, (10.0, 5.0), (50.0, 45.0));
    assert_eq!(clip, PixelRect { min_x: 20, min_y: 10, max_x: 100, max_y: 90 });
    assert_eq!(
        scissor_rect(&clip, 800, 600),
        ScissorRect { x: 20, y: 510, width: 80, height: 80 }
    );
}

#[test]
fn scissor_is_clamped_to_the_framebuffer() {
    let clip = PixelRect { min_x: -10, min_y: -20, max_x: 900, max_y: 700 };
    assert_eq!(scissor_rect(&clip, 800, 600), ScissorRect { x: 0, y: 0, width: 800, height: 600 });
}

#[test]
fn scissor_of_a_rectangle_beyond_the_far_edge_is_empty_at_the_edge() {
    let clip = PixelRect { min_x: 900, min_y: 700, max_x: 950, max_y: 750 };
    assert_eq!(scissor_rect(&clip, 800, 600), ScissorRect { x: 800, y: 0, width: 0, height: 0 });
}

#[test]
fn scissor_maximum_is_clamped_to_the_minimum() {
    let clip = PixelRect { min_x: 100, min_y: 200, max_x: 50, max_y: 20 };
    assert_eq!(
        scissor_rect(&clip, 800, 600),
        ScissorRect { x: 100, y: 400, width: 0, height: 0 }
    );
}

#[test]
fn scissor_takes_the_extremes_of_the_pixel_range() {
    let clip = PixelRect { min_x: i64::MIN, min_y: i64::MIN, max_x: i64::MAX, max_y: i64::MAX };
    assert_eq!(
        scissor_rect(&clip, u32::MAX, u32::MAX),
        ScissorRect { x: 0, y: 0, width: u32::MAX, height: u32::MAX }
    );
    assert_eq!(scissor_rect(&clip, 0, 0), ScissorRect { x: 0, y: 0, width: 0, height: 0 });
}

#[test]
fn narrow_indices_keeps_the_low_sixteen_bits() {
    assert_eq!(narrow_indices(&vec![0, 1, 65535, 65536, 65537, u32::MAX]), vec![0, 1, 65535, 0, 1, 65535]);
    assert_eq!(narrow_indices(&vec![]), Vec::<u16>::new());
}

#[test]
fn new_painter_has_no_textures() {
    let painter = Painter::new(objects(), 800, 600);
    assert_eq!(painter.textures().len(), 0);
    assert_eq!(painter.names_needed(&delta(vec![], vec![])), 0);
}

#[test]
fn fresh_font_atlas() {
    let mut painter = Painter::new(objects(), 800, 600);
    let id = TextureId::Managed(0);
    let textures = delta(vec![(id, image(512, 512, None))], vec![]);
    let primitives = vec![mesh(id, vec![0, 1, 2])];
    assert_eq!(painter.names_needed(&textures), 1);
    let mut pool = vec![7];
    assert!(painter.frame_ready(&primitives, &textures, &pool));
    let commands = painter.paint_and_update_textures(scale(1.0), &primitives, &textures, &mut pool);
    assert!(pool.is_empty());
    let texture = painter.textures().get(id).unwrap();
    assert_eq!(texture.texture_id(), 7);
    assert_eq!(texture.size(), [512, 512]);
    assert_eq!(texture.options().magnification, TextureFilter::Linear);
    assert_eq!(texture.options().minification, TextureFilter::Linear);
    let mut expected = vec![
        GlCommand::Call(GlCall::BindTexture(7)),
        GlCommand::Call(GlCall::TextureWrapS(TextureWrapMode::ClampToEdge)),
        GlCommand::Call(GlCall::TextureWrapT(TextureWrapMode::ClampToEdge)),
        GlCommand::Call(GlCall::TextureMinFilter(TextureFilter::Linear)),
        GlCommand::Call(GlCall::TextureMagFilter(TextureFilter::Linear)),
        GlCommand::Call(GlCall::BindTexture(7)),
        GlCommand::TexImage { width: 512, height: 512, pixels: vec![255; 4 * 512 * 512] },
        GlCommand::Call(GlCall::BindTexture(0)),
    ];
    expected.extend(setup(1.0));
    expected.extend(draw(7, (0, 0, 800, 600), 0, vec![0, 1, 2]));
    expected.extend(teardown());
    assert_eq!(commands, expected);
}

#[test]
fn font_atlas_sub_update() {
    let mut painter = Painter::new(objects(), 800, 600);
    let id = TextureId::Managed(0);
    let mut pool = vec![7];
    painter.paint_and_update_textures(
        scale(1.0),
        &vec![],
        &delta(vec![(id, image(512, 512, None))], vec![]),
        &mut pool,
    );
    let update = delta(vec![(id, image(48, 48, Some([16, 32])))], vec![]);
    assert_eq!(painter.names_needed(&update), 0);
    assert!(painter.frame_ready(&vec![], &update, &pool));
    let commands = painter.paint_and_update_textures(scale(1.0), &vec![], &update, &mut pool);
    assert_eq!(painter.textures().len(), 1);
    assert_eq!(painter.textures().get(id).unwrap().texture_id(), 7);
    assert_eq!(painter.textures().get(id).unwrap().size(), [512, 512]);
    let mut expected = vec![
        GlCommand::Call(GlCall::BindTexture(7)),
        GlCommand::Call(GlCall::UnpackAlignment(1)),
        GlCommand::TexSubImage { x: 16, y: 32, width: 48, height: 48, pixels: vec![255; 4 * 48 * 48] },
        GlCommand::Call(GlCall::BindTexture(0)),
    ];
    expected.extend(setup(1.0));
    expected.extend(teardown());
    assert_eq!(commands, expected);
}

#[test]
fn user_texture_round_trip() {
    let mut painter = Painter::new(objects(), 800, 600);
    let id = painter.new_user_texture((2, 2), &[RED, GREEN, BLUE, WHITE], TextureOptions::linear());
    assert_eq!(id, TextureId::User(0));
    assert_eq!(painter.textures().get(id).unwrap().texture_id(), 0);
    assert!(painter.textures().get(id).unwrap().dirty());

    let nothing = delta(vec![], vec![]);
    assert_eq!(painter.names_needed(&nothing), 1);
    let mut pool = vec![21];
    let first = painter.paint_and_update_textures(scale(1.0), &vec![], &nothing, &mut pool);
    let mut expected = vec![
        GlCommand::Call(GlCall::BindTexture(21)),
        GlCommand::Call(GlCall::TextureWrapS(TextureWrapMode::ClampToEdge)),
        GlCommand::Call(GlCall::TextureWrapT(TextureWrapMode::ClampToEdge)),
        GlCommand::Call(GlCall::TextureMinFilter(TextureFilter::Linear)),
        GlCommand::Call(GlCall::TextureMagFilter(TextureFilter::Linear)),
        GlCommand::Call(GlCall::BindTexture(21)),
        GlCommand::TexImage {
            width: 2,
            height: 2,
            pixels: vec![255, 0, 0, 255, 0, 255, 0, 255, 0, 0, 255, 255, 255, 255, 255, 255],
        },
        GlCommand::Call(GlCall::BindTexture(0)),
    ];
    expected.extend(setup(1.0));
    expected.extend(teardown());
    assert_eq!(first, expected);
    assert_eq!(painter.textures().get(id).unwrap().texture_id(), 21);
    assert!(!painter.textures().get(id).unwrap().dirty());
    assert_eq!(painter.textures().get(id).unwrap().pending_len(), 0);

    let idle = painter.paint_and_update_textures(scale(1.0), &vec![], &nothing, &mut pool);
    let mut expected = setup(1.0);
    expected.extend(teardown());
    assert_eq!(idle, expected);

    painter.update_user_texture_data(&id, &[WHITE, WHITE, WHITE, WHITE]);
    assert!(painter.textures().get(id).unwrap().dirty());
    assert_eq!(painter.names_needed(&nothing), 0);
    let second = painter.paint_and_update_textures(scale(1.0), &vec![], &nothing, &mut pool);
    let mut expected = vec![
        GlCommand::Call(GlCall::BindTexture(21)),
        GlCommand::TexImage { width: 2, height: 2, pixels: vec![255; 16] },
        GlCommand::Call(GlCall::BindTexture(0)),
    ];
    expected.extend(setup(1.0));
    expected.extend(teardown());
    assert_eq!(second, expected);
    assert!(!painter.textures().get(id).unwrap().dirty());

    let third = painter.paint_and_update_textures(scale(1.0), &vec![], &nothing, &mut pool);
    let mut expected = setup(1.0);
    expected.extend(teardown());
    assert_eq!(third, expected);
}

#[test]
fn new_opengl_texture_adopts_the_name() {
    let mut painter = Painter::new(objects(), 800, 600);
    let id = painter.new_opengl_texture(99);
    assert_eq!(id, TextureId::User(0));
    assert_eq!(painter.textures().get(id).unwrap().texture_id(), 99);
    assert_eq!(painter.textures().get(id).unwrap().size(), [0, 0]);
    assert_eq!(painter.free_texture(id), vec![GlCommand::Call(GlCall::DeleteTexture(99))]);
    assert!(!painter.textures().contains(id));
    assert_eq!(painter.free_texture(id), Vec::<GlCommand>::new());
}

#[test]
fn set_size_moves_the_viewport_and_the_scissor() {
    let mut painter = Painter::new(objects(), 800, 600);
    let id = painter.new_opengl_texture(9);
    painter.set_size(400, 300);
    let clip = PixelRect { min_x: 10, min_y: 20, max_x: 500, max_y: 100 };
    let commands = painter.paint_mesh(0, &Mesh { texture_id: id, indices: vec![0, 1, 2] }, &clip);
    assert_eq!(
        commands[1],
        GlCommand::Call(GlCall::Scissor { x: 10, y: 200, width: 390, height: 80 })
    );
    let mut pool = vec![];
    let frame = painter.paint_primitives(scale(2.0), &vec![], &mut pool);
    assert_eq!(frame[8], GlCommand::Call(GlCall::Viewport { width: 400, height: 300 }));
    assert_eq!(
        frame[6],
        GlCommand::Call(GlCall::ScreenSizeUniform {
            location: 5,
            width: 400,
            height: 300,
            pixels_per_point: scale(2.0),
        })
    );
}

#[test]
fn paint_mesh_skips_an_unknown_texture() {
    let painter = Painter::new(objects(), 800, 600);
    let commands = painter.paint_mesh(
        0,
        &Mesh { texture_id: TextureId::User(3), indices: vec![0, 1, 2] },
        &everything(),
    );
    assert_eq!(commands, Vec::<GlCommand>::new());
}

#[test]
fn paint_mesh_skips_an_empty_mesh() {
    let mut painter = Painter::new(objects(), 800, 600);
    let id = painter.new_opengl_texture(9);
    let commands = painter.paint_mesh(0, &Mesh { texture_id: id, indices: vec![] }, &everything());
    assert_eq!(commands, Vec::<GlCommand>::new());
}

#[test]
fn paint_mesh_still_draws_into_an_empty_scissor() {
    let mut painter = Painter::new(objects(), 800, 600);
    let id = painter.new_opengl_texture(9);
    let clip = PixelRect { min_x: 30, min_y: 40, max_x: 30, max_y: 90 };
    let commands = painter.paint_mesh(4, &Mesh { texture_id: id, indices: vec![0, 1, 2] }, &clip);
    assert_eq!(commands, draw(9, (30, 510, 0, 50), 4, vec![0, 1, 2]));
}

#[test]
fn primitives_are_painted_in_list_order_between_setup_and_teardown() {
    let mut painter = Painter::new(objects(), 800, 600);
    let a = painter.new_opengl_texture(11);
    let b = painter.new_opengl_texture(12);
    let primitives = vec![
        mesh(b, vec![0, 1, 2]),
        mesh(TextureId::Managed(5), vec![0, 1, 2]),
        mesh(a, vec![2, 1, 0, 70000, 3, 4]),
        mesh(b, vec![]),
    ];
    let mut pool = vec![];
    let commands = painter.paint_primitives(scale(1.5), &primitives, &mut pool);
    let mut expected = setup(1.5);
    expected.extend(draw(12, (0, 0, 800, 600), 0, vec![0, 1, 2]));
    expected.extend(draw(11, (0, 0, 800, 600), 2, vec![2, 1, 0, 4464, 3, 4]));
    expected.extend(teardown());
    assert_eq!(commands, expected);
}

#[test]
fn freed_textures_are_gone_after_the_frame_but_painted_in_it() {
    let mut painter = Painter::new(objects(), 800, 600);
    let id = TextureId::Managed(0);
    let kept = TextureId::Managed(1);
    let textures = delta(
        vec![(id, image(1, 1, None)), (kept, image(1, 1, None))],
        vec![id, TextureId::User(40), id],
    );
    let primitives = vec![mesh(id, vec![0, 1, 2])];
    let mut pool = vec![1, 2];
    assert!(painter.frame_ready(&primitives, &textures, &pool));
    let commands = painter.paint_and_update_textures(scale(1.0), &primitives, &textures, &mut pool);
    assert!(!painter.textures().contains(id));
    assert!(painter.textures().contains(kept));
    assert_eq!(painter.textures().len(), 1);
    let bind = commands.iter().position(|c| *c == GlCommand::Call(GlCall::Scissor { x: 0, y: 0, width: 800, height: 600 })).unwrap();
    assert_eq!(commands[bind - 1], GlCommand::Call(GlCall::BindTexture(2)));
    assert_eq!(commands[commands.len() - 1], GlCommand::Call(GlCall::DeleteTexture(2)));
    assert_eq!(commands[commands.len() - 2], GlCommand::Call(GlCall::Disable(Capability::FramebufferSrgb)));
}

#[test]
fn every_texture_has_a_gl_name_after_a_frame() {
    let mut painter = Painter::new(objects(), 800, 600);
    let a = painter.new_user_texture((1, 1), &[RED], TextureOptions::linear());
    let b = painter.new_opengl_texture(0);
    let c = TextureId::Managed(0);
    let textures = delta(vec![(c, image(2, 2, None))], vec![]);
    assert_eq!(painter.names_needed(&textures), 3);
    let mut pool = vec![31, 32, 33];
    assert!(painter.frame_ready(&vec![], &textures, &pool));
    painter.paint_and_update_textures(scale(1.0), &vec![], &textures, &mut pool);
    assert!(pool.is_empty());
    assert_eq!(painter.textures().get(c).unwrap().texture_id(), 33);
    assert_eq!(painter.textures().get(a).unwrap().texture_id(), 32);
    assert_eq!(painter.textures().get(b).unwrap().texture_id(), 31);
    assert_eq!(painter.textures().unrealised_count(), 0);
}

#[test]
fn names_that_a_frame_does_not_need_stay_in_the_pool() {
    let mut painter = Painter::new(objects(), 800, 600);
    let id = painter.new_user_texture((1, 1), &[RED], TextureOptions::linear());
    let textures = delta(vec![(id, image(1, 1, None))], vec![]);
    assert_eq!(painter.names_needed(&textures), 2);
    let mut pool = vec![5, 6];
    assert!(painter.frame_ready(&vec![], &textures, &pool));
    painter.paint_and_update_textures(scale(1.0), &vec![], &textures, &mut pool);
    assert_eq!(pool, vec![5]);
    assert_eq!(painter.textures().get(id).unwrap().texture_id(), 6);
}

#[test]
fn region_update_may_follow_the_full_image_in_one_delta() {
    let painter = Painter::new(objects(), 800, 600);
    let id = TextureId::Managed(0);
    let good = delta(vec![(id, image(8, 8, None)), (id, image(4, 4, Some([4, 4])))], vec![]);
    let bad = delta(vec![(id, image(4, 4, Some([4, 4]))), (id, image(8, 8, None))], vec![]);
    assert!(painter.frame_ready(&vec![], &good, &vec![1]));
    assert!(!painter.frame_ready(&vec![], &bad, &vec![1]));
}

#[test]
fn frame_is_refused_for_a_region_outside_the_texture() {
    let mut painter = Painter::new(objects(), 800, 600);
    let id = TextureId::Managed(0);
    let mut pool = vec![1];
    painter.paint_and_update_textures(
        scale(1.0),
        &vec![],
        &delta(vec![(id, image(64, 64, None))], vec![]),
        &mut pool,
    );
    assert!(painter.frame_ready(&vec![], &delta(vec![(id, image(32, 32, Some([32, 32])))], vec![]), &pool));
    assert!(!painter.frame_ready(&vec![], &delta(vec![(id, image(32, 32, Some([33, 32])))], vec![]), &pool));
    assert!(!painter.frame_ready(&vec![], &delta(vec![(id, image(32, 32, Some([32, 33])))], vec![]), &pool));
}

#[test]
fn frame_is_refused_for_a_region_of_an_unknown_texture() {
    let painter = Painter::new(objects(), 800, 600);
    let update = delta(vec![(TextureId::Managed(0), image(1, 1, Some([0, 0])))], vec![]);
    assert!(!painter.frame_ready(&vec![], &update, &vec![1]));
}

#[test]
fn frame_is_refused_for_a_texel_count_that_does_not_match() {
    let painter = Painter::new(objects(), 800, 600);
    let mut wrong = image(2, 2, None);
    wrong.pixels.push(WHITE);
    assert!(!painter.frame_ready(&vec![], &delta(vec![(TextureId::Managed(0), wrong)], vec![]), &vec![1]));
}

#[test]
fn frame_is_refused_for_a_paint_callback() {
    let painter = Painter::new(objects(), 800, 600);
    let primitives = vec![
        mesh(TextureId::Managed(0), vec![0, 1, 2]),
        ClippedPrimitive { clip_rect: everything(), primitive: Primitive::Callback },
    ];
    assert!(!painter.frame_ready(&primitives, &delta(vec![], vec![]), &vec![]));
}

#[test]
fn frame_is_refused_for_a_pool_with_the_name_zero() {
    let painter = Painter::new(objects(), 800, 600);
    assert!(!painter.frame_ready(&vec![], &delta(vec![], vec![]), &vec![4, 0]));
}

#[test]
fn frame_is_refused_for_a_pool_that_is_too_small() {
    let mut painter = Painter::new(objects(), 800, 600);
    painter.new_user_texture((1, 1), &[RED], TextureOptions::linear());
    let textures = delta(vec![(TextureId::Managed(0), image(1, 1, None))], vec![]);
    assert!(!painter.frame_ready(&vec![], &textures, &vec![]));
    assert!(!painter.frame_ready(&vec![], &textures, &vec![1]));
    assert!(painter.frame_ready(&vec![], &textures, &vec![1, 2]));
}

#[test]
fn equal_frames_issue_equal_commands() {
    let run = || {
        let mut painter = Painter::new(objects(), 640, 480);
        let user = painter.new_user_texture((1, 2), &[RED, BLUE], TextureOptions::linear());
        let textures = delta(
            vec![
                (TextureId::Managed(0), image(4, 4, None)),
                (TextureId::Managed(0), image(2, 2, Some([1, 1]))),
            ],
            vec![user],
        );
        let primitives = vec![mesh(TextureId::Managed(0), vec![0, 1, 2]), mesh(user, vec![2, 1, 0])];
        let mut pool = vec![3, 4, 5];
        let commands = painter.paint_and_update_textures(scale(1.25), &primitives, &textures, &mut pool);
        (commands, pool, painter.textures().len())
    };
    let first = run();
    let second = run();
    assert_eq!(first, second);
    assert_eq!(first.1, vec![3]);
    assert_eq!(first.2, 1);
}

#[test]
fn frames_with_other_names_differ_in_the_names_only() {
    let run = |pool: Vec<u32>| {
        let mut painter = Painter::new(objects(), 640, 480);
        let user = painter.new_user_texture((1, 1), &[RED], TextureOptions::linear());
        let atlas = TextureId::Managed(0);
        let textures = delta(
            vec![(atlas, image(2, 2, None)), (atlas, image(1, 1, Some([1, 1])))],
            vec![user],
        );
        let primitives = vec![mesh(atlas, vec![0, 1, 2]), mesh(user, vec![2, 1, 0])];
        let mut pool = pool;
        assert!(painter.frame_ready(&primitives, &textures, &pool));
        let commands = painter.paint_and_update_textures(scale(1.0), &primitives, &textures, &mut pool);
        (commands, painter.textures().get(atlas).unwrap().texture_id())
    };
    let (first, first_atlas) = run(vec![3, 4]);
    let (second, second_atlas) = run(vec![70, 80]);
    assert_eq!((first_atlas, second_atlas), (4, 80));
    assert_eq!(first.len(), second.len());
    let rename = |name: u32| match name {
        3 => 70,
        4 => 80,
        other => other,
    };
    let renamed: Vec<GlCommand> = first
        .into_iter()
        .map(|command| match command {
            GlCommand::Call(GlCall::BindTexture(name)) => {
                GlCommand::Call(GlCall::BindTexture(rename(name)))
            }
            GlCommand::Call(GlCall::DeleteTexture(name)) => {
                GlCommand::Call(GlCall::DeleteTexture(rename(name)))
            }
            other => other,
        })
        .collect();
    assert_eq!(renamed, second);
}

#[test]
fn paint_callbacks_are_found_anywhere_in_the_list() {
    let callback = || ClippedPrimitive { clip_rect: everything(), primitive: Primitive::Callback };
    assert!(paints_meshes_only(&vec![]));
    assert!(paints_meshes_only(&vec![mesh(TextureId::User(0), vec![])]));
    assert!(!paints_meshes_only(&vec![callback()]));
    assert!(!paints_meshes_only(&vec![mesh(TextureId::User(0), vec![]), callback()]));
    assert!(!paints_meshes_only(&vec![callback(), mesh(TextureId::User(0), vec![])]));
}

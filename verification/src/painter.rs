//! The renderer: applies the texture delta of a frame, uploads what is
//! pending, paints the clipped primitives and releases what the toolkit gave
//! up, in that order.

use vstd::prelude::*;
use crate::carried::Single;
use crate::delta::{set_views, ImageDelta, ImageDeltaView, TexturesDelta};
use crate::gl::{
    call, extend, stream, BufferTarget, Capability, ComponentType, GlCall, GlCommand, GlCommandView,
};
use crate::passes::{
    all_names, full_images, lemma_free_pass, lemma_set_pass, lemma_upload_pass_keeps,
    lemma_upload_pass_wf, Pass,
};
use crate::registry::{RegistryView, Slot, TextureRegistry};
use crate::texture::{
    flatten_pixels, image_bytes, srgba_bytes, Color32, TextureFilter, TextureId, TextureOptions,
    TextureView, TextureWrapMode,
};

verus! {

/// Components of a position.
pub const POS_SIZE: u8 = 2;

/// Components of a texture coordinate.
pub const TEX_COORDS_SIZE: u8 = 2;

/// Channels of a vertex colour.
pub const COLOR_SIZE: u8 = 4;

/// Byte offset of the position inside a vertex.
pub const POS_OFFSET: u8 = 0;

/// Byte offset of the texture coordinate inside a vertex.
pub const TEX_COORDS_OFFSET: u8 = 8;

/// Byte offset of the colour inside a vertex.
pub const COLOR_OFFSET: u8 = 16;

/// Bytes of one interleaved vertex: two positions and two texture
/// coordinates of four bytes each, and four colour bytes.
pub const VERTEX_SIZE_BYTES: u8 = 20;

/// A clip rectangle in physical pixels: the rectangle in logical points times
/// pixels-per-point, each coordinate rounded to the nearest integer.
#[derive(Clone, Copy, Debug, PartialEq, Eq, Structural)]
pub struct PixelRect {
    pub min_x: i64,
    pub min_y: i64,
    pub max_x: i64,
    pub max_y: i64,
}

/// The arguments of `glScissor`: a box whose `y` is measured from the bottom
/// of the framebuffer.
#[derive(Clone, Copy, Debug, PartialEq, Eq, Structural)]
pub struct ScissorRect {
    pub x: u32,
    pub y: u32,
    pub width: u32,
    pub height: u32,
}

/// `value` brought into `low..=high`.
pub open spec fn clamped(value: int, low: int, high: int) -> int {
    if value < low {
        low
    } else if value > high {
        high
    } else {
        value
    }
}

/// The scissor box of a clip rectangle in a framebuffer of `width` by
/// `height` pixels. The minimum is clamped to the framebuffer, the maximum to
/// what lies between the minimum and the framebuffer's far edge, and the box
/// is flipped so that `y` counts from the bottom.
pub open spec fn scissor_box(clip: PixelRect, width: u32, height: u32) -> ScissorRect {
    let min_x = clamped(clip.min_x as int, 0, width as int);
    let min_y = clamped(clip.min_y as int, 0, height as int);
    let max_x = clamped(clip.max_x as int, min_x, width as int);
    let max_y = clamped(clip.max_y as int, min_y, height as int);
    ScissorRect {
        x: min_x as u32,
        y: (height - max_y) as u32,
        width: (max_x - min_x) as u32,
        height: (max_y - min_y) as u32,
    }
}

fn clamp(value: i64, low: i64, high: i64) -> (result: i64)
    requires
        low <= high,
    ensures
        result == clamped(value as int, low as int, high as int),
{
    if value < low {
        low
    } else if value > high {
        high
    } else {
        value
    }
}

/// The scissor box for a clip rectangle, see [`scissor_box`]. The box lies
/// inside the framebuffer.
pub fn scissor_rect(clip: &PixelRect, canvas_width: u32, canvas_height: u32) -> (rect: ScissorRect)
    ensures
        rect == scissor_box(*clip, canvas_width, canvas_height),
        rect.x + rect.width <= canvas_width,
        rect.y + rect.height <= canvas_height,
{
    let width = canvas_width as i64;
    let height = canvas_height as i64;
    let min_x = clamp(clip.min_x, 0, width);
    let min_y = clamp(clip.min_y, 0, height);
    let max_x = clamp(clip.max_x, min_x, width);
    let max_y = clamp(clip.max_y, min_y, height);
    ScissorRect {
        x: min_x as u32,
        y: (height - max_y) as u32,
        width: (max_x - min_x) as u32,
        height: (max_y - min_y) as u32,
    }
}

/// The low 16 bits of an index.
pub open spec fn narrowed(index: u32) -> u16 {
    (index % 0x1_0000) as u16
}

/// The indices of a mesh as the draw call takes them: 16 bits each.
pub open spec fn narrowed_indices(indices: Seq<u32>) -> Seq<u16> {
    Seq::new(indices.len(), |i: int| narrowed(indices[i]))
}

/// Narrows 32-bit indices to 16 bits.
pub fn narrow_indices(indices: &Vec<u32>) -> (narrow: Vec<u16>)
    ensures
        narrow@ == narrowed_indices(indices@),
{
    let mut narrow: Vec<u16> = Vec::new();
    let mut i: usize = 0;
    while i < indices.len()
        invariant
            i <= indices@.len(),
            narrow@.len() == i,
            forall|j: int| 0 <= j < i ==> #[trigger] narrow@[j] == narrowed(indices@[j]),
        decreases indices@.len() - i,
    {
        narrow.push((indices[i] % 0x1_0000) as u16);
        i += 1;
    }
    narrow
}

/// A textured triangle mesh. Its vertices stay with the caller: the command
/// that uploads them names the primitive they belong to.
#[derive(Debug)]
pub struct Mesh {
    pub texture_id: TextureId,
    /// Three indices per triangle.
    pub indices: Vec<u32>,
}

/// What the tessellator hands over for painting.
#[derive(Debug)]
pub enum Primitive {
    Mesh(Mesh),
    /// A custom paint callback. The renderer does not support these.
    Callback,
}

/// A primitive with the rectangle outside of which it must not show.
#[derive(Debug)]
pub struct ClippedPrimitive {
    pub clip_rect: PixelRect,
    pub primitive: Primitive,
}

/// What a [`Mesh`] says.
pub struct MeshView {
    pub texture_id: TextureId,
    pub indices: Seq<u32>,
}

/// What a [`Primitive`] says.
pub enum PrimitiveView {
    Mesh(MeshView),
    Callback,
}

/// What a [`ClippedPrimitive`] says.
pub struct ClippedPrimitiveView {
    pub clip_rect: PixelRect,
    pub primitive: PrimitiveView,
}

impl View for Mesh {
    type V = MeshView;

    open spec fn view(&self) -> MeshView {
        MeshView { texture_id: self.texture_id, indices: self.indices@ }
    }
}

impl View for Primitive {
    type V = PrimitiveView;

    open spec fn view(&self) -> PrimitiveView {
        match *self {
            Primitive::Mesh(mesh) => PrimitiveView::Mesh(mesh@),
            Primitive::Callback => PrimitiveView::Callback,
        }
    }
}

impl View for ClippedPrimitive {
    type V = ClippedPrimitiveView;

    open spec fn view(&self) -> ClippedPrimitiveView {
        ClippedPrimitiveView { clip_rect: self.clip_rect, primitive: self.primitive@ }
    }
}

/// The primitives of a frame as the contracts see them.
pub open spec fn primitive_views(primitives: Seq<ClippedPrimitive>) -> Seq<ClippedPrimitiveView> {
    Seq::new(primitives.len(), |i: int| primitives[i]@)
}

/// No primitive is a paint callback.
pub open spec fn only_meshes(primitives: Seq<ClippedPrimitiveView>) -> bool {
    forall|i: int| 0 <= i < primitives.len() ==> (#[trigger] primitives[i]).primitive is Mesh
}

/// Whether no primitive of the list is a paint callback.
pub fn paints_meshes_only(clipped_primitives: &Vec<ClippedPrimitive>) -> (meshes: bool)
    ensures
        meshes == only_meshes(primitive_views(clipped_primitives@)),
{
    let ghost primitives = primitive_views(clipped_primitives@);
    let mut i: usize = 0;
    while i < clipped_primitives.len()
        invariant
            i <= clipped_primitives@.len(),
            primitives == primitive_views(clipped_primitives@),
            forall|j: int| 0 <= j < i ==> (#[trigger] primitives[j]).primitive is Mesh,
        decreases clipped_primitives@.len() - i,
    {
        match &clipped_primitives[i].primitive {
            Primitive::Mesh(_) => {},
            Primitive::Callback => {
                assert(!(primitives[i as int].primitive is Mesh));
                return false;
            },
        }
        i += 1;
    }
    true
}

/// The GL objects that the renderer draws with. The caller creates them once
/// and looks the locations up in the linked program.
#[derive(Clone, Copy, Debug, PartialEq, Eq, Structural)]
pub struct GlObjects {
    pub program: u32,
    pub vertex_array: u32,
    pub vertex_buffer: u32,
    pub index_buffer: u32,
    /// Location of the position attribute, `a_pos`.
    pub a_pos: u32,
    /// Location of the texture coordinate attribute, `a_tc`.
    pub a_tc: u32,
    /// Location of the colour attribute, `a_srgba`.
    pub a_srgba: u32,
    /// Location of the uniform `u_screen_size`.
    pub u_screen_size: i32,
    /// Location of the uniform `u_sampler`.
    pub u_sampler: i32,
}

/// What a [`Painter`] holds.
pub struct PainterView {
    pub gl: GlObjects,
    /// Width and height of the framebuffer in pixels.
    pub canvas: (u32, u32),
    pub registry: RegistryView,
}

/// The draw state that is set once per frame.
pub open spec fn setup_stream(gl: GlObjects, canvas: (u32, u32), pixels_per_point: Single) -> Seq<
    GlCommandView,
> {
    seq![
        call(GlCall::Enable(Capability::FramebufferSrgb)),
        call(GlCall::Enable(Capability::ScissorTest)),
        call(GlCall::Enable(Capability::Blend)),
        call(GlCall::BlendPremultiplied),
        call(GlCall::UseProgram(gl.program)),
        call(GlCall::ActiveTextureUnit(0)),
        call(
            GlCall::ScreenSizeUniform {
                location: gl.u_screen_size,
                width: canvas.0,
                height: canvas.1,
                pixels_per_point,
            },
        ),
        call(GlCall::SamplerUniform { location: gl.u_sampler, unit: 0 }),
        call(GlCall::Viewport { width: canvas.0, height: canvas.1 }),
    ]
}

/// The draw state that is reset after the last primitive.
pub open spec fn teardown_stream() -> Seq<GlCommandView> {
    seq![
        call(GlCall::Disable(Capability::ScissorTest)),
        call(GlCall::Disable(Capability::FramebufferSrgb)),
    ]
}

/// The commands that draw a mesh whose texture has the GL name `name`.
pub open spec fn draw_stream(
    gl: GlObjects,
    name: u32,
    scissor: ScissorRect,
    index: nat,
    indices: Seq<u32>,
) -> Seq<GlCommandView> {
    seq![
        call(GlCall::BindTexture(name)),
        call(
            GlCall::Scissor {
                x: scissor.x,
                y: scissor.y,
                width: scissor.width,
                height: scissor.height,
            },
        ),
        call(GlCall::BindVertexArray(gl.vertex_array)),
        call(GlCall::BindBuffer { target: BufferTarget::Array, buffer: gl.vertex_buffer }),
        call(GlCall::BufferVertices { primitive: index as usize }),
        call(GlCall::BindBuffer { target: BufferTarget::ElementArray, buffer: gl.index_buffer }),
        GlCommandView::BufferIndices(narrowed_indices(indices)),
        call(
            GlCall::VertexAttribPointer {
                location: gl.a_pos,
                components: POS_SIZE,
                kind: ComponentType::Real,
                stride: VERTEX_SIZE_BYTES,
                offset: POS_OFFSET,
            },
        ),
        call(GlCall::EnableVertexAttribArray(gl.a_pos)),
        call(
            GlCall::VertexAttribPointer {
                location: gl.a_tc,
                components: TEX_COORDS_SIZE,
                kind: ComponentType::Real,
                stride: VERTEX_SIZE_BYTES,
                offset: TEX_COORDS_OFFSET,
            },
        ),
        call(GlCall::EnableVertexAttribArray(gl.a_tc)),
        call(
            GlCall::VertexAttribPointer {
                location: gl.a_srgba,
                components: COLOR_SIZE,
                kind: ComponentType::UnsignedByte,
                stride: VERTEX_SIZE_BYTES,
                offset: COLOR_OFFSET,
            },
        ),
        call(GlCall::EnableVertexAttribArray(gl.a_srgba)),
        call(GlCall::DrawTriangles { count: indices.len() as usize }),
        call(GlCall::DisableVertexAttribArray(gl.a_pos)),
        call(GlCall::DisableVertexAttribArray(gl.a_tc)),
        call(GlCall::DisableVertexAttribArray(gl.a_srgba)),
    ]
}

impl PainterView {
    /// The invariant of a renderer.
    pub open spec fn wf(self) -> bool {
        self.registry.wf()
    }

    /// The commands that paint the primitive with index `index`: none for a
    /// mesh without indices or with a texture that the registry does not
    /// know.
    pub open spec fn mesh_stream(self, index: nat, clip: PixelRect, mesh: MeshView) -> Seq<
        GlCommandView,
    > {
        if !self.registry.has(mesh.texture_id) || mesh.indices.len() == 0 {
            Seq::empty()
        } else {
            draw_stream(
                self.gl,
                self.registry.texture(mesh.texture_id).name,
                scissor_box(clip, self.canvas.0, self.canvas.1),
                index,
                mesh.indices,
            )
        }
    }

    /// The commands that paint the first `upto` primitives, in list order.
    pub open spec fn meshes_stream(self, primitives: Seq<ClippedPrimitiveView>, upto: nat) -> Seq<
        GlCommandView,
    >
        decreases upto,
    {
        if upto == 0 {
            Seq::empty()
        } else {
            self.meshes_stream(primitives, (upto - 1) as nat) + match primitives[upto
                - 1].primitive {
                PrimitiveView::Mesh(mesh) => self.mesh_stream(
                    (upto - 1) as nat,
                    primitives[upto - 1].clip_rect,
                    mesh,
                ),
                PrimitiveView::Callback => Seq::empty(),
            }
        }
    }

    /// The renderer with another registry.
    pub open spec fn with_registry(self, registry: RegistryView) -> PainterView {
        PainterView { registry, ..self }
    }

    /// Painting: the upload pass, the frame's draw state, the primitives in
    /// list order, and the reset of the draw state.
    pub open spec fn paint_pass(
        self,
        pixels_per_point: Single,
        primitives: Seq<ClippedPrimitiveView>,
        pool: Seq<u32>,
    ) -> Pass {
        let uploads = self.registry.upload_pass(pool, self.registry.slots.len());
        Pass {
            registry: uploads.registry,
            stream: uploads.stream + setup_stream(self.gl, self.canvas, pixels_per_point)
                + self.with_registry(uploads.registry).meshes_stream(primitives, primitives.len())
                + teardown_stream(),
            pool: uploads.pool,
        }
    }

    /// A whole frame: the images of the delta are set in list order, then the
    /// frame is painted, then the textures that the delta frees are released
    /// in list order.
    pub open spec fn frame(
        self,
        pixels_per_point: Single,
        primitives: Seq<ClippedPrimitiveView>,
        sets: Seq<(TextureId, ImageDeltaView)>,
        frees: Seq<TextureId>,
        pool: Seq<u32>,
    ) -> Pass {
        let set = self.registry.set_pass(sets, pool);
        let paint = self.with_registry(set.registry).paint_pass(
            pixels_per_point,
            primitives,
            set.pool,
        );
        let free = paint.registry.free_pass(frees);
        Pass {
            registry: free.registry,
            stream: set.stream + paint.stream + free.stream,
            pool: paint.pool,
        }
    }

    /// Whether a frame can be painted: the pool holds GL names only, every
    /// image is accepted when its turn comes, the pool that is left when the
    /// images are set has a name for every texture without a GL object, and
    /// no primitive is a paint callback.
    pub open spec fn frame_ready(
        self,
        primitives: Seq<ClippedPrimitiveView>,
        sets: Seq<(TextureId, ImageDeltaView)>,
        pool: Seq<u32>,
    ) -> bool {
        &&& all_names(pool)
        &&& self.registry.accepts_all(sets, pool)
        &&& self.registry.set_pass(sets, pool).pool.len() >= self.registry.set_pass(
            sets,
            pool,
        ).registry.unrealised()
        &&& only_meshes(primitives)
    }
}

/// Renders the toolkit's output with OpenGL and owns the texture registry.
#[derive(Debug)]
pub struct Painter {
    gl: GlObjects,
    canvas_width: u32,
    canvas_height: u32,
    textures: TextureRegistry,
}

impl View for Painter {
    type V = PainterView;

    closed spec fn view(&self) -> PainterView {
        PainterView {
            gl: self.gl,
            canvas: (self.canvas_width, self.canvas_height),
            registry: self.textures@,
        }
    }
}

impl Painter {
    /// A renderer without textures that draws with the GL objects `gl` into a
    /// framebuffer of the given size.
    pub fn new(gl: GlObjects, canvas_width: u32, canvas_height: u32) -> (painter: Painter)
        ensures
            painter@.gl == gl,
            painter@.canvas == (canvas_width, canvas_height),
            painter@.registry.slots.len() == 0,
            painter@.registry.next_user == 0,
            painter@.wf(),
    {
        Painter { gl, canvas_width, canvas_height, textures: TextureRegistry::new() }
    }

    /// Records the size of the framebuffer in pixels.
    pub fn set_size(&mut self, w: u32, h: u32)
        ensures
            final(self)@ == (PainterView { canvas: (w, h), ..old(self)@ }),
    {
        self.canvas_width = w;
        self.canvas_height = h;
    }

    /// The texture registry.
    pub fn textures(&self) -> (registry: &TextureRegistry)
        ensures
            registry@ == self@.registry,
    {
        &self.textures
    }

    /// Adopts the GL texture `openl_id`, which was created elsewhere.
    pub fn new_opengl_texture(&mut self, openl_id: u32) -> (id: TextureId)
        requires
            old(self)@.wf(),
            old(self)@.registry.fresh_index() < u64::MAX,
        ensures
            id == TextureId::User(old(self)@.registry.fresh_index() as u64),
            !old(self)@.registry.has(id),
            final(self)@ == old(self)@.with_registry(
                RegistryView {
                    slots: old(self)@.registry.slots.push(
                        Slot {
                            id,
                            texture: TextureView {
                                name: openl_id,
                                options: TextureOptions {
                                    magnification: TextureFilter::Linear,
                                    minification: TextureFilter::Linear,
                                    wrap_mode: TextureWrapMode::ClampToEdge,
                                },
                                size: (0, 0),
                                pixels: Seq::empty(),
                                dirty: false,
                            },
                        },
                    ),
                    next_user: (old(self)@.registry.fresh_index() + 1) as u64,
                },
            ),
            final(self)@.wf(),
    {
        self.textures.allocate_raw(openl_id)
    }

    /// Registers a texture of `size` texels with the given pixels. No GL
    /// command is issued: the texture is created and uploaded when the next
    /// frame is painted.
    pub fn new_user_texture(
        &mut self,
        size: (usize, usize),
        srgba_pixels: &[Color32],
        options: TextureOptions,
    ) -> (id: TextureId)
        requires
            old(self)@.wf(),
            old(self)@.registry.fresh_index() < u64::MAX,
            srgba_pixels@.len() == size.0 * size.1,
        ensures
            id == TextureId::User(old(self)@.registry.fresh_index() as u64),
            !old(self)@.registry.has(id),
            final(self)@ == old(self)@.with_registry(
                RegistryView {
                    slots: old(self)@.registry.slots.push(
                        Slot {
                            id,
                            texture: TextureView {
                                name: 0,
                                options,
                                size: (size.0 as nat, size.1 as nat),
                                pixels: srgba_bytes(srgba_pixels@),
                                dirty: true,
                            },
                        },
                    ),
                    next_user: (old(self)@.registry.fresh_index() + 1) as u64,
                },
            ),
            final(self)@.wf(),
    {
        let pixels = flatten_pixels(srgba_pixels);
        assert(pixels@.len() == image_bytes(size.0 as nat, size.1 as nat)) by (nonlinear_arith)
            requires
                pixels@.len() == 4 * srgba_pixels@.len(),
                srgba_pixels@.len() == size.0 * size.1,
        ;
        self.textures.allocate_user(size, options, pixels)
    }

    /// Replaces the pixels of the texture under `texture_id`. The texture is
    /// uploaded again when the next frame is painted.
    pub fn update_user_texture_data(&mut self, texture_id: &TextureId, pixels: &[Color32])
        requires
            old(self)@.wf(),
            old(self)@.registry.has(*texture_id),
            pixels@.len() == old(self)@.registry.texture(*texture_id).size.0 * old(
                self,
            )@.registry.texture(*texture_id).size.1,
        ensures
            final(self)@ == old(self)@.with_registry(
                RegistryView {
                    slots: old(self)@.registry.slots.update(
                        old(self)@.registry.position(*texture_id),
                        Slot {
                            id: *texture_id,
                            texture: TextureView {
                                pixels: srgba_bytes(pixels@),
                                dirty: true,
                                ..old(self)@.registry.texture(*texture_id)
                            },
                        },
                    ),
                    ..old(self)@.registry
                },
            ),
            final(self)@.wf(),
    {
        let bytes = flatten_pixels(pixels);
        let ghost size = self@.registry.texture(*texture_id).size;
        assert(bytes@.len() == image_bytes(size.0, size.1)) by (nonlinear_arith)
            requires
                bytes@.len() == 4 * pixels@.len(),
                pixels@.len() == size.0 * size.1,
        ;
        self.textures.update_user(*texture_id, bytes);
    }

    /// Sets the image `delta` under `tex_id`, see
    /// [`TextureRegistry::set_from_delta`].
    pub fn set_texture(
        &mut self,
        tex_id: TextureId,
        delta: &ImageDelta,
        pool: &mut Vec<u32>,
    ) -> (commands: Vec<GlCommand>)
        requires
            old(self)@.wf(),
            all_names(old(pool)@),
            old(self)@.registry.accepts(tex_id, delta@, old(pool)@),
        ensures
            final(self)@ == old(self)@.with_registry(
                old(self)@.registry.after_set(tex_id, delta@, old(pool)@).registry,
            ),
            stream(commands@) == old(self)@.registry.after_set(tex_id, delta@, old(pool)@).stream,
            final(pool)@ == old(self)@.registry.after_set(tex_id, delta@, old(pool)@).pool,
            final(self)@.wf(),
            all_names(final(pool)@),
    {
        self.textures.set_from_delta(tex_id, delta, pool)
    }

    /// Creates and uploads what is pending, see
    /// [`TextureRegistry::upload_pending`].
    pub fn upload_user_textures(&mut self, pool: &mut Vec<u32>) -> (commands: Vec<GlCommand>)
        requires
            old(self)@.wf(),
            all_names(old(pool)@),
            old(pool)@.len() >= old(self)@.registry.unrealised(),
        ensures
            final(self)@ == old(self)@.with_registry(
                old(self)@.registry.upload_pass(
                    old(pool)@,
                    old(self)@.registry.slots.len(),
                ).registry,
            ),
            stream(commands@) == old(self)@.registry.upload_pass(
                old(pool)@,
                old(self)@.registry.slots.len(),
            ).stream,
            final(pool)@ == old(self)@.registry.upload_pass(
                old(pool)@,
                old(self)@.registry.slots.len(),
            ).pool,
            final(self)@.wf(),
            final(self)@.registry.all_realised(),
            all_names(final(pool)@),
    {
        self.textures.upload_pending(pool)
    }

    /// Removes the texture under `tex_id` and releases its GL object. An
    /// unknown identifier changes nothing.
    pub fn free_texture(&mut self, tex_id: TextureId) -> (commands: Vec<GlCommand>)
        requires
            old(self)@.wf(),
        ensures
            final(self)@ == old(self)@.with_registry(old(self)@.registry.removed(tex_id)),
            stream(commands@) == old(self)@.registry.release_stream(tex_id),
            final(self)@.wf(),
            !final(self)@.registry.has(tex_id),
    {
        self.textures.free(tex_id)
    }

    /// Paints the mesh of the primitive with index `index`, clipped to
    /// `clip_rect`. A mesh whose texture is unknown is skipped, and so is a
    /// mesh without indices. A texture that is known has its GL object.
    pub fn paint_mesh(
        &self,
        index: usize,
        mesh: &Mesh,
        clip_rect: &PixelRect,
    ) -> (commands: Vec<GlCommand>)
        requires
            self@.wf(),
            self@.registry.has(mesh@.texture_id) ==> self@.registry.texture(mesh@.texture_id).name
                != 0,
        ensures
            stream(commands@) == self@.mesh_stream(index as nat, *clip_rect, mesh@),
    {
        match self.textures.get(mesh.texture_id) {
            Some(texture) => {
                if mesh.indices.len() == 0 {
                    return Vec::new();
                }
                let scissor = scissor_rect(clip_rect, self.canvas_width, self.canvas_height);
                let gl = self.gl;
                let commands = vec![
                    GlCommand::Call(GlCall::BindTexture(texture.texture_id())),
                    GlCommand::Call(
                        GlCall::Scissor {
                            x: scissor.x,
                            y: scissor.y,
                            width: scissor.width,
                            height: scissor.height,
                        },
                    ),
                    GlCommand::Call(GlCall::BindVertexArray(gl.vertex_array)),
                    GlCommand::Call(
                        GlCall::BindBuffer { target: BufferTarget::Array, buffer: gl.vertex_buffer },
                    ),
                    GlCommand::Call(GlCall::BufferVertices { primitive: index }),
                    GlCommand::Call(
                        GlCall::BindBuffer {
                            target: BufferTarget::ElementArray,
                            buffer: gl.index_buffer,
                        },
                    ),
                    GlCommand::BufferIndices(narrow_indices(&mesh.indices)),
                    GlCommand::Call(
                        GlCall::VertexAttribPointer {
                            location: gl.a_pos,
                            components: POS_SIZE,
                            kind: ComponentType::Real,
                            stride: VERTEX_SIZE_BYTES,
                            offset: POS_OFFSET,
                        },
                    ),
                    GlCommand::Call(GlCall::EnableVertexAttribArray(gl.a_pos)),
                    GlCommand::Call(
                        GlCall::VertexAttribPointer {
                            location: gl.a_tc,
                            components: TEX_COORDS_SIZE,
                            kind: ComponentType::Real,
                            stride: VERTEX_SIZE_BYTES,
                            offset: TEX_COORDS_OFFSET,
                        },
                    ),
                    GlCommand::Call(GlCall::EnableVertexAttribArray(gl.a_tc)),
                    GlCommand::Call(
                        GlCall::VertexAttribPointer {
                            location: gl.a_srgba,
                            components: COLOR_SIZE,
                            kind: ComponentType::UnsignedByte,
                            stride: VERTEX_SIZE_BYTES,
                            offset: COLOR_OFFSET,
                        },
                    ),
                    GlCommand::Call(GlCall::EnableVertexAttribArray(gl.a_srgba)),
                    GlCommand::Call(GlCall::DrawTriangles { count: mesh.indices.len() }),
                    GlCommand::Call(GlCall::DisableVertexAttribArray(gl.a_pos)),
                    GlCommand::Call(GlCall::DisableVertexAttribArray(gl.a_tc)),
                    GlCommand::Call(GlCall::DisableVertexAttribArray(gl.a_srgba)),
                ];
                commands
            },
            None => Vec::new(),
        }
    }

    /// Paints a frame: uploads what is pending, sets the draw state, paints
    /// the primitives in list order and resets the draw state. Afterwards
    /// every texture of the registry has a GL object.
    pub fn paint_primitives(
        &mut self,
        pixels_per_point: Single,
        clipped_primitives: &Vec<ClippedPrimitive>,
        pool: &mut Vec<u32>,
    ) -> (commands: Vec<GlCommand>)
        requires
            old(self)@.wf(),
            all_names(old(pool)@),
            old(pool)@.len() >= old(self)@.registry.unrealised(),
            only_meshes(primitive_views(clipped_primitives@)),
        ensures
            final(self)@ == old(self)@.with_registry(
                old(self)@.paint_pass(
                    pixels_per_point,
                    primitive_views(clipped_primitives@),
                    old(pool)@,
                ).registry,
            ),
            stream(commands@) == old(self)@.paint_pass(
                pixels_per_point,
                primitive_views(clipped_primitives@),
                old(pool)@,
            ).stream,
            final(pool)@ == old(self)@.paint_pass(
                pixels_per_point,
                primitive_views(clipped_primitives@),
                old(pool)@,
            ).pool,
            final(self)@.wf(),
            final(self)@.registry.all_realised(),
            all_names(final(pool)@),
    {
        let ghost primitives = primitive_views(clipped_primitives@);
        let mut commands = self.upload_user_textures(pool);
        let gl = self.gl;
        let setup = vec![
            GlCommand::Call(GlCall::Enable(Capability::FramebufferSrgb)),
            GlCommand::Call(GlCall::Enable(Capability::ScissorTest)),
            GlCommand::Call(GlCall::Enable(Capability::Blend)),
            GlCommand::Call(GlCall::BlendPremultiplied),
            GlCommand::Call(GlCall::UseProgram(gl.program)),
            GlCommand::Call(GlCall::ActiveTextureUnit(0)),
            GlCommand::Call(
                GlCall::ScreenSizeUniform {
                    location: gl.u_screen_size,
                    width: self.canvas_width,
                    height: self.canvas_height,
                    pixels_per_point,
                },
            ),
            GlCommand::Call(GlCall::SamplerUniform { location: gl.u_sampler, unit: 0 }),
            GlCommand::Call(
                GlCall::Viewport { width: self.canvas_width, height: self.canvas_height },
            ),
        ];
        extend(&mut commands, setup);
        let ghost base = stream(commands@);
        let mut i: usize = 0;
        while i < clipped_primitives.len()
            invariant
                i <= clipped_primitives@.len(),
                primitives == primitive_views(clipped_primitives@),
                self@.wf(),
                self@.registry.all_realised(),
                stream(commands@) == base + self@.meshes_stream(primitives, i as nat),
            decreases clipped_primitives@.len() - i,
        {
            match &clipped_primitives[i].primitive {
                Primitive::Mesh(mesh) => {
                    let draw = self.paint_mesh(i, mesh, &clipped_primitives[i].clip_rect);
                    extend(&mut commands, draw);
                },
                Primitive::Callback => {},
            }
            i += 1;
        }
        let teardown = vec![
            GlCommand::Call(GlCall::Disable(Capability::ScissorTest)),
            GlCommand::Call(GlCall::Disable(Capability::FramebufferSrgb)),
        ];
        extend(&mut commands, teardown);
        commands
    }

    /// Paints a frame and applies its texture delta. The images of the delta
    /// are set in list order before anything is painted, and the textures
    /// that the delta frees are released in list order after everything is
    /// painted. Afterwards every texture of the registry has a GL object, and
    /// no identifier that the delta frees is in the registry.
    pub fn paint_and_update_textures(
        &mut self,
        pixels_per_point: Single,
        clipped_primitives: &Vec<ClippedPrimitive>,
        textures_delta: &TexturesDelta,
        pool: &mut Vec<u32>,
    ) -> (commands: Vec<GlCommand>)
        requires
            old(self)@.wf(),
            old(self)@.frame_ready(
                primitive_views(clipped_primitives@),
                set_views(textures_delta.set@),
                old(pool)@,
            ),
        ensures
            final(self)@ == old(self)@.with_registry(
                old(self)@.frame(
                    pixels_per_point,
                    primitive_views(clipped_primitives@),
                    set_views(textures_delta.set@),
                    textures_delta.free@,
                    old(pool)@,
                ).registry,
            ),
            stream(commands@) == old(self)@.frame(
                pixels_per_point,
                primitive_views(clipped_primitives@),
                set_views(textures_delta.set@),
                textures_delta.free@,
                old(pool)@,
            ).stream,
            final(pool)@ == old(self)@.frame(
                pixels_per_point,
                primitive_views(clipped_primitives@),
                set_views(textures_delta.set@),
                textures_delta.free@,
                old(pool)@,
            ).pool,
            final(self)@.wf(),
            final(self)@.registry.all_realised(),
            forall|k: int|
                0 <= k < textures_delta.free@.len() ==> !final(self)@.registry.has(
                    #[trigger] textures_delta.free@[k],
                ),
            final(self)@.registry.next_user >= old(self)@.registry.next_user,
            all_names(final(pool)@),
    {
        let ghost sets = set_views(textures_delta.set@);
        let ghost before = self@.registry;
        let mut commands: Vec<GlCommand> = Vec::new();
        let mut i: usize = 0;
        while i < textures_delta.set.len()
            invariant
                i <= textures_delta.set@.len(),
                sets == set_views(textures_delta.set@),
                before == old(self)@.registry,
                before.accepts_all(sets, old(pool)@),
                self@ == old(self)@.with_registry(
                    before.set_pass(sets.take(i as int), old(pool)@).registry,
                ),
                stream(commands@) == before.set_pass(sets.take(i as int), old(pool)@).stream,
                pool@ == before.set_pass(sets.take(i as int), old(pool)@).pool,
                self@.wf(),
                all_names(pool@),
            decreases textures_delta.set@.len() - i,
        {
            proof {
                assert(sets.take(i + 1).drop_last() =~= sets.take(i as int));
                assert(before.accepts_at(sets, old(pool)@, i as int));
            }
            let step = self.set_texture(textures_delta.set[i].0, &textures_delta.set[i].1, pool);
            extend(&mut commands, step);
            i += 1;
        }
        assert(sets.take(i as int) =~= sets);
        let paint = self.paint_primitives(pixels_per_point, clipped_primitives, pool);
        extend(&mut commands, paint);
        let release = self.textures.free_all(&textures_delta.free);
        extend(&mut commands, release);
        proof {
            let set = before.set_pass(sets, old(pool)@);
            let count = set.registry.slots.len();
            lemma_set_pass(before, sets, old(pool)@, TextureId::Managed(0));
            lemma_upload_pass_keeps(set.registry, set.pool, count);
            lemma_upload_pass_wf(set.registry, set.pool, count);
            lemma_free_pass(
                set.registry.upload_pass(set.pool, count).registry,
                textures_delta.free@,
                TextureId::Managed(0),
            );
        }
        commands
    }

    /// Whether the frame can be painted with `pool` as the fresh GL names at
    /// hand, see [`PainterView::frame_ready`].
    pub fn frame_ready(
        &self,
        clipped_primitives: &Vec<ClippedPrimitive>,
        textures_delta: &TexturesDelta,
        pool: &Vec<u32>,
    ) -> (ready: bool)
        requires
            self@.wf(),
        ensures
            ready == self@.frame_ready(
                primitive_views(clipped_primitives@),
                set_views(textures_delta.set@),
                pool@,
            ),
    {
        let ghost sets = set_views(textures_delta.set@);
        let mut k: usize = 0;
        while k < pool.len()
            invariant
                k <= pool@.len(),
                forall|j: int| 0 <= j < k ==> #[trigger] pool@[j] != 0,
            decreases pool@.len() - k,
        {
            if pool[k] == 0 {
                return false;
            }
            k += 1;
        }
        if !paints_meshes_only(clipped_primitives) {
            return false;
        }
        let mut scratch = self.textures.duplicate();
        let mut names = pool.clone();
        let mut i: usize = 0;
        while i < textures_delta.set.len()
            invariant
                i <= textures_delta.set@.len(),
                sets == set_views(textures_delta.set@),
                all_names(pool@),
                scratch@ == self@.registry.set_pass(sets.take(i as int), pool@).registry,
                names@ == self@.registry.set_pass(sets.take(i as int), pool@).pool,
                scratch@.wf(),
                all_names(names@),
                forall|j: int| 0 <= j < i ==> #[trigger] self@.registry.accepts_at(sets, pool@, j),
            decreases textures_delta.set@.len() - i,
        {
            proof {
                assert(sets.take(i + 1).drop_last() =~= sets.take(i as int));
            }
            if !scratch.accepts(textures_delta.set[i].0, &textures_delta.set[i].1, &names) {
                assert(!self@.registry.accepts_at(sets, pool@, i as int));
                return false;
            }
            scratch.apply_set(textures_delta.set[i].0, &textures_delta.set[i].1, &mut names);
            i += 1;
        }
        assert(sets.take(i as int) =~= sets);
        names.len() >= scratch.unrealised_count()
    }

    /// A number of fresh GL names that is enough for a frame with this
    /// delta, see [`RegistryView::names_needed`]; `usize::MAX` where that
    /// number is greater.
    pub fn names_needed(&self, textures_delta: &TexturesDelta) -> (count: usize)
        ensures
            count == if self@.registry.names_needed(set_views(textures_delta.set@)) <= usize::MAX {
                self@.registry.names_needed(set_views(textures_delta.set@))
            } else {
                usize::MAX as nat
            },
    {
        let ghost sets = set_views(textures_delta.set@);
        let mut full: usize = 0;
        let mut i: usize = 0;
        while i < textures_delta.set.len()
            invariant
                i <= textures_delta.set@.len(),
                sets == set_views(textures_delta.set@),
                full <= i,
                full == full_images(sets.take(i as int)),
            decreases textures_delta.set@.len() - i,
        {
            assert(sets.take(i + 1).drop_last() =~= sets.take(i as int));
            if textures_delta.set[i].1.pos.is_none() {
                full += 1;
            }
            i += 1;
        }
        assert(sets.take(i as int) =~= sets);
        let unrealised = self.textures.unrealised_count();
        if full > usize::MAX - unrealised {
            usize::MAX
        } else {
            full + unrealised
        }
    }
}

} // verus!

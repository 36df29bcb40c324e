//! Texture identifiers, sampling options and the GPU texture object.

use vstd::prelude::*;
use crate::gl::{call, stream, GlCall, GlCommand, GlCommandView};

verus! {

/// Names a texture of the registry.
#[derive(Clone, Copy, Debug, PartialEq, Eq, Hash, Structural)]
pub enum TextureId {
    /// A texture owned by the toolkit, such as its glyph atlas.
    Managed(u64),
    /// A texture allocated on behalf of the application.
    User(u64),
}

/// How texels are sampled when a texture is scaled.
#[derive(Clone, Copy, Debug, PartialEq, Eq, Hash, Structural)]
pub enum TextureFilter {
    Nearest,
    Linear,
}

/// How texture coordinates outside the unit square are mapped.
#[derive(Clone, Copy, Debug, PartialEq, Eq, Hash, Structural)]
pub enum TextureWrapMode {
    ClampToEdge,
    Repeat,
    MirroredRepeat,
}

/// Sampling options of a texture, fixed for its lifetime.
#[derive(Clone, Copy, Debug, PartialEq, Eq, Hash, Structural)]
pub struct TextureOptions {
    pub magnification: TextureFilter,
    pub minification: TextureFilter,
    pub wrap_mode: TextureWrapMode,
}

impl TextureOptions {
    /// Linear filtering both ways, clamped to the edge.
    pub fn linear() -> (options: TextureOptions)
        ensures
            options == (TextureOptions {
                magnification: TextureFilter::Linear,
                minification: TextureFilter::Linear,
                wrap_mode: TextureWrapMode::ClampToEdge,
            }),
    {
        TextureOptions {
            magnification: TextureFilter::Linear,
            minification: TextureFilter::Linear,
            wrap_mode: TextureWrapMode::ClampToEdge,
        }
    }
}

/// An sRGBA8 texel: red, green, blue and alpha, one byte each.
#[derive(Clone, Copy, Debug, PartialEq, Eq, Hash, Structural)]
pub struct Color32 {
    pub r: u8,
    pub g: u8,
    pub b: u8,
    pub a: u8,
}

impl Color32 {
    /// The four channels in the order in which they are stored.
    pub fn to_array(self) -> (channels: [u8; 4])
        ensures
            channels@ == texel_bytes(self),
    {
        let channels: [u8; 4] = [self.r, self.g, self.b, self.a];
        channels
    }
}

/// The bytes of one texel.
pub open spec fn texel_bytes(color: Color32) -> Seq<u8> {
    seq![color.r, color.g, color.b, color.a]
}

/// The bytes of a run of texels: four per texel, in order.
pub open spec fn srgba_bytes(pixels: Seq<Color32>) -> Seq<u8> {
    Seq::new(
        4 * pixels.len(),
        |i: int| texel_bytes(pixels[i / 4])[i % 4],
    )
}

/// Flattens texels into the byte buffer that an upload takes.
pub fn flatten_pixels(pixels: &[Color32]) -> (bytes: Vec<u8>)
    ensures
        bytes@ == srgba_bytes(pixels@),
{
    let mut bytes: Vec<u8> = Vec::new();
    let mut i: usize = 0;
    while i < pixels.len()
        invariant
            i <= pixels.len(),
            bytes@ == srgba_bytes(pixels@.take(i as int)),
        decreases pixels.len() - i,
    {
        let color = pixels[i];
        bytes.push(color.r);
        bytes.push(color.g);
        bytes.push(color.b);
        bytes.push(color.a);
        i += 1;
    }
    bytes
}

/// The number of bytes of a full image of the given size: four per texel.
pub open spec fn image_bytes(width: nat, height: nat) -> nat {
    4 * width * height
}

/// Whether the region of `width` by `height` texels at `(x, y)` lies inside a
/// texture of size `size`.
pub open spec fn region_fits(x: nat, y: nat, width: nat, height: nat, size: (nat, nat)) -> bool {
    x + width <= size.0 && y + height <= size.1
}

/// What a [`GuiTexture`] holds.
pub struct TextureView {
    /// The GL name; 0 while the GL object has not been created.
    pub name: u32,
    pub options: TextureOptions,
    /// Width and height in texels.
    pub size: (nat, nat),
    /// sRGBA8 bytes awaiting upload, or empty.
    pub pixels: Seq<u8>,
    /// Whether the pending pixels must be uploaded before the next use.
    pub dirty: bool,
}

/// One GL texture: its name, options and size, with the pixels that wait for
/// upload.
#[derive(Debug)]
pub struct GuiTexture {
    texture_id: u32,
    options: TextureOptions,
    size: [usize; 2],
    pixels: Vec<u8>,
    dirty: bool,
}

impl View for GuiTexture {
    type V = TextureView;

    closed spec fn view(&self) -> TextureView {
        TextureView {
            name: self.texture_id,
            options: self.options,
            size: (self.size[0] as nat, self.size[1] as nat),
            pixels: self.pixels@,
            dirty: self.dirty,
        }
    }
}

/// The commands that configure a fresh texture name.
pub open spec fn realise_stream(name: u32, options: TextureOptions) -> Seq<GlCommandView> {
    seq![
        call(GlCall::BindTexture(name)),
        call(GlCall::TextureWrapS(options.wrap_mode)),
        call(GlCall::TextureWrapT(options.wrap_mode)),
        call(GlCall::TextureMinFilter(options.minification)),
        call(GlCall::TextureMagFilter(options.magnification)),
    ]
}

/// The commands of a full upload.
pub open spec fn upload_stream(name: u32, size: (nat, nat), pixels: Seq<u8>) -> Seq<
    GlCommandView,
> {
    seq![
        call(GlCall::BindTexture(name)),
        GlCommandView::TexImage { width: size.0, height: size.1, pixels },
        call(GlCall::BindTexture(0)),
    ]
}

/// The commands of a sub-region upload.
pub open spec fn upload_sub_stream(
    name: u32,
    x: nat,
    y: nat,
    width: nat,
    height: nat,
    pixels: Seq<u8>,
) -> Seq<GlCommandView> {
    seq![
        call(GlCall::BindTexture(name)),
        call(GlCall::UnpackAlignment(1)),
        GlCommandView::TexSubImage { x, y, width, height, pixels },
        call(GlCall::BindTexture(0)),
    ]
}

/// The commands that release a texture: none while it has no GL object.
pub open spec fn free_stream(name: u32) -> Seq<GlCommandView> {
    if name != 0 {
        seq![call(GlCall::DeleteTexture(name))]
    } else {
        Seq::empty()
    }
}

impl GuiTexture {
    /// A texture with the given fields. No GL command is issued: the GL object
    /// is created by [`GuiTexture::gen_tex_and_bind`].
    pub fn new(
        texture_id: u32,
        options: TextureOptions,
        size: [usize; 2],
        pixels: Vec<u8>,
        dirty: bool,
    ) -> (texture: GuiTexture)
        ensures
            texture@ == (TextureView {
                name: texture_id,
                options,
                size: (size[0] as nat, size[1] as nat),
                pixels: pixels@,
                dirty,
            }),
    {
        GuiTexture { texture_id, options, size, pixels, dirty }
    }

    /// Wraps a GL texture that was created elsewhere: size 0, nothing pending.
    pub fn from_raw(id: u32) -> (texture: GuiTexture)
        ensures
            texture@ == (TextureView {
                name: id,
                options: TextureOptions {
                    magnification: TextureFilter::Linear,
                    minification: TextureFilter::Linear,
                    wrap_mode: TextureWrapMode::ClampToEdge,
                },
                size: (0, 0),
                pixels: Seq::empty(),
                dirty: false,
            }),
    {
        GuiTexture {
            texture_id: id,
            options: TextureOptions::linear(),
            size: [0, 0],
            pixels: Vec::new(),
            dirty: false,
        }
    }

    /// The GL name, 0 while the GL object has not been created.
    pub fn texture_id(&self) -> (name: u32)
        ensures
            name == self@.name,
    {
        self.texture_id
    }

    /// Width and height in texels.
    pub fn size(&self) -> (size: [usize; 2])
        ensures
            size[0] == self@.size.0,
            size[1] == self@.size.1,
    {
        self.size
    }

    /// The sampling options.
    pub fn options(&self) -> (options: TextureOptions)
        ensures
            options == self@.options,
    {
        self.options
    }

    /// Whether pending pixels wait for upload.
    pub fn dirty(&self) -> (dirty: bool)
        ensures
            dirty == self@.dirty,
    {
        self.dirty
    }

    /// The number of pending bytes.
    pub fn pending_len(&self) -> (len: usize)
        ensures
            len == self@.pixels.len(),
    {
        self.pixels.len()
    }

    /// Moves the pending pixels out and leaves none.
    pub fn take_pixels(&mut self) -> (pixels: Vec<u8>)
        ensures
            pixels@ == old(self)@.pixels,
            final(self)@ == (TextureView { pixels: Seq::empty(), ..old(self)@ }),
    {
        let mut pixels: Vec<u8> = Vec::new();
        std::mem::swap(&mut self.pixels, &mut pixels);
        pixels
    }

    /// Records the GL name.
    pub fn set_texture_id(&mut self, texture_id: u32)
        ensures
            final(self)@ == (TextureView { name: texture_id, ..old(self)@ }),
    {
        self.texture_id = texture_id;
    }

    /// Replaces the pending pixels.
    pub fn set_pixels(&mut self, pixels: Vec<u8>)
        ensures
            final(self)@ == (TextureView { pixels: pixels@, ..old(self)@ }),
    {
        self.pixels = pixels;
    }

    /// Sets or clears the dirty flag.
    pub fn set_dirty(&mut self, dirty: bool)
        ensures
            final(self)@ == (TextureView { dirty, ..old(self)@ }),
    {
        self.dirty = dirty;
    }

    /// A copy with the same contents.
    pub fn duplicate(&self) -> (copy: GuiTexture)
        ensures
            copy@ == self@,
    {
        let pixels = self.pixels.clone();
        GuiTexture {
            texture_id: self.texture_id,
            options: self.options,
            size: self.size,
            pixels,
            dirty: self.dirty,
        }
    }

    /// Gives the texture the fresh GL name `name`, binds it and
    /// sets wrap and filter parameters from the options. No pixels are
    /// uploaded.
    pub fn gen_tex_and_bind(&mut self, name: u32) -> (commands: Vec<GlCommand>)
        requires
            old(self)@.name == 0,
            name != 0,
        ensures
            final(self)@ == (TextureView { name, ..old(self)@ }),
            stream(commands@) == realise_stream(name, old(self)@.options),
    {
        self.texture_id = name;
        let commands = vec![
            GlCommand::Call(GlCall::BindTexture(name)),
            GlCommand::Call(GlCall::TextureWrapS(self.options.wrap_mode)),
            GlCommand::Call(GlCall::TextureWrapT(self.options.wrap_mode)),
            GlCommand::Call(GlCall::TextureMinFilter(self.options.minification)),
            GlCommand::Call(GlCall::TextureMagFilter(self.options.magnification)),
        ];
        commands
    }

    /// Releases the GL object, if there is one.
    pub fn free(&self) -> (commands: Vec<GlCommand>)
        ensures
            stream(commands@) == free_stream(self@.name),
    {
        let mut commands: Vec<GlCommand> = Vec::new();
        if self.texture_id != 0 {
            commands.push(GlCommand::Call(GlCall::DeleteTexture(self.texture_id)));
        }
        commands
    }

    /// Uploads a full image of the texture's size.
    pub fn upload(&self, data: Vec<u8>) -> (commands: Vec<GlCommand>)
        requires
            self@.name != 0,
            data@.len() == image_bytes(self@.size.0, self@.size.1),
        ensures
            stream(commands@) == upload_stream(self@.name, self@.size, data@),
    {
        let commands = vec![
            GlCommand::Call(GlCall::BindTexture(self.texture_id)),
            GlCommand::TexImage { width: self.size[0], height: self.size[1], pixels: data },
            GlCommand::Call(GlCall::BindTexture(0)),
        ];
        commands
    }

    /// Uploads the region of `texture_width` by `texture_height` texels at
    /// `(x_offset, y_offset)`.
    pub fn upload_sub(
        &self,
        x_offset: usize,
        y_offset: usize,
        texture_width: usize,
        texture_height: usize,
        data: Vec<u8>,
    ) -> (commands: Vec<GlCommand>)
        requires
            self@.name != 0,
            region_fits(
                x_offset as nat,
                y_offset as nat,
                texture_width as nat,
                texture_height as nat,
                self@.size,
            ),
            data@.len() == image_bytes(texture_width as nat, texture_height as nat),
        ensures
            stream(commands@) == upload_sub_stream(
                self@.name,
                x_offset as nat,
                y_offset as nat,
                texture_width as nat,
                texture_height as nat,
                data@,
            ),
    {
        let commands = vec![
            GlCommand::Call(GlCall::BindTexture(self.texture_id)),
            GlCommand::Call(GlCall::UnpackAlignment(1)),
            GlCommand::TexSubImage {
                x: x_offset,
                y: y_offset,
                width: texture_width,
                height: texture_height,
                pixels: data,
            },
            GlCommand::Call(GlCall::BindTexture(0)),
        ];
        commands
    }
}

} // verus!

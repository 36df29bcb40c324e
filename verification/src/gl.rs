//! The OpenGL command stream.
//!
//! The renderer never talks to the driver. Every operation returns the list of
//! GL commands that carry it out, in the order in which they must be issued;
//! the caller owns the context and replays the list.

use vstd::prelude::*;
use crate::carried::Single;
use crate::texture::{TextureFilter, TextureWrapMode};

verus! {

/// A server-side capability toggled with `glEnable` / `glDisable`.
#[derive(Clone, Copy, Debug, PartialEq, Eq, Structural)]
pub enum Capability {
    /// `GL_FRAMEBUFFER_SRGB`.
    FramebufferSrgb,
    /// `GL_SCISSOR_TEST`.
    ScissorTest,
    /// `GL_BLEND`.
    Blend,
}

/// A buffer binding point.
#[derive(Clone, Copy, Debug, PartialEq, Eq, Structural)]
pub enum BufferTarget {
    /// `GL_ARRAY_BUFFER`.
    Array,
    /// `GL_ELEMENT_ARRAY_BUFFER`.
    ElementArray,
}

/// The component type of a vertex attribute.
#[derive(Clone, Copy, Debug, PartialEq, Eq, Structural)]
pub enum ComponentType {
    /// `GL_FLOAT`: four bytes per component.
    Real,
    /// `GL_UNSIGNED_BYTE`: one byte per component.
    UnsignedByte,
}

/// A GL command that carries no buffer.
#[allow(inconsistent_fields)]
#[derive(Clone, Copy, Debug, PartialEq, Eq, Structural)]
pub enum GlCall {
    /// `glBindTexture(GL_TEXTURE_2D, name)`; name 0 unbinds.
    BindTexture(u32),
    /// `glTexParameteri(GL_TEXTURE_2D, GL_TEXTURE_WRAP_S, ..)`.
    TextureWrapS(TextureWrapMode),
    /// `glTexParameteri(GL_TEXTURE_2D, GL_TEXTURE_WRAP_T, ..)`.
    TextureWrapT(TextureWrapMode),
    /// `glTexParameteri(GL_TEXTURE_2D, GL_TEXTURE_MIN_FILTER, ..)`.
    TextureMinFilter(TextureFilter),
    /// `glTexParameteri(GL_TEXTURE_2D, GL_TEXTURE_MAG_FILTER, ..)`.
    TextureMagFilter(TextureFilter),
    /// `glPixelStorei(GL_UNPACK_ALIGNMENT, ..)`.
    UnpackAlignment(u8),
    /// `glDeleteTextures` of one name.
    DeleteTexture(u32),
    /// `glEnable`.
    Enable(Capability),
    /// `glDisable`.
    Disable(Capability),
    /// `glBlendFunc(GL_ONE, GL_ONE_MINUS_SRC_ALPHA)`: premultiplied alpha.
    BlendPremultiplied,
    /// `glUseProgram`.
    UseProgram(u32),
    /// `glActiveTexture(GL_TEXTURE0 + unit)`.
    ActiveTextureUnit(u32),
    /// `glUniform2f` of the screen size in logical points: the framebuffer
    /// size given here, in pixels, each divided by the pixels-per-point.
    ScreenSizeUniform { location: i32, width: u32, height: u32, pixels_per_point: Single },
    /// `glUniform1i` of the sampler's texture unit.
    SamplerUniform { location: i32, unit: u32 },
    /// `glViewport(0, 0, width, height)`.
    Viewport { width: u32, height: u32 },
    /// `glScissor`, with `y` measured from the bottom of the framebuffer.
    Scissor { x: u32, y: u32, width: u32, height: u32 },
    /// `glBindVertexArray`.
    BindVertexArray(u32),
    /// `glBindBuffer`.
    BindBuffer { target: BufferTarget, buffer: u32 },
    /// `glBufferData(GL_ARRAY_BUFFER, .., GL_STREAM_DRAW)` of the interleaved
    /// vertices of the clipped primitive with this index in the frame's list.
    BufferVertices { primitive: usize },
    /// `glVertexAttribPointer`, not normalised, with stride and offset in bytes.
    VertexAttribPointer {
        location: u32,
        components: u8,
        kind: ComponentType,
        stride: u8,
        offset: u8,
    },
    /// `glEnableVertexAttribArray`.
    EnableVertexAttribArray(u32),
    /// `glDisableVertexAttribArray`.
    DisableVertexAttribArray(u32),
    /// `glDrawElements(GL_TRIANGLES, count, GL_UNSIGNED_SHORT, 0)`.
    DrawTriangles { count: usize },
}

/// One GL command, with the data it uploads where it uploads any.
#[derive(Debug, PartialEq, Eq)]
pub enum GlCommand {
    /// A command without a buffer.
    Call(GlCall),
    /// `glTexImage2D` at level 0 with internal format `GL_SRGB8_ALPHA8`,
    /// format `GL_RGBA` and type `GL_UNSIGNED_BYTE`.
    TexImage { width: usize, height: usize, pixels: Vec<u8> },
    /// `glTexSubImage2D` at level 0 with format `GL_RGBA` and type
    /// `GL_UNSIGNED_BYTE`.
    TexSubImage { x: usize, y: usize, width: usize, height: usize, pixels: Vec<u8> },
    /// `glBufferData(GL_ELEMENT_ARRAY_BUFFER, .., GL_STREAM_DRAW)` of 16-bit
    /// indices.
    BufferIndices(Vec<u16>),
}

/// What a [`GlCommand`] says, with its buffer as a sequence.
pub enum GlCommandView {
    Call(GlCall),
    TexImage { width: nat, height: nat, pixels: Seq<u8> },
    TexSubImage { x: nat, y: nat, width: nat, height: nat, pixels: Seq<u8> },
    BufferIndices(Seq<u16>),
}

impl View for GlCommand {
    type V = GlCommandView;

    open spec fn view(&self) -> GlCommandView {
        match *self {
            GlCommand::Call(call) => GlCommandView::Call(call),
            GlCommand::TexImage { width, height, pixels } => GlCommandView::TexImage {
                width: width as nat,
                height: height as nat,
                pixels: pixels@,
            },
            GlCommand::TexSubImage { x, y, width, height, pixels } => GlCommandView::TexSubImage {
                x: x as nat,
                y: y as nat,
                width: width as nat,
                height: height as nat,
                pixels: pixels@,
            },
            GlCommand::BufferIndices(indices) => GlCommandView::BufferIndices(indices@),
        }
    }
}

/// The command stream that a list of commands stands for.
pub open spec fn stream(commands: Seq<GlCommand>) -> Seq<GlCommandView> {
    Seq::new(commands.len(), |i: int| commands[i]@)
}

/// A bare call as a stream element.
pub open spec fn call(c: GlCall) -> GlCommandView {
    GlCommandView::Call(c)
}

/// Appends `tail` to `commands`.
pub fn extend(commands: &mut Vec<GlCommand>, tail: Vec<GlCommand>)
    ensures
        stream(final(commands)@) == stream(old(commands)@) + stream(tail@),
{
    let mut tail = tail;
    commands.append(&mut tail);
}

} // verus!

//! One `IOSurface`, and what the framebuffer that draws into it is made of.

use crate::call::{
    Call, IoSurfaceProperties, Property, Query, Reply, ReplyKind, GL_BGRA, GL_COLOR_ATTACHMENT0,
    GL_DEPTH24_STENCIL8, GL_DEPTH_STENCIL_ATTACHMENT, GL_FRAMEBUFFER, GL_FRAMEBUFFER_COMPLETE,
    GL_LINEAR, GL_RENDERBUFFER, GL_RGBA, GL_TEXTURE_MAG_FILTER, GL_TEXTURE_MIN_FILTER,
    GL_TEXTURE_RECTANGLE, GL_UNSIGNED_INT_8_8_8_8_REV,
};
use crate::config::GlError;
use crate::machine::{ready, Machine, Stage, Step};
use crate::window::NIL;
use vstd::math::max;
use vstd::prelude::*;

verus! {

/// The bytes of one pixel.
pub const BYTES_PER_ELEMENT: i64 = 4;

/// The characters `BGRA`, the first one highest.
pub const PIXEL_FORMAT_BGRA: i64 = 0x4247_5241;

/// One `IOSurface`, the texture that stands for it, and the depth and stencil
/// buffer that goes with it.
#[derive(Clone, Copy, Debug, PartialEq, Eq)]
pub struct Surface {
    pub io_surface: usize,
    pub texture: u32,
    pub depth_stencil: u32,
    pub width: u32,
    pub height: u32,
}

/// A length of a surface: at least one pixel.
pub open spec fn at_least_one(length: u32) -> u32 {
    if length == 0 {
        1
    } else {
        length
    }
}

/// Raises a length to one pixel.
pub fn clamp_length(length: u32) -> (clamped: u32)
    ensures
        clamped == at_least_one(length),
        clamped == max(length as int, 1),
{
    if length < 1 {
        1
    } else {
        length
    }
}

/// A length as OpenGL takes it: in 32 bits with a sign, so that lengths from
/// 2^31 on come out negative.
pub open spec fn gl_length(length: u32) -> i32 {
    if length <= i32::MAX {
        length as i32
    } else {
        (length - 0x1_0000_0000) as i32
    }
}

fn to_gl_length(length: u32) -> (signed: i32)
    ensures
        signed == gl_length(length),
{
    assert(length <= 0x7FFF_FFFFu32 ==> length as i32 == length) by (bit_vector);
    assert(length > 0x7FFF_FFFFu32 ==> length as i32 == length - 0x1_0000_0000) by (bit_vector);
    #[verifier::truncate]
    (length as i32)
}

/// The properties of a surface of `width` by `height` pixels.
pub open spec fn properties_of(width: u32, height: u32) -> IoSurfaceProperties {
    IoSurfaceProperties {
        width: Property { key: "IOSurfaceWidth", value: width as i64 },
        height: Property { key: "IOSurfaceHeight", value: height as i64 },
        bytes_per_element: Property { key: "IOSurfaceBytesPerElement", value: BYTES_PER_ELEMENT },
        pixel_format: Property { key: "IOSurfacePixelFormat", value: PIXEL_FORMAT_BGRA },
    }
}

/// A surface that is being made.
#[derive(Clone, Copy, Debug, PartialEq, Eq)]
pub enum SurfaceBuild {
    /// Waits for the `IOSurface`.
    IoSurface { cgl: usize, width: u32, height: u32 },
    /// Waits for the texture's name.
    Texture { cgl: usize, width: u32, height: u32, io_surface: usize },
    /// Waits to hear whether the texture stands for the `IOSurface`.
    Image { width: u32, height: u32, io_surface: usize, texture: u32 },
    /// Waits for the renderbuffer's name.
    Renderbuffer { width: u32, height: u32, io_surface: usize, texture: u32 },
}

impl Surface {
    /// A surface has an `IOSurface`, of at least one pixel.
    pub open spec fn well_formed(self) -> bool {
        self.io_surface != NIL && self.width >= 1 && self.height >= 1
    }

    /// What making a surface wants first.
    pub open spec fn begin(cgl: usize, width: u32, height: u32) -> Stage<SurfaceBuild, Result<Surface, GlError>> {
        let width = at_least_one(width);
        let height = at_least_one(height);
        Stage::Ask {
            calls: seq![],
            query: Query::NewIoSurface { properties: properties_of(width, height) },
            next: SurfaceBuild::IoSurface { cgl, width, height },
        }
    }

    /// Makes an `IOSurface` and points a rectangle texture at it.
    ///
    /// `BGRA` and `GL_TEXTURE_RECTANGLE` are what `CGLTexImageIOSurface2D`
    /// accepts; neither is a preference.
    pub fn new(cgl: usize, width: u32, height: u32) -> (step: Step<SurfaceBuild, Result<Surface, GlError>>)
        ensures
            step@ == Surface::begin(cgl, width, height),
            ready(step@),
    {
        let width = clamp_length(width);
        let height = clamp_length(height);
        Step::Ask {
            calls: vec![],
            query: Query::NewIoSurface {
                properties: IoSurfaceProperties {
                    width: Property { key: "IOSurfaceWidth", value: width as i64 },
                    height: Property { key: "IOSurfaceHeight", value: height as i64 },
                    bytes_per_element: Property {
                        key: "IOSurfaceBytesPerElement",
                        value: BYTES_PER_ELEMENT,
                    },
                    pixel_format: Property { key: "IOSurfacePixelFormat", value: PIXEL_FORMAT_BGRA },
                },
            },
            next: SurfaceBuild::IoSurface { cgl, width, height },
        }
    }

    /// The calls that hang the surface on a framebuffer, which stays bound.
    pub open spec fn attaching(self, framebuffer: u32) -> Seq<Call> {
        seq![
            Call::BindFramebuffer { target: GL_FRAMEBUFFER, framebuffer },
            Call::FramebufferTexture {
                target: GL_FRAMEBUFFER,
                attachment: GL_COLOR_ATTACHMENT0,
                textarget: GL_TEXTURE_RECTANGLE,
                texture: self.texture,
                level: 0,
            },
            Call::FramebufferRenderbuffer {
                target: GL_FRAMEBUFFER,
                attachment: GL_DEPTH_STENCIL_ATTACHMENT,
                rbtarget: GL_RENDERBUFFER,
                renderbuffer: self.depth_stencil,
            },
        ]
    }

    /// Hangs the surface on a framebuffer: the calls to make, and the query
    /// whose result [`Surface::attached`] judges.
    pub fn attach_to(&self, framebuffer: u32) -> (asked: (Vec<Call>, Query))
        ensures
            asked.0@ == self.attaching(framebuffer),
            asked.1 == (Query::FramebufferStatus { target: GL_FRAMEBUFFER }),
    {
        let calls = vec![
            Call::BindFramebuffer { target: GL_FRAMEBUFFER, framebuffer },
            Call::FramebufferTexture {
                target: GL_FRAMEBUFFER,
                attachment: GL_COLOR_ATTACHMENT0,
                textarget: GL_TEXTURE_RECTANGLE,
                texture: self.texture,
                level: 0,
            },
            Call::FramebufferRenderbuffer {
                target: GL_FRAMEBUFFER,
                attachment: GL_DEPTH_STENCIL_ATTACHMENT,
                rbtarget: GL_RENDERBUFFER,
                renderbuffer: self.depth_stencil,
            },
        ];
        (calls, Query::FramebufferStatus { target: GL_FRAMEBUFFER })
    }

    /// Whether a framebuffer with this status can be drawn into.
    pub fn attached(status: u32) -> (attached: Result<(), GlError>)
        ensures
            attached is Ok <==> status == 0x8CD5,
            attached == if status == GL_FRAMEBUFFER_COMPLETE {
                Ok::<(), GlError>(())
            } else {
                Err(GlError::CreationFailed(()))
            },
    {
        if status != GL_FRAMEBUFFER_COMPLETE {
            return Err(GlError::CreationFailed(()));
        }
        Ok(())
    }

    /// The calls that give up what the surface is made of.
    pub open spec fn destroying(self) -> Seq<Call> {
        seq![
            Call::DeleteTexture { texture: self.texture },
            Call::DeleteRenderbuffer { renderbuffer: self.depth_stencil },
            Call::Release { object: self.io_surface },
        ]
    }

    /// Gives up what the surface is made of.
    pub fn destroy(&self) -> (calls: Vec<Call>)
        ensures
            calls@ == self.destroying(),
    {
        vec![
            Call::DeleteTexture { texture: self.texture },
            Call::DeleteRenderbuffer { renderbuffer: self.depth_stencil },
            Call::Release { object: self.io_surface },
        ]
    }
}

/// The calls that bind a new texture and have it filtered linearly.
pub open spec fn preparing_texture(texture: u32) -> Seq<Call> {
    seq![
        Call::BindTexture { target: GL_TEXTURE_RECTANGLE, texture },
        Call::TexParameter { target: GL_TEXTURE_RECTANGLE, name: GL_TEXTURE_MIN_FILTER, value: GL_LINEAR },
        Call::TexParameter { target: GL_TEXTURE_RECTANGLE, name: GL_TEXTURE_MAG_FILTER, value: GL_LINEAR },
    ]
}

/// The query that points the bound texture at an `IOSurface`.
pub open spec fn image_of(cgl: usize, width: u32, height: u32, io_surface: usize) -> Query {
    Query::TexImageIoSurface {
        cgl,
        target: GL_TEXTURE_RECTANGLE,
        internal_format: GL_RGBA,
        width,
        height,
        format: GL_BGRA,
        ty: GL_UNSIGNED_INT_8_8_8_8_REV,
        io_surface,
        plane: 0,
    }
}

/// The call that unbinds a texture.
pub open spec fn unbinding() -> Seq<Call> {
    seq![Call::BindTexture { target: GL_TEXTURE_RECTANGLE, texture: 0 }]
}

/// The calls that give a new renderbuffer room for depth and stencil.
pub open spec fn preparing_renderbuffer(renderbuffer: u32, width: u32, height: u32) -> Seq<Call> {
    seq![
        Call::BindRenderbuffer { target: GL_RENDERBUFFER, renderbuffer },
        Call::RenderbufferStorage {
            target: GL_RENDERBUFFER,
            format: GL_DEPTH24_STENCIL8,
            width: gl_length(width),
            height: gl_length(height),
        },
        Call::BindRenderbuffer { target: GL_RENDERBUFFER, renderbuffer: 0 },
    ]
}

impl Machine for SurfaceBuild {
    type Outcome = Result<Surface, GlError>;

    open spec fn awaits(self) -> ReplyKind {
        match self {
            SurfaceBuild::IoSurface { .. } => ReplyKind::Object,
            SurfaceBuild::Texture { .. } => ReplyKind::Name,
            SurfaceBuild::Image { .. } => ReplyKind::Code,
            SurfaceBuild::Renderbuffer { .. } => ReplyKind::Name,
        }
    }

    open spec fn well_formed(self) -> bool {
        match self {
            SurfaceBuild::IoSurface { width, height, .. } => width >= 1 && height >= 1,
            SurfaceBuild::Texture { width, height, io_surface, .. } => {
                io_surface != NIL && width >= 1 && height >= 1
            },
            SurfaceBuild::Image { width, height, io_surface, .. } => {
                io_surface != NIL && width >= 1 && height >= 1
            },
            SurfaceBuild::Renderbuffer { width, height, io_surface, .. } => {
                io_surface != NIL && width >= 1 && height >= 1
            },
        }
    }

    open spec fn sound(outcome: Result<Surface, GlError>) -> bool {
        outcome matches Ok(surface) ==> surface.well_formed()
    }

    open spec fn transition(self, reply: Reply) -> Stage<Self, Result<Surface, GlError>> {
        match self {
            SurfaceBuild::IoSurface { cgl, width, height } => {
                let io_surface = reply->Object_0;
                if io_surface == NIL {
                    Stage::Finish { calls: seq![], result: Err(GlError::CreationFailed(())) }
                } else {
                    Stage::Ask {
                        calls: seq![],
                        query: Query::GenTexture,
                        next: SurfaceBuild::Texture { cgl, width, height, io_surface },
                    }
                }
            },
            SurfaceBuild::Texture { cgl, width, height, io_surface } => {
                let texture = reply->Name_0;
                Stage::Ask {
                    calls: preparing_texture(texture),
                    query: image_of(cgl, width, height, io_surface),
                    next: SurfaceBuild::Image { width, height, io_surface, texture },
                }
            },
            SurfaceBuild::Image { width, height, io_surface, texture } => {
                if reply->Code_0 != 0 {
                    Stage::Finish { calls: unbinding(), result: Err(GlError::CreationFailed(())) }
                } else {
                    Stage::Ask {
                        calls: unbinding(),
                        query: Query::GenRenderbuffer,
                        next: SurfaceBuild::Renderbuffer { width, height, io_surface, texture },
                    }
                }
            },
            SurfaceBuild::Renderbuffer { width, height, io_surface, texture } => {
                let depth_stencil = reply->Name_0;
                Stage::Finish {
                    calls: preparing_renderbuffer(depth_stencil, width, height),
                    result: Ok(Surface { io_surface, texture, depth_stencil, width, height }),
                }
            },
        }
    }

    proof fn lemma_transition(self, reply: Reply) {
    }

    fn resume(self, reply: Reply) -> (step: Step<Self, Result<Surface, GlError>>) {
        match self {
            SurfaceBuild::IoSurface { cgl, width, height } => {
                let io_surface = reply.object();
                if io_surface == NIL {
                    return Step::Finish { calls: vec![], result: Err(GlError::CreationFailed(())) };
                }
                Step::Ask {
                    calls: vec![],
                    query: Query::GenTexture,
                    next: SurfaceBuild::Texture { cgl, width, height, io_surface },
                }
            },
            SurfaceBuild::Texture { cgl, width, height, io_surface } => {
                let texture = reply.name();
                Step::Ask {
                    calls: vec![
                        Call::BindTexture { target: GL_TEXTURE_RECTANGLE, texture },
                        Call::TexParameter {
                            target: GL_TEXTURE_RECTANGLE,
                            name: GL_TEXTURE_MIN_FILTER,
                            value: GL_LINEAR,
                        },
                        Call::TexParameter {
                            target: GL_TEXTURE_RECTANGLE,
                            name: GL_TEXTURE_MAG_FILTER,
                            value: GL_LINEAR,
                        },
                    ],
                    query: Query::TexImageIoSurface {
                        cgl,
                        target: GL_TEXTURE_RECTANGLE,
                        internal_format: GL_RGBA,
                        width,
                        height,
                        format: GL_BGRA,
                        ty: GL_UNSIGNED_INT_8_8_8_8_REV,
                        io_surface,
                        plane: 0,
                    },
                    next: SurfaceBuild::Image { width, height, io_surface, texture },
                }
            },
            SurfaceBuild::Image { width, height, io_surface, texture } => {
                let calls = vec![Call::BindTexture { target: GL_TEXTURE_RECTANGLE, texture: 0 }];
                if reply.code() != 0 {
                    return Step::Finish { calls, result: Err(GlError::CreationFailed(())) };
                }
                Step::Ask {
                    calls,
                    query: Query::GenRenderbuffer,
                    next: SurfaceBuild::Renderbuffer { width, height, io_surface, texture },
                }
            },
            SurfaceBuild::Renderbuffer { width, height, io_surface, texture } => {
                let depth_stencil = reply.name();
                Step::Finish {
                    calls: vec![
                        Call::BindRenderbuffer { target: GL_RENDERBUFFER, renderbuffer: depth_stencil },
                        Call::RenderbufferStorage {
                            target: GL_RENDERBUFFER,
                            format: GL_DEPTH24_STENCIL8,
                            width: to_gl_length(width),
                            height: to_gl_length(height),
                        },
                        Call::BindRenderbuffer { target: GL_RENDERBUFFER, renderbuffer: 0 },
                    ],
                    result: Ok(Surface { io_surface, texture, depth_stencil, width, height }),
                }
            },
        }
    }
}

} // verus!

//! What is asked of OpenGL, of the window system and of Core Animation.

use crate::pixel_format::PixelFormat;
use vstd::prelude::*;

verus! {

pub const GL_FRAMEBUFFER: u32 = 0x8D40;
pub const GL_COLOR_ATTACHMENT0: u32 = 0x8CE0;
pub const GL_DEPTH_STENCIL_ATTACHMENT: u32 = 0x821A;
pub const GL_RENDERBUFFER: u32 = 0x8D41;
pub const GL_DEPTH24_STENCIL8: u32 = 0x88F0;
pub const GL_TEXTURE_RECTANGLE: u32 = 0x84F5;
pub const GL_TEXTURE_MIN_FILTER: u32 = 0x2801;
pub const GL_TEXTURE_MAG_FILTER: u32 = 0x2800;
pub const GL_LINEAR: i32 = 0x2601;
pub const GL_RGBA: u32 = 0x1908;
pub const GL_BGRA: u32 = 0x80E1;
pub const GL_UNSIGNED_INT_8_8_8_8_REV: u32 = 0x8367;
pub const GL_FRAMEBUFFER_COMPLETE: u32 = 0x8CD5;

/// The bits of the double `1.0`.
pub const SCALE_ONE: u64 = 0x3FF0_0000_0000_0000;

/// A size in points: the bits of two doubles.
#[derive(Clone, Copy, Debug, PartialEq, Eq)]
pub struct Size {
    pub width: u64,
    pub height: u64,
}

/// A rectangle in points: the bits of four doubles.
#[derive(Clone, Copy, Debug, PartialEq, Eq)]
pub struct Frame {
    pub x: u64,
    pub y: u64,
    pub size: Size,
}

/// One entry of a property dictionary.
#[derive(Clone, Copy, Debug, PartialEq, Eq)]
pub struct Property {
    pub key: &'static str,
    pub value: i64,
}

/// The properties that an `IOSurface` is created with.
#[derive(Clone, Copy, Debug, PartialEq, Eq)]
pub struct IoSurfaceProperties {
    pub width: Property,
    pub height: Property,
    pub bytes_per_element: Property,
    pub pixel_format: Property,
}

/// A call that is made for its effect.
#[derive(Clone, Copy, Debug, PartialEq, Eq)]
pub enum Call {
    Release { object: usize },
    SetSwapInterval { context: usize, interval: i32 },
    SetWantsLayer { view: usize, wants: bool },
    SetLayerContentsPlacement { view: usize, placement: i64 },
    SetFrameSize { view: usize, size: Size },
    AddSubview { parent: usize, view: usize },
    RemoveFromSuperview { view: usize },
    SetContentsGravity { layer: usize, gravity: &'static str },
    SetOpaque { layer: usize, opaque: bool },
    SetContentsScale { layer: usize, scale: u64 },
    SetContents { layer: usize, io_surface: usize },
    MakeCurrent { context: usize },
    ClearCurrent { context: usize },
    BindTexture { target: u32, texture: u32 },
    TexParameter { target: u32, name: u32, value: i32 },
    BindRenderbuffer { target: u32, renderbuffer: u32 },
    RenderbufferStorage { target: u32, format: u32, width: i32, height: i32 },
    BindFramebuffer { target: u32, framebuffer: u32 },
    FramebufferTexture { target: u32, attachment: u32, textarget: u32, texture: u32, level: i32 },
    FramebufferRenderbuffer { target: u32, attachment: u32, rbtarget: u32, renderbuffer: u32 },
    DeleteTexture { texture: u32 },
    DeleteRenderbuffer { renderbuffer: u32 },
    DeleteFramebuffer { framebuffer: u32 },
    Flush,
}

/// A call that is made for its result.
#[derive(Clone, Copy, Debug, PartialEq, Eq)]
pub enum Query {
    /// A new pixel format, or nil.
    NewPixelFormat { wanted: PixelFormat },
    /// A new context, or nil.
    NewContext { pixel_format: usize, share: usize },
    /// A new view, or nil.
    NewView { frame: Frame },
    /// The frame of a view.
    FrameOf { view: usize },
    /// The layer of a view.
    LayerOf { view: usize },
    /// The view that a view is in, or nil.
    SuperviewOf { view: usize },
    /// The window that a view is in, or nil.
    WindowOf { view: usize },
    /// The backing scale factor of a window.
    BackingScaleOf { window: usize },
    /// A size in pixels: each length times the scale, as an integer.
    ToPixels { size: Size, scale: u64 },
    /// The CGL object of a context.
    CglContextOf { context: usize },
    /// A new `IOSurface`, or null.
    NewIoSurface { properties: IoSurfaceProperties },
    /// Points the texture that is bound to `target` at an `IOSurface`; zero if
    /// that was done.
    TexImageIoSurface {
        cgl: usize,
        target: u32,
        internal_format: u32,
        width: u32,
        height: u32,
        format: u32,
        ty: u32,
        io_surface: usize,
        plane: u32,
    },
    /// The name of a new texture.
    GenTexture,
    /// The name of a new renderbuffer.
    GenRenderbuffer,
    /// The name of a new framebuffer.
    GenFramebuffer,
    /// Whether the framebuffer that is bound to `target` can be drawn into.
    FramebufferStatus { target: u32 },
}

/// The kinds of result that a query has.
#[derive(Clone, Copy, Debug, PartialEq, Eq, Structural)]
pub enum ReplyKind {
    Object,
    Frame,
    Scale,
    Pixels,
    Name,
    Code,
    Status,
}

/// The result of a query.
#[derive(Clone, Copy, Debug, PartialEq, Eq)]
pub enum Reply {
    /// The address of an object, or that of none.
    Object(usize),
    Frame(Frame),
    /// The bits of a double.
    Scale(u64),
    Pixels { width: u32, height: u32 },
    /// The name of a GL object.
    Name(u32),
    /// A CGL error code.
    Code(i32),
    /// A framebuffer status.
    Status(u32),
}

impl Query {
    /// The kind of result that this query has.
    pub open spec fn kind(self) -> ReplyKind {
        match self {
            Query::NewPixelFormat { .. } => ReplyKind::Object,
            Query::NewContext { .. } => ReplyKind::Object,
            Query::NewView { .. } => ReplyKind::Object,
            Query::FrameOf { .. } => ReplyKind::Frame,
            Query::LayerOf { .. } => ReplyKind::Object,
            Query::SuperviewOf { .. } => ReplyKind::Object,
            Query::WindowOf { .. } => ReplyKind::Object,
            Query::BackingScaleOf { .. } => ReplyKind::Scale,
            Query::ToPixels { .. } => ReplyKind::Pixels,
            Query::CglContextOf { .. } => ReplyKind::Object,
            Query::NewIoSurface { .. } => ReplyKind::Object,
            Query::TexImageIoSurface { .. } => ReplyKind::Code,
            Query::GenTexture => ReplyKind::Name,
            Query::GenRenderbuffer => ReplyKind::Name,
            Query::GenFramebuffer => ReplyKind::Name,
            Query::FramebufferStatus { .. } => ReplyKind::Status,
        }
    }

    /// Whether `reply` is of the kind that this query has.
    pub fn answered_by(&self, reply: &Reply) -> (fits: bool)
        ensures
            fits == (reply.kind() == self.kind()),
    {
        match self {
            Query::NewPixelFormat { .. } => matches!(reply, Reply::Object(_)),
            Query::NewContext { .. } => matches!(reply, Reply::Object(_)),
            Query::NewView { .. } => matches!(reply, Reply::Object(_)),
            Query::FrameOf { .. } => matches!(reply, Reply::Frame(_)),
            Query::LayerOf { .. } => matches!(reply, Reply::Object(_)),
            Query::SuperviewOf { .. } => matches!(reply, Reply::Object(_)),
            Query::WindowOf { .. } => matches!(reply, Reply::Object(_)),
            Query::BackingScaleOf { .. } => matches!(reply, Reply::Scale(_)),
            Query::ToPixels { .. } => matches!(reply, Reply::Pixels { .. }),
            Query::CglContextOf { .. } => matches!(reply, Reply::Object(_)),
            Query::NewIoSurface { .. } => matches!(reply, Reply::Object(_)),
            Query::TexImageIoSurface { .. } => matches!(reply, Reply::Code(_)),
            Query::GenTexture => matches!(reply, Reply::Name(_)),
            Query::GenRenderbuffer => matches!(reply, Reply::Name(_)),
            Query::GenFramebuffer => matches!(reply, Reply::Name(_)),
            Query::FramebufferStatus { .. } => matches!(reply, Reply::Status(_)),
        }
    }
}

impl Reply {
    pub open spec fn kind(self) -> ReplyKind {
        match self {
            Reply::Object(_) => ReplyKind::Object,
            Reply::Frame(_) => ReplyKind::Frame,
            Reply::Scale(_) => ReplyKind::Scale,
            Reply::Pixels { .. } => ReplyKind::Pixels,
            Reply::Name(_) => ReplyKind::Name,
            Reply::Code(_) => ReplyKind::Code,
            Reply::Status(_) => ReplyKind::Status,
        }
    }

    pub(crate) fn object(self) -> (object: usize)
        requires
            self is Object,
        ensures
            self == Reply::Object(object),
    {
        match self {
            Reply::Object(object) => object,
            _ => 0,
        }
    }

    pub(crate) fn frame(self) -> (frame: Frame)
        requires
            self is Frame,
        ensures
            self == Reply::Frame(frame),
    {
        match self {
            Reply::Frame(frame) => frame,
            _ => Frame { x: 0, y: 0, size: Size { width: 0, height: 0 } },
        }
    }

    pub(crate) fn scale(self) -> (scale: u64)
        requires
            self is Scale,
        ensures
            self == Reply::Scale(scale),
    {
        match self {
            Reply::Scale(scale) => scale,
            _ => 0,
        }
    }

    pub(crate) fn pixels(self) -> (pixels: (u32, u32))
        requires
            self is Pixels,
        ensures
            self == (Reply::Pixels { width: pixels.0, height: pixels.1 }),
    {
        match self {
            Reply::Pixels { width, height } => (width, height),
            _ => (0, 0),
        }
    }

    pub(crate) fn name(self) -> (name: u32)
        requires
            self is Name,
        ensures
            self == Reply::Name(name),
    {
        match self {
            Reply::Name(name) => name,
            _ => 0,
        }
    }

    pub(crate) fn code(self) -> (code: i32)
        requires
            self is Code,
        ensures
            self == Reply::Code(code),
    {
        match self {
            Reply::Code(code) => code,
            _ => 0,
        }
    }

    pub(crate) fn status(self) -> (status: u32)
        requires
            self is Status,
        ensures
            self == Reply::Status(status),
    {
        match self {
            Reply::Status(status) => status,
            _ => 0,
        }
    }
}

} // verus!

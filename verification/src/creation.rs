//! The creation of a context.

use crate::call::{
    Call, Query, Reply, ReplyKind, Size, GL_FRAMEBUFFER, GL_FRAMEBUFFER_COMPLETE,
};
use crate::config::{GlConfig, GlError};
use crate::context::GlContext;
use crate::layer::{backing_scale, set_layer_contents, showing, BackingScale};
use crate::machine::{ready, Machine, Stage, Step};
use crate::pixel_format::{choose_profile, profile_for, PixelFormat};
use crate::surface::{Surface, SurfaceBuild};
use crate::window::{read_window, window_of, ParentWindow, NIL};
use raw_window_handle::RawWindowHandle;
use vstd::prelude::*;

verus! {

/// The gravity of a layer whose contents has its origin at the bottom left.
pub const GRAVITY_BOTTOM_LEFT: &'static str = "bottomLeft";

/// The objects of a context that does not draw yet.
#[derive(Clone, Copy, Debug, PartialEq, Eq)]
pub struct Canvas {
    pub context: usize,
    pub view: usize,
    pub layer: usize,
    /// The size of the view.
    pub size: Size,
}

/// A context that is being created.
#[derive(Clone, Copy, Debug, PartialEq, Eq)]
pub enum Creation {
    /// Waits for the pixel format.
    PixelFormat { parent: usize, vsync: bool },
    /// Waits for the context.
    Context { parent: usize, vsync: bool, pixel_format: usize },
    /// Waits for the frame of the parent.
    ParentFrame { parent: usize, context: usize },
    /// Waits for the view.
    View { parent: usize, context: usize, size: Size },
    /// Waits for the view's layer.
    Layer { parent: usize, context: usize, view: usize, size: Size },
    /// Waits for the CGL object.
    Cgl { parent: usize, canvas: Canvas },
    /// Looks up the scale.
    Scale { canvas: Canvas, cgl: usize, lookup: BackingScale },
    /// Waits for the size in pixels.
    Pixels { canvas: Canvas, cgl: usize, scale: u64 },
    /// Waits for the framebuffer's name.
    Framebuffer { canvas: Canvas, cgl: usize, scale: u64, width: u32, height: u32 },
    /// Makes the surface.
    Build { canvas: Canvas, scale: u64, framebuffer: u32, build: SurfaceBuild },
    /// Waits to hear whether the framebuffer can be drawn into.
    Attach { canvas: Canvas, scale: u64, framebuffer: u32, surface: Surface },
}

/// The calls that have a new view backed by a layer.
pub open spec fn backing_with_layer(view: usize) -> Seq<Call> {
    seq![
        Call::SetWantsLayer { view, wants: true },
        Call::SetLayerContentsPlacement { view, placement: 0 },
    ]
}

/// The calls that put a new view into its parent and make the context current.
pub open spec fn installing(parent: usize, canvas: Canvas) -> Seq<Call> {
    seq![
        Call::SetContentsGravity { layer: canvas.layer, gravity: "bottomLeft" },
        Call::SetOpaque { layer: canvas.layer, opaque: true },
        Call::AddSubview { parent, view: canvas.view },
        Call::MakeCurrent { context: canvas.context },
    ]
}

impl Creation {
    /// What is wanted once the scale lookup wants `stage`.
    pub open spec fn with_scale(canvas: Canvas, cgl: usize, stage: Stage<BackingScale, u64>) -> Stage<
        Creation,
        Result<GlContext, GlError>,
    > {
        match stage {
            Stage::Ask { calls, query, next } => Stage::Ask {
                calls,
                query,
                next: Creation::Scale { canvas, cgl, lookup: next },
            },
            Stage::Finish { calls, result } => Stage::Ask {
                calls,
                query: Query::ToPixels { size: canvas.size, scale: result },
                next: Creation::Pixels { canvas, cgl, scale: result },
            },
        }
    }

    /// What is wanted once the making of the surface wants `stage`.
    pub open spec fn with_surface(
        canvas: Canvas,
        scale: u64,
        framebuffer: u32,
        stage: Stage<SurfaceBuild, Result<Surface, GlError>>,
    ) -> Stage<Creation, Result<GlContext, GlError>> {
        match stage {
            Stage::Ask { calls, query, next } => Stage::Ask {
                calls,
                query,
                next: Creation::Build { canvas, scale, framebuffer, build: next },
            },
            Stage::Finish { calls, result: Ok(surface) } => Stage::Ask {
                calls: calls + surface.attaching(framebuffer),
                query: Query::FramebufferStatus { target: GL_FRAMEBUFFER },
                next: Creation::Attach { canvas, scale, framebuffer, surface },
            },
            Stage::Finish { calls, result: Err(error) } => Stage::Finish { calls, result: Err(error) },
        }
    }
}

fn continue_scale(canvas: Canvas, cgl: usize, step: Step<BackingScale, u64>) -> (out: Step<
    Creation,
    Result<GlContext, GlError>,
>)
    ensures
        out@ == Creation::with_scale(canvas, cgl, step@),
{
    match step {
        Step::Ask { calls, query, next } => Step::Ask {
            calls,
            query,
            next: Creation::Scale { canvas, cgl, lookup: next },
        },
        Step::Finish { calls, result } => Step::Ask {
            calls,
            query: Query::ToPixels { size: canvas.size, scale: result },
            next: Creation::Pixels { canvas, cgl, scale: result },
        },
    }
}

fn continue_surface(
    canvas: Canvas,
    scale: u64,
    framebuffer: u32,
    step: Step<SurfaceBuild, Result<Surface, GlError>>,
) -> (out: Step<Creation, Result<GlContext, GlError>>)
    ensures
        out@ == Creation::with_surface(canvas, scale, framebuffer, step@),
{
    match step {
        Step::Ask { calls, query, next } => Step::Ask {
            calls,
            query,
            next: Creation::Build { canvas, scale, framebuffer, build: next },
        },
        Step::Finish { mut calls, result } => match result {
            Ok(surface) => {
                let (mut attaching, query) = surface.attach_to(framebuffer);
                calls.append(&mut attaching);
                Step::Ask {
                    calls,
                    query,
                    next: Creation::Attach { canvas, scale, framebuffer, surface },
                }
            },
            Err(error) => Step::Finish { calls, result: Err(error) },
        },
    }
}

impl GlContext {
    /// What creating a context in `window` wants first.
    pub open spec fn creating(window: ParentWindow, config: GlConfig) -> Stage<
        Creation,
        Result<GlContext, GlError>,
    > {
        if !window.usable() {
            Stage::Finish { calls: seq![], result: Err(GlError::InvalidWindowHandle) }
        } else {
            match profile_for(config.version, config.profile) {
                None => Stage::Finish { calls: seq![], result: Err(GlError::VersionNotSupported) },
                Some(profile) => Stage::Ask {
                    calls: seq![],
                    query: Query::NewPixelFormat { wanted: PixelFormat::of(profile, config) },
                    next: Creation::PixelFormat { parent: window->ns_view, vsync: config.vsync },
                },
            }
        }
    }

    /// The colour channels can be added in eight bits, if it comes to that.
    pub open spec fn can_create(window: ParentWindow, config: GlConfig) -> bool {
        window.usable() && profile_for(config.version, config.profile) is Some
            ==> config.color_bits() <= u8::MAX
    }

    /// Creates a context in the window of `parent`.
    pub fn create(parent: &RawWindowHandle, config: GlConfig) -> (step: Step<
        Creation,
        Result<GlContext, GlError>,
    >)
        requires
            GlContext::can_create(window_of(*parent), config),
        ensures
            step@ == GlContext::creating(window_of(*parent), config),
            ready(step@),
    {
        let window = read_window(parent);
        GlContext::create_in(window, config)
    }

    /// Creates a context in the window of `parent`, unless the colour channels
    /// cannot be added in eight bits though it comes to that.
    pub fn checked_create(parent: &RawWindowHandle, config: GlConfig) -> (step: Option<
        Step<Creation, Result<GlContext, GlError>>,
    >)
        ensures
            step is Some <==> GlContext::can_create(window_of(*parent), config),
            step matches Some(step) ==> step@ == GlContext::creating(window_of(*parent), config)
                && ready(step@),
    {
        let window = read_window(parent);
        let usable = match window {
            ParentWindow::AppKit { ns_view } => ns_view != NIL,
            ParentWindow::Other => false,
        };
        let offered = choose_profile(config.version, config.profile).is_ok();
        let color_bits = config.red_bits as u32 + config.blue_bits as u32 + config.green_bits as u32;
        if usable && offered && color_bits > u8::MAX as u32 {
            return None;
        }
        Some(GlContext::create(parent, config))
    }

    /// Creates a context in `window`.
    pub fn create_in(window: ParentWindow, config: GlConfig) -> (step: Step<
        Creation,
        Result<GlContext, GlError>,
    >)
        requires
            GlContext::can_create(window, config),
        ensures
            step@ == GlContext::creating(window, config),
            ready(step@),
    {
        let parent = match window {
            ParentWindow::AppKit { ns_view } => ns_view,
            ParentWindow::Other => {
                return Step::Finish { calls: vec![], result: Err(GlError::InvalidWindowHandle) };
            },
        };
        if parent == NIL {
            return Step::Finish { calls: vec![], result: Err(GlError::InvalidWindowHandle) };
        }
        match choose_profile(config.version, config.profile) {
            Err(error) => Step::Finish { calls: vec![], result: Err(error) },
            Ok(profile) => Step::Ask {
                calls: vec![],
                query: Query::NewPixelFormat { wanted: PixelFormat::new(profile, config) },
                next: Creation::PixelFormat { parent, vsync: config.vsync },
            },
        }
    }
}

impl Machine for Creation {
    type Outcome = Result<GlContext, GlError>;

    open spec fn awaits(self) -> ReplyKind {
        match self {
            Creation::PixelFormat { .. } => ReplyKind::Object,
            Creation::Context { .. } => ReplyKind::Object,
            Creation::ParentFrame { .. } => ReplyKind::Frame,
            Creation::View { .. } => ReplyKind::Object,
            Creation::Layer { .. } => ReplyKind::Object,
            Creation::Cgl { .. } => ReplyKind::Object,
            Creation::Scale { lookup, .. } => lookup.awaits(),
            Creation::Pixels { .. } => ReplyKind::Pixels,
            Creation::Framebuffer { .. } => ReplyKind::Name,
            Creation::Build { build, .. } => build.awaits(),
            Creation::Attach { .. } => ReplyKind::Status,
        }
    }

    open spec fn well_formed(self) -> bool {
        match self {
            Creation::Build { build, .. } => build.well_formed(),
            Creation::Attach { surface, .. } => surface.well_formed(),
            _ => true,
        }
    }

    open spec fn sound(outcome: Result<GlContext, GlError>) -> bool {
        outcome matches Ok(context) ==> context.well_formed()
    }

    open spec fn transition(self, reply: Reply) -> Stage<Self, Result<GlContext, GlError>> {
        let refused = Err(GlError::CreationFailed(()));
        match self {
            Creation::PixelFormat { parent, vsync } => {
                let pixel_format = reply->Object_0;
                if pixel_format == NIL {
                    Stage::Finish { calls: seq![], result: refused }
                } else {
                    Stage::Ask {
                        calls: seq![],
                        query: Query::NewContext { pixel_format, share: NIL },
                        next: Creation::Context { parent, vsync, pixel_format },
                    }
                }
            },
            Creation::Context { parent, vsync, pixel_format } => {
                let context = reply->Object_0;
                let release = Call::Release { object: pixel_format };
                if context == NIL {
                    Stage::Finish { calls: seq![release], result: refused }
                } else {
                    let interval = if vsync { 1i32 } else { 0i32 };
                    Stage::Ask {
                        calls: seq![release, Call::SetSwapInterval { context, interval }],
                        query: Query::FrameOf { view: parent },
                        next: Creation::ParentFrame { parent, context },
                    }
                }
            },
            Creation::ParentFrame { parent, context } => {
                let frame = reply->Frame_0;
                Stage::Ask {
                    calls: seq![],
                    query: Query::NewView { frame },
                    next: Creation::View { parent, context, size: frame.size },
                }
            },
            Creation::View { parent, context, size } => {
                let view = reply->Object_0;
                if view == NIL {
                    Stage::Finish { calls: seq![], result: refused }
                } else {
                    Stage::Ask {
                        calls: backing_with_layer(view),
                        query: Query::LayerOf { view },
                        next: Creation::Layer { parent, context, view, size },
                    }
                }
            },
            Creation::Layer { parent, context, view, size } => {
                let canvas = Canvas { context, view, layer: reply->Object_0, size };
                Stage::Ask {
                    calls: installing(parent, canvas),
                    query: Query::CglContextOf { context },
                    next: Creation::Cgl { parent, canvas },
                }
            },
            Creation::Cgl { parent, canvas } => {
                Creation::with_scale(canvas, reply->Object_0, BackingScale::begin(parent))
            },
            Creation::Scale { canvas, cgl, lookup } => {
                Creation::with_scale(canvas, cgl, lookup.transition(reply))
            },
            Creation::Pixels { canvas, cgl, scale } => Stage::Ask {
                calls: seq![],
                query: Query::GenFramebuffer,
                next: Creation::Framebuffer {
                    canvas,
                    cgl,
                    scale,
                    width: reply->Pixels_width,
                    height: reply->Pixels_height,
                },
            },
            Creation::Framebuffer { canvas, cgl, scale, width, height } => {
                Creation::with_surface(canvas, scale, reply->Name_0, Surface::begin(cgl, width, height))
            },
            Creation::Build { canvas, scale, framebuffer, build } => {
                Creation::with_surface(canvas, scale, framebuffer, build.transition(reply))
            },
            Creation::Attach { canvas, scale, framebuffer, surface } => {
                if reply->Status_0 != GL_FRAMEBUFFER_COMPLETE {
                    Stage::Finish { calls: seq![], result: refused }
                } else {
                    Stage::Finish {
                        calls: showing(canvas.layer, surface.io_surface, scale)
                            + seq![Call::ClearCurrent { context: canvas.context }],
                        result: Ok(GlContext {
                            view: canvas.view,
                            context: canvas.context,
                            framebuffer,
                            surface,
                            scale,
                        }),
                    }
                }
            },
        }
    }

    proof fn lemma_transition(self, reply: Reply) {
    }

    fn resume(self, reply: Reply) -> (step: Step<Self, Result<GlContext, GlError>>) {
        match self {
            Creation::PixelFormat { parent, vsync } => {
                let pixel_format = reply.object();
                if pixel_format == NIL {
                    return Step::Finish { calls: vec![], result: Err(GlError::CreationFailed(())) };
                }
                // A context with no view. It never presents anything itself.
                Step::Ask {
                    calls: vec![],
                    query: Query::NewContext { pixel_format, share: NIL },
                    next: Creation::Context { parent, vsync, pixel_format },
                }
            },
            Creation::Context { parent, vsync, pixel_format } => {
                let context = reply.object();
                let release = Call::Release { object: pixel_format };
                if context == NIL {
                    return Step::Finish {
                        calls: vec![release],
                        result: Err(GlError::CreationFailed(())),
                    };
                }
                let interval: i32 = if vsync { 1 } else { 0 };
                Step::Ask {
                    calls: vec![release, Call::SetSwapInterval { context, interval }],
                    query: Query::FrameOf { view: parent },
                    next: Creation::ParentFrame { parent, context },
                }
            },
            Creation::ParentFrame { parent, context } => {
                let frame = reply.frame();
                Step::Ask {
                    calls: vec![],
                    query: Query::NewView { frame },
                    next: Creation::View { parent, context, size: frame.size },
                }
            },
            Creation::View { parent, context, size } => {
                let view = reply.object();
                if view == NIL {
                    return Step::Finish { calls: vec![], result: Err(GlError::CreationFailed(())) };
                }
                Step::Ask {
                    calls: vec![
                        Call::SetWantsLayer { view, wants: true },
                        // The surface is drawn with its origin at the bottom,
                        // the way OpenGL leaves it; the layer is told to read
                        // it that way rather than the picture being flipped on
                        // the way in.
                        Call::SetLayerContentsPlacement { view, placement: 0 },
                    ],
                    query: Query::LayerOf { view },
                    next: Creation::Layer { parent, context, view, size },
                }
            },
            Creation::Layer { parent, context, view, size } => {
                let layer = reply.object();
                Step::Ask {
                    calls: vec![
                        Call::SetContentsGravity { layer, gravity: GRAVITY_BOTTOM_LEFT },
                        Call::SetOpaque { layer, opaque: true },
                        // The parent takes a reference to the view; the one
                        // that the view was made with stays the context's own.
                        Call::AddSubview { parent, view },
                        Call::MakeCurrent { context },
                    ],
                    query: Query::CglContextOf { context },
                    next: Creation::Cgl { parent, canvas: Canvas { context, view, layer, size } },
                }
            },
            Creation::Cgl { parent, canvas } => {
                let cgl = reply.object();
                continue_scale(canvas, cgl, backing_scale(parent))
            },
            Creation::Scale { canvas, cgl, lookup } => {
                continue_scale(canvas, cgl, lookup.resume(reply))
            },
            Creation::Pixels { canvas, cgl, scale } => {
                let (width, height) = reply.pixels();
                Step::Ask {
                    calls: vec![],
                    query: Query::GenFramebuffer,
                    next: Creation::Framebuffer { canvas, cgl, scale, width, height },
                }
            },
            Creation::Framebuffer { canvas, cgl, scale, width, height } => {
                let framebuffer = reply.name();
                continue_surface(canvas, scale, framebuffer, Surface::new(cgl, width, height))
            },
            Creation::Build { canvas, scale, framebuffer, build } => {
                continue_surface(canvas, scale, framebuffer, build.resume(reply))
            },
            Creation::Attach { canvas, scale, framebuffer, surface } => {
                match Surface::attached(reply.status()) {
                    Err(error) => Step::Finish { calls: vec![], result: Err(error) },
                    Ok(()) => {
                        let mut calls = set_layer_contents(canvas.layer, surface.io_surface, scale);
                        calls.push(Call::ClearCurrent { context: canvas.context });
                        Step::Finish {
                            calls,
                            result: Ok(
                                GlContext {
                                    view: canvas.view,
                                    context: canvas.context,
                                    framebuffer,
                                    surface,
                                    scale,
                                },
                            ),
                        }
                    },
                }
            },
        }
    }
}

} // verus!

//! The view and its surface follow the window.

use crate::call::{
    Call, Query, Reply, ReplyKind, Size, GL_FRAMEBUFFER, GL_FRAMEBUFFER_COMPLETE,
};
use crate::config::GlError;
use crate::context::GlContext;
use crate::layer::{backing_scale, set_layer_contents, showing, BackingScale};
use crate::machine::{ready, Machine, Stage, Step};
use crate::surface::{at_least_one, clamp_length, Surface, SurfaceBuild};
use crate::window::NIL;
use vstd::prelude::*;

verus! {

/// A context that is being resized.
#[derive(Clone, Copy, Debug, PartialEq, Eq)]
pub enum Resizing {
    /// Waits for the view that the view is in.
    Superview { context: GlContext, size: Size },
    /// Looks up the scale.
    Scale { context: GlContext, size: Size, lookup: BackingScale },
    /// Waits for the size in pixels.
    Pixels { context: GlContext },
    /// Waits for the CGL object.
    Cgl { context: GlContext, width: u32, height: u32 },
    /// Makes the surface that is to replace the present one.
    Build { context: GlContext, build: SurfaceBuild },
    /// Waits to hear whether the framebuffer can be drawn into.
    Attach { context: GlContext, surface: Surface },
    /// Waits for the layer to show the new surface in.
    Layer { context: GlContext },
}

impl Resizing {
    /// The context that is being resized, as it is so far.
    pub open spec fn context(self) -> GlContext {
        match self {
            Resizing::Superview { context, .. } => context,
            Resizing::Scale { context, .. } => context,
            Resizing::Pixels { context } => context,
            Resizing::Cgl { context, .. } => context,
            Resizing::Build { context, .. } => context,
            Resizing::Attach { context, .. } => context,
            Resizing::Layer { context } => context,
        }
    }

    /// What is wanted, after `calls`, once the scale is known.
    pub open spec fn scaled(calls: Seq<Call>, context: GlContext, size: Size, scale: u64) -> Stage<
        Resizing,
        GlContext,
    > {
        Stage::Ask {
            calls,
            query: Query::ToPixels { size, scale },
            next: Resizing::Pixels { context: GlContext { scale, ..context } },
        }
    }

    /// What is wanted once the scale lookup wants `stage`.
    pub open spec fn with_scale(context: GlContext, size: Size, stage: Stage<BackingScale, u64>) -> Stage<
        Resizing,
        GlContext,
    > {
        match stage {
            Stage::Ask { calls, query, next } => Stage::Ask {
                calls,
                query,
                next: Resizing::Scale { context, size, lookup: next },
            },
            Stage::Finish { calls, result } => Resizing::scaled(calls, context, size, result),
        }
    }

    /// What is wanted once the making of the surface wants `stage`. A surface
    /// that cannot be made leaves the present one in place.
    pub open spec fn with_surface(context: GlContext, stage: Stage<SurfaceBuild, Result<Surface, GlError>>) -> Stage<
        Resizing,
        GlContext,
    > {
        match stage {
            Stage::Ask { calls, query, next } => Stage::Ask {
                calls,
                query,
                next: Resizing::Build { context, build: next },
            },
            Stage::Finish { calls, result: Ok(surface) } => Stage::Ask {
                calls: calls + surface.attaching(context.framebuffer),
                query: Query::FramebufferStatus { target: GL_FRAMEBUFFER },
                next: Resizing::Attach { context, surface },
            },
            Stage::Finish { calls, result: Err(_) } => Stage::Finish {
                calls: calls + seq![Call::ClearCurrent { context: context.context }],
                result: context,
            },
        }
    }
}

fn ask_pixels(calls: Vec<Call>, context: GlContext, size: Size, scale: u64) -> (out: Step<
    Resizing,
    GlContext,
>)
    ensures
        out@ == Resizing::scaled(calls@, context, size, scale),
{
    Step::Ask {
        calls,
        query: Query::ToPixels { size, scale },
        next: Resizing::Pixels { context: GlContext { scale, ..context } },
    }
}

fn continue_scale(context: GlContext, size: Size, step: Step<BackingScale, u64>) -> (out: Step<
    Resizing,
    GlContext,
>)
    ensures
        out@ == Resizing::with_scale(context, size, step@),
{
    match step {
        Step::Ask { calls, query, next } => Step::Ask {
            calls,
            query,
            next: Resizing::Scale { context, size, lookup: next },
        },
        Step::Finish { calls, result } => ask_pixels(calls, context, size, result),
    }
}

fn continue_surface(context: GlContext, step: Step<SurfaceBuild, Result<Surface, GlError>>) -> (out: Step<
    Resizing,
    GlContext,
>)
    ensures
        out@ == Resizing::with_surface(context, step@),
{
    match step {
        Step::Ask { calls, query, next } => Step::Ask {
            calls,
            query,
            next: Resizing::Build { context, build: next },
        },
        Step::Finish { mut calls, result } => match result {
            Ok(surface) => {
                let (mut attaching, query) = surface.attach_to(context.framebuffer);
                calls.append(&mut attaching);
                Step::Ask { calls, query, next: Resizing::Attach { context, surface } }
            },
            Err(_) => {
                calls.push(Call::ClearCurrent { context: context.context });
                Step::Finish { calls, result: context }
            },
        },
    }
}

impl GlContext {
    /// What a resize wants first.
    pub open spec fn resizing(self, size: Size) -> Stage<Resizing, GlContext> {
        Stage::Ask {
            calls: seq![Call::SetFrameSize { view: self.view, size }],
            query: Query::SuperviewOf { view: self.view },
            next: Resizing::Superview { context: self, size },
        }
    }

    /// The view and its surface follow the window.
    pub fn resize(&self, size: Size) -> (step: Step<Resizing, GlContext>)
        ensures
            step@ == self.resizing(size),
            step@ matches Stage::Ask { query, next, .. } ==> query.kind() == next.awaits(),
            self.well_formed() ==> ready(step@),
    {
        Step::Ask {
            calls: vec![Call::SetFrameSize { view: self.view, size }],
            query: Query::SuperviewOf { view: self.view },
            next: Resizing::Superview { context: *self, size },
        }
    }
}

impl Machine for Resizing {
    type Outcome = GlContext;

    open spec fn awaits(self) -> ReplyKind {
        match self {
            Resizing::Superview { .. } => ReplyKind::Object,
            Resizing::Scale { lookup, .. } => lookup.awaits(),
            Resizing::Pixels { .. } => ReplyKind::Pixels,
            Resizing::Cgl { .. } => ReplyKind::Object,
            Resizing::Build { build, .. } => build.awaits(),
            Resizing::Attach { .. } => ReplyKind::Status,
            Resizing::Layer { .. } => ReplyKind::Object,
        }
    }

    open spec fn well_formed(self) -> bool {
        match self {
            Resizing::Superview { context, .. } => context.well_formed(),
            Resizing::Scale { context, .. } => context.well_formed(),
            Resizing::Pixels { context } => context.well_formed(),
            Resizing::Cgl { context, .. } => context.well_formed(),
            Resizing::Build { context, build } => context.well_formed() && build.well_formed(),
            Resizing::Attach { context, surface } => context.well_formed() && surface.well_formed(),
            Resizing::Layer { context } => context.well_formed(),
        }
    }

    open spec fn sound(outcome: GlContext) -> bool {
        outcome.well_formed()
    }

    open spec fn transition(self, reply: Reply) -> Stage<Self, GlContext> {
        match self {
            Resizing::Superview { context, size } => {
                let parent = reply->Object_0;
                if parent == NIL {
                    Resizing::scaled(seq![], context, size, context.scale)
                } else {
                    Resizing::with_scale(context, size, BackingScale::begin(parent))
                }
            },
            Resizing::Scale { context, size, lookup } => {
                Resizing::with_scale(context, size, lookup.transition(reply))
            },
            Resizing::Pixels { context } => {
                let width = at_least_one(reply->Pixels_width);
                let height = at_least_one(reply->Pixels_height);
                if context.surface.width == width && context.surface.height == height {
                    Stage::Finish { calls: seq![], result: context }
                } else {
                    Stage::Ask {
                        calls: seq![Call::MakeCurrent { context: context.context }],
                        query: Query::CglContextOf { context: context.context },
                        next: Resizing::Cgl { context, width, height },
                    }
                }
            },
            Resizing::Cgl { context, width, height } => {
                Resizing::with_surface(context, Surface::begin(reply->Object_0, width, height))
            },
            Resizing::Build { context, build } => {
                Resizing::with_surface(context, build.transition(reply))
            },
            Resizing::Attach { context, surface } => {
                if reply->Status_0 != GL_FRAMEBUFFER_COMPLETE {
                    Stage::Finish {
                        calls: seq![Call::ClearCurrent { context: context.context }],
                        result: context,
                    }
                } else {
                    Stage::Ask {
                        calls: context.surface.destroying(),
                        query: Query::LayerOf { view: context.view },
                        next: Resizing::Layer { context: GlContext { surface, ..context } },
                    }
                }
            },
            Resizing::Layer { context } => Stage::Finish {
                calls: showing(reply->Object_0, context.surface.io_surface, context.scale)
                    + seq![Call::ClearCurrent { context: context.context }],
                result: context,
            },
        }
    }

    proof fn lemma_transition(self, reply: Reply) {
    }

    fn resume(self, reply: Reply) -> (step: Step<Self, GlContext>) {
        match self {
            Resizing::Superview { context, size } => {
                let parent = reply.object();
                if parent == NIL {
                    let scale = context.scale;
                    ask_pixels(vec![], context, size, scale)
                } else {
                    continue_scale(context, size, backing_scale(parent))
                }
            },
            Resizing::Scale { context, size, lookup } => {
                continue_scale(context, size, lookup.resume(reply))
            },
            Resizing::Pixels { context } => {
                let (width, height) = reply.pixels();
                let width = clamp_length(width);
                let height = clamp_length(height);
                if context.surface.width == width && context.surface.height == height {
                    return Step::Finish { calls: vec![], result: context };
                }
                Step::Ask {
                    calls: vec![Call::MakeCurrent { context: context.context }],
                    query: Query::CglContextOf { context: context.context },
                    next: Resizing::Cgl { context, width, height },
                }
            },
            Resizing::Cgl { context, width, height } => {
                let cgl = reply.object();
                continue_surface(context, Surface::new(cgl, width, height))
            },
            Resizing::Build { context, build } => continue_surface(context, build.resume(reply)),
            Resizing::Attach { context, surface } => {
                match Surface::attached(reply.status()) {
                    Err(_) => Step::Finish {
                        calls: vec![Call::ClearCurrent { context: context.context }],
                        result: context,
                    },
                    // The framebuffer's name is kept, only what hangs off it is
                    // replaced.
                    Ok(()) => Step::Ask {
                        calls: context.surface.destroy(),
                        query: Query::LayerOf { view: context.view },
                        next: Resizing::Layer { context: GlContext { surface, ..context } },
                    },
                }
            },
            Resizing::Layer { context } => {
                let layer = reply.object();
                let mut calls = set_layer_contents(layer, context.surface.io_surface, context.scale);
                calls.push(Call::ClearCurrent { context: context.context });
                Step::Finish { calls, result: context }
            },
        }
    }
}

} // verus!

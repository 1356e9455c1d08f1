//! The context, and what it asks for when it is used.

use crate::call::{Call, Query, Reply, ReplyKind, GL_FRAMEBUFFER};
use crate::layer::{set_layer_contents, showing};
use crate::machine::{ready, Machine, Stage, Step};
use crate::surface::Surface;
use vstd::prelude::*;

verus! {

/// The bundle that the entry points of OpenGL are looked up in.
pub const OPENGL_BUNDLE: &'static str = "com.apple.opengl";

/// An OpenGL context that draws into an `IOSurface`, which a plain `CALayer`
/// then shows.
///
/// There is no `NSOpenGLView`, and that is the whole point: one added into a
/// host's window drops that window onto a compatibility compositing path that
/// it never leaves. What goes into the host's window here is an ordinary
/// layer-backed view whose layer's contents is an `IOSurface`. The caller
/// renders into [`GlContext::framebuffer`].
#[derive(Clone, Copy, Debug, PartialEq, Eq)]
pub struct GlContext {
    /// The view whose layer shows the surface. It is owned by the caller's view
    /// hierarchy; this holds a reference of its own, the one that the view was
    /// made with.
    pub view: usize,
    pub context: usize,
    /// The framebuffer that the caller draws into. Its name never changes, so a
    /// renderer that was told about it once stays correct across a resize: only
    /// the attachments are replaced.
    pub framebuffer: u32,
    pub surface: Surface,
    /// The bits of the scale that the surface is shown at.
    pub scale: u64,
}

/// An entry point to look up, and the bundle to look it up in.
#[derive(Clone, Copy, Debug, PartialEq, Eq)]
pub struct ProcLookup<'a> {
    pub bundle: &'static str,
    pub symbol: &'a str,
}

/// A frame that is being published: waits for the layer to show it in.
#[derive(Clone, Copy, Debug, PartialEq, Eq)]
pub struct Publication {
    pub io_surface: usize,
    pub scale: u64,
}

impl GlContext {
    /// The surface has an `IOSurface`, of at least one pixel.
    pub open spec fn well_formed(self) -> bool {
        self.surface.well_formed()
    }

    /// The framebuffer to render into. Its name is stable for the life of the
    /// context, so a renderer only has to be told once.
    pub fn framebuffer(&self) -> (framebuffer: u32)
        ensures
            framebuffer == self.framebuffer,
    {
        self.framebuffer
    }

    /// The calls that make the context current and bind its framebuffer.
    pub open spec fn making_current(self) -> Seq<Call> {
        seq![
            Call::MakeCurrent { context: self.context },
            Call::BindFramebuffer { target: GL_FRAMEBUFFER, framebuffer: self.framebuffer },
        ]
    }

    /// Makes the context current, ready to render into its framebuffer.
    pub fn make_current(&self) -> (calls: Vec<Call>)
        ensures
            calls@ == self.making_current(),
    {
        vec![
            Call::MakeCurrent { context: self.context },
            Call::BindFramebuffer { target: GL_FRAMEBUFFER, framebuffer: self.framebuffer },
        ]
    }

    /// The call that leaves no context current.
    pub open spec fn making_not_current(self) -> Seq<Call> {
        seq![Call::ClearCurrent { context: self.context }]
    }

    /// Leaves no context current.
    pub fn make_not_current(&self) -> (calls: Vec<Call>)
        ensures
            calls@ == self.making_not_current(),
    {
        vec![Call::ClearCurrent { context: self.context }]
    }

    /// Looks up an entry point of OpenGL. What the lookup gives is the address,
    /// as it is.
    pub fn get_proc_address<'a>(&self, symbol: &'a str) -> (lookup: ProcLookup<'a>)
        ensures
            lookup.bundle@ == "com.apple.opengl"@,
            lookup.symbol@ == symbol@,
    {
        ProcLookup { bundle: OPENGL_BUNDLE, symbol }
    }

    /// What publishing a frame wants first.
    pub open spec fn publishing(self) -> Stage<Publication, ()> {
        Stage::Ask {
            calls: seq![Call::Flush],
            query: Query::LayerOf { view: self.view },
            next: Publication { io_surface: self.surface.io_surface, scale: self.scale },
        }
    }

    /// Publishes the frame.
    ///
    /// Nothing is swapped and nothing waits: the drawing is finished with a
    /// flush and the surface is handed to the layer.
    pub fn swap_buffers(&self) -> (step: Step<Publication, ()>)
        ensures
            step@ == self.publishing(),
            ready(step@),
    {
        Step::Ask {
            calls: vec![Call::Flush],
            query: Query::LayerOf { view: self.view },
            next: Publication { io_surface: self.surface.io_surface, scale: self.scale },
        }
    }

    /// The calls that give up everything that the context holds.
    pub open spec fn dropping(self) -> Seq<Call> {
        seq![Call::MakeCurrent { context: self.context }]
            + self.surface.destroying()
            + seq![
                Call::DeleteFramebuffer { framebuffer: self.framebuffer },
                Call::ClearCurrent { context: self.context },
                Call::RemoveFromSuperview { view: self.view },
                Call::Release { object: self.context },
                Call::Release { object: self.view },
            ]
    }

    /// Gives up everything that the context holds.
    pub fn drop(&self) -> (calls: Vec<Call>)
        ensures
            calls@ == self.dropping(),
    {
        let mut calls = vec![Call::MakeCurrent { context: self.context }];
        let mut surface = self.surface.destroy();
        calls.append(&mut surface);
        let mut rest = vec![
            Call::DeleteFramebuffer { framebuffer: self.framebuffer },
            Call::ClearCurrent { context: self.context },
            Call::RemoveFromSuperview { view: self.view },
            Call::Release { object: self.context },
            Call::Release { object: self.view },
        ];
        calls.append(&mut rest);
        calls
    }
}

impl Machine for Publication {
    type Outcome = ();

    open spec fn awaits(self) -> ReplyKind {
        ReplyKind::Object
    }

    open spec fn well_formed(self) -> bool {
        true
    }

    open spec fn sound(outcome: ()) -> bool {
        true
    }

    open spec fn transition(self, reply: Reply) -> Stage<Self, ()> {
        Stage::Finish { calls: showing(reply->Object_0, self.io_surface, self.scale), result: () }
    }

    proof fn lemma_transition(self, reply: Reply) {
    }

    fn resume(self, reply: Reply) -> (step: Step<Self, ()>) {
        let layer = reply.object();
        Step::Finish { calls: set_layer_contents(layer, self.io_surface, self.scale), result: () }
    }
}

} // verus!

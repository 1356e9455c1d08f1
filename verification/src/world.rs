//! What the calls amount to: where the drawing goes, what is shown, and what is
//! held.

use crate::call::{
    Call, Query, Reply, GL_COLOR_ATTACHMENT0, GL_DEPTH_STENCIL_ATTACHMENT, GL_FRAMEBUFFER,
    GL_TEXTURE_RECTANGLE,
};
use crate::context::GlContext;
use crate::machine::{acts, Act};
use crate::surface::Surface;
use crate::window::NIL;
use vstd::prelude::*;

verus! {

/// The state of one OpenGL context, as far as the calls are made for it. The
/// names are those that OpenGL gives out, which are not zero; zero stands for
/// nothing bound.
#[verifier::ext_equal]
pub struct GlState {
    /// The framebuffer that is bound.
    pub bound_framebuffer: u32,
    /// The rectangle texture that is bound.
    pub bound_texture: u32,
    /// The texture that each framebuffer draws into.
    pub color: Map<u32, u32>,
    /// The renderbuffer that each framebuffer keeps depth and stencil in.
    pub depth_stencil: Map<u32, u32>,
    /// The `IOSurface` that each texture stands for.
    pub image: Map<u32, usize>,
}

/// The part of the state of OpenGL, the window system and Core Animation that
/// the calls are made for. Each call is taken to do what it asks for; a call of
/// OpenGL does it in the context that is current, and nothing without one.
#[verifier::ext_equal]
pub struct World {
    /// The context that is current.
    pub current: Option<usize>,
    /// The state of each OpenGL context.
    pub gl: Map<usize, GlState>,
    /// The `IOSurface` that each layer shows.
    pub contents: Map<usize, usize>,
    /// The scale that each layer shows its contents at.
    pub contents_scale: Map<usize, u64>,
    /// The view that each view is in.
    pub superview: Map<usize, usize>,
}

/// A map without a key, if the key is mapped to `value`.
pub open spec fn without<V>(map: Map<u32, V>, key: u32, value: V) -> Map<u32, V> {
    if map.contains_pair(key, value) {
        map.remove(key)
    } else {
        map
    }
}

/// What is bound once `deleted` is no more.
pub open spec fn still_bound(bound: u32, deleted: u32) -> u32 {
    if bound == deleted {
        0
    } else {
        bound
    }
}

impl GlState {
    /// What it is once `framebuffer` is bound and draws into `texture`, which
    /// stands for `io_surface`, with `depth_stencil` beside it.
    pub open spec fn hung(
        self,
        framebuffer: u32,
        texture: u32,
        depth_stencil: u32,
        io_surface: usize,
    ) -> GlState {
        GlState {
            bound_framebuffer: framebuffer,
            bound_texture: 0,
            color: self.color.insert(framebuffer, texture),
            depth_stencil: self.depth_stencil.insert(framebuffer, depth_stencil),
            image: self.image.insert(texture, io_surface),
        }
    }

    /// What it is once a surface's texture and renderbuffer are deleted: they
    /// are taken off the framebuffer that is bound.
    pub open spec fn without_surface(self, surface: Surface) -> GlState {
        GlState {
            bound_texture: still_bound(self.bound_texture, surface.texture),
            color: without(self.color, self.bound_framebuffer, surface.texture),
            depth_stencil: without(self.depth_stencil, self.bound_framebuffer, surface.depth_stencil),
            image: self.image.remove(surface.texture),
            ..self
        }
    }

    /// What it is once a framebuffer is deleted.
    pub open spec fn without_framebuffer(self, framebuffer: u32) -> GlState {
        GlState {
            bound_framebuffer: still_bound(self.bound_framebuffer, framebuffer),
            color: self.color.remove(framebuffer),
            depth_stencil: self.depth_stencil.remove(framebuffer),
            ..self
        }
    }

    /// What it is after `call`.
    pub open spec fn after_call(self, call: Call) -> GlState {
        match call {
            Call::BindFramebuffer { target, framebuffer } if target == GL_FRAMEBUFFER => GlState {
                bound_framebuffer: framebuffer,
                ..self
            },
            Call::BindTexture { target, texture } if target == GL_TEXTURE_RECTANGLE => GlState {
                bound_texture: texture,
                ..self
            },
            Call::FramebufferTexture { target, attachment, texture, .. } if target == GL_FRAMEBUFFER
                && attachment == GL_COLOR_ATTACHMENT0 => GlState {
                color: self.color.insert(self.bound_framebuffer, texture),
                ..self
            },
            Call::FramebufferRenderbuffer { target, attachment, renderbuffer, .. } if target
                == GL_FRAMEBUFFER && attachment == GL_DEPTH_STENCIL_ATTACHMENT => GlState {
                depth_stencil: self.depth_stencil.insert(self.bound_framebuffer, renderbuffer),
                ..self
            },
            // Deleting unbinds, and takes off the framebuffer that is bound.
            Call::DeleteTexture { texture } => GlState {
                bound_texture: still_bound(self.bound_texture, texture),
                color: without(self.color, self.bound_framebuffer, texture),
                image: self.image.remove(texture),
                ..self
            },
            Call::DeleteRenderbuffer { renderbuffer } => GlState {
                depth_stencil: without(self.depth_stencil, self.bound_framebuffer, renderbuffer),
                ..self
            },
            Call::DeleteFramebuffer { framebuffer } => self.without_framebuffer(framebuffer),
            _ => self,
        }
    }
}

/// A call that changes the state of the context that is current.
pub open spec fn is_drawing_call(call: Call) -> bool {
    ||| call is BindFramebuffer
    ||| call is BindTexture
    ||| call is FramebufferTexture
    ||| call is FramebufferRenderbuffer
    ||| call is DeleteTexture
    ||| call is DeleteRenderbuffer
    ||| call is DeleteFramebuffer
}

impl World {
    /// The state of `context` is `gl`, and the rest as it is.
    pub open spec fn with_gl(self, context: usize, gl: GlState) -> World {
        World { gl: self.gl.insert(context, gl), ..self }
    }

    /// What it is after `call`.
    pub open spec fn after_call(self, call: Call) -> World {
        match call {
            Call::MakeCurrent { context } => World { current: Some(context), ..self },
            Call::ClearCurrent { .. } => World { current: None, ..self },
            Call::SetContents { layer, io_surface } => World {
                contents: self.contents.insert(layer, io_surface),
                ..self
            },
            Call::SetContentsScale { layer, scale } => World {
                contents_scale: self.contents_scale.insert(layer, scale),
                ..self
            },
            Call::AddSubview { parent, view } => World {
                superview: self.superview.insert(view, parent),
                ..self
            },
            Call::RemoveFromSuperview { view } => World {
                superview: self.superview.remove(view),
                ..self
            },
            _ => match self.current {
                Some(context) if is_drawing_call(call) => self.with_gl(
                    context,
                    self.gl[context].after_call(call),
                ),
                _ => self,
            },
        }
    }

    /// What it is after `act`.
    pub open spec fn after_act(self, act: Act) -> World {
        match (act, self.current) {
            (Act::Call(call), _) => self.after_call(call),
            (
                Act::Query(Query::TexImageIoSurface { target, io_surface, .. }, Reply::Code(code)),
                Some(context),
            ) if target == GL_TEXTURE_RECTANGLE && code == 0 => {
                let gl = self.gl[context];
                self.with_gl(
                    context,
                    GlState { image: gl.image.insert(gl.bound_texture, io_surface), ..gl },
                )
            },
            _ => self,
        }
    }

    /// What it is after all of `trace`.
    pub open spec fn after(self, trace: Seq<Act>) -> World
        decreases trace.len(),
    {
        if trace.len() == 0 {
            self
        } else {
            self.after(trace.drop_last()).after_act(trace.last())
        }
    }

    /// Drawing into the context's framebuffer ends up in its `IOSurface`.
    pub open spec fn draws(self, context: GlContext) -> bool {
        let gl = self.gl[context.context];
        &&& gl.color.contains_pair(context.framebuffer, context.surface.texture)
        &&& gl.depth_stencil.contains_pair(context.framebuffer, context.surface.depth_stencil)
        &&& gl.image.contains_pair(context.surface.texture, context.surface.io_surface)
    }

    /// `layer` shows the context's `IOSurface`.
    pub open spec fn shows(self, context: GlContext, layer: usize) -> bool {
        self.contents.contains_pair(layer, context.surface.io_surface)
    }

    /// `layer` shows what it shows at the context's scale.
    pub open spec fn scales(self, context: GlContext, layer: usize) -> bool {
        self.contents_scale.contains_pair(layer, context.scale)
    }
}

/// Something that is held until it is given up: a reference to an object, or an
/// object of OpenGL.
pub enum Resource {
    Object(usize),
    Texture(u32),
    Renderbuffer(u32),
    Framebuffer(u32),
}

pub open spec fn one_if(condition: bool) -> int {
    if condition {
        1
    } else {
        0
    }
}

/// How many more of `resource` are held after `act`.
pub open spec fn gain(act: Act, resource: Resource) -> int {
    match act {
        Act::Call(Call::Release { object }) => -one_if(resource == Resource::Object(object)),
        Act::Call(Call::DeleteTexture { texture }) => -one_if(resource == Resource::Texture(texture)),
        Act::Call(Call::DeleteRenderbuffer { renderbuffer }) => -one_if(
            resource == Resource::Renderbuffer(renderbuffer),
        ),
        Act::Call(Call::DeleteFramebuffer { framebuffer }) => -one_if(
            resource == Resource::Framebuffer(framebuffer),
        ),
        Act::Query(query, Reply::Object(object)) if object != NIL && (query is NewPixelFormat
            || query is NewContext || query is NewView || query is NewIoSurface) => one_if(
            resource == Resource::Object(object),
        ),
        Act::Query(Query::GenTexture, Reply::Name(name)) => one_if(resource == Resource::Texture(name)),
        Act::Query(Query::GenRenderbuffer, Reply::Name(name)) => one_if(
            resource == Resource::Renderbuffer(name),
        ),
        Act::Query(Query::GenFramebuffer, Reply::Name(name)) => one_if(
            resource == Resource::Framebuffer(name),
        ),
        _ => 0,
    }
}

/// How many more of `resource` are held after all of `trace`.
pub open spec fn balance(trace: Seq<Act>, resource: Resource) -> int
    decreases trace.len(),
{
    if trace.len() == 0 {
        0
    } else {
        balance(trace.drop_last(), resource) + gain(trace.last(), resource)
    }
}

/// How many of `resource` a surface holds.
pub open spec fn surface_holds(surface: Surface, resource: Resource) -> int {
    one_if(resource == Resource::Object(surface.io_surface))
        + one_if(resource == Resource::Texture(surface.texture))
        + one_if(resource == Resource::Renderbuffer(surface.depth_stencil))
}

/// How many of `resource` a context holds.
pub open spec fn context_holds(context: GlContext, resource: Resource) -> int {
    surface_holds(context.surface, resource)
        + one_if(resource == Resource::Framebuffer(context.framebuffer))
        + one_if(resource == Resource::Object(context.context))
        + one_if(resource == Resource::Object(context.view))
}

pub broadcast proof fn lemma_acts_empty()
    ensures
        #[trigger] acts(Seq::<Call>::empty()) == Seq::<Act>::empty(),
{
    assert(acts(Seq::<Call>::empty()) =~= Seq::<Act>::empty());
}

pub broadcast proof fn lemma_acts_push(calls: Seq<Call>, call: Call)
    ensures
        #[trigger] acts(calls.push(call)) == acts(calls).push(Act::Call(call)),
{
    assert(acts(calls.push(call)) =~= acts(calls).push(Act::Call(call)));
}

pub broadcast proof fn lemma_acts_add(first: Seq<Call>, second: Seq<Call>)
    ensures
        #[trigger] acts(first + second) == acts(first) + acts(second),
{
    assert(acts(first + second) =~= acts(first) + acts(second));
}

pub broadcast proof fn lemma_after_empty(world: World)
    ensures
        #[trigger] world.after(Seq::<Act>::empty()) == world,
{
}

pub broadcast proof fn lemma_after_push(world: World, trace: Seq<Act>, act: Act)
    ensures
        #[trigger] world.after(trace.push(act)) == world.after(trace).after_act(act),
{
    assert(trace.push(act).drop_last() =~= trace);
}

pub broadcast proof fn lemma_after_add(world: World, first: Seq<Act>, second: Seq<Act>)
    ensures
        #[trigger] world.after(first + second) == world.after(first).after(second),
    decreases second.len(),
{
    if second.len() == 0 {
        assert(first + second =~= first);
    } else {
        lemma_after_add(world, first, second.drop_last());
        assert((first + second).drop_last() =~= first + second.drop_last());
    }
}

pub broadcast proof fn lemma_balance_empty(resource: Resource)
    ensures
        #[trigger] balance(Seq::<Act>::empty(), resource) == 0,
{
}

pub broadcast proof fn lemma_balance_push(trace: Seq<Act>, act: Act, resource: Resource)
    ensures
        #[trigger] balance(trace.push(act), resource) == balance(trace, resource) + gain(act, resource),
{
    assert(trace.push(act).drop_last() =~= trace);
}

pub broadcast proof fn lemma_balance_add(first: Seq<Act>, second: Seq<Act>, resource: Resource)
    ensures
        #[trigger] balance(first + second, resource) == balance(first, resource) + balance(
            second,
            resource,
        ),
    decreases second.len(),
{
    if second.len() == 0 {
        assert(first + second =~= first);
    } else {
        lemma_balance_add(first, second.drop_last(), resource);
        assert((first + second).drop_last() =~= first + second.drop_last());
    }
}

/// Reads traces act by act.
pub broadcast group group_traces {
    lemma_acts_empty,
    lemma_acts_push,
    lemma_acts_add,
    lemma_after_empty,
    lemma_after_push,
    lemma_after_add,
    lemma_balance_empty,
    lemma_balance_push,
    lemma_balance_add,
}

} // verus!

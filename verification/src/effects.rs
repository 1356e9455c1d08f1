//! What whole operations amount to.

use crate::call::{Call, Query, Reply, Size, GL_FRAMEBUFFER};
use crate::context::GlContext;
use crate::creation::{backing_with_layer, installing, Canvas};
use crate::history::{
    law_resize_outcome, CreationAnswers, ResizeAnswers, ScaleAnswers, SurfaceAnswers,
};
use crate::layer::showing;
use crate::machine::{acts, asked, run, Act};
use crate::pixel_format::PixelFormat;
use crate::surface::{
    image_of, preparing_renderbuffer, preparing_texture, properties_of, unbinding, Surface,
};
use crate::window::NIL;
use crate::world::{
    balance, gain, group_traces, one_if, surface_holds, GlState, Resource, World,
};
use vstd::prelude::*;

verus! {

/// How many of `resource` the making of a surface takes, whether or not it is
/// refused.
pub open spec fn surface_takes(answers: SurfaceAnswers, resource: Resource) -> int {
    if answers.io_surface == NIL {
        0
    } else {
        one_if(resource == Resource::Object(answers.io_surface))
            + one_if(resource == Resource::Texture(answers.texture))
            + one_if(answers.made() && resource == Resource::Renderbuffer(answers.depth_stencil))
    }
}

/// How many of `resource` the creation of a context takes, whether or not it is
/// refused.
pub open spec fn creation_takes(answers: CreationAnswers, resource: Resource) -> int {
    if answers.pixel_format == NIL || answers.context == NIL {
        0
    } else if answers.view == NIL {
        one_if(resource == Resource::Object(answers.context))
    } else {
        one_if(resource == Resource::Object(answers.context))
            + one_if(resource == Resource::Object(answers.view))
            + one_if(resource == Resource::Framebuffer(answers.framebuffer))
            + surface_takes(answers.surface, resource)
    }
}

/// The state of an OpenGL context once a new surface hangs on `framebuffer`.
pub open spec fn drawn_into(gl: GlState, framebuffer: u32, answers: SurfaceAnswers) -> GlState {
    gl.hung(framebuffer, answers.texture, answers.depth_stencil, answers.io_surface)
}

/// The world once a context has been created in the view `parent`.
pub open spec fn created_world(world: World, answers: CreationAnswers, parent: usize) -> World {
    let surface = answers.surface;
    let gl = world.gl[answers.context];
    World {
        current: None,
        gl: world.gl.insert(answers.context, drawn_into(gl, answers.framebuffer, surface)),
        contents: world.contents.insert(answers.layer, surface.io_surface),
        contents_scale: world.contents_scale.insert(answers.layer, answers.scale.scale()),
        superview: world.superview.insert(answers.view, parent),
    }
}

/// Looking up a scale changes nothing and takes nothing.
pub(crate) proof fn lemma_scale_script(world: World, answers: ScaleAnswers, view: usize, rest: Seq<Act>, resource: Resource)
    ensures
        world.after(answers.script(view, rest)) == world.after(rest),
        balance(answers.script(view, rest), resource) == balance(rest, resource),
{
    broadcast use group_traces;
}

/// One question and what led up to it.
pub(crate) proof fn lemma_asked(world: World, calls: Seq<Call>, query: Query, reply: Reply, rest: Seq<Act>, resource: Resource)
    ensures
        world.after(asked(calls, query, reply, rest)) == world.after(acts(calls)).after_act(
            Act::Query(query, reply),
        ).after(rest),
        balance(asked(calls, query, reply, rest), resource) == balance(acts(calls), resource) + gain(
            Act::Query(query, reply),
            resource,
        ) + balance(rest, resource),
{
    broadcast use group_traces;
    let question = seq![Act::Query(query, reply)];
    assert(asked(calls, query, reply, rest) == acts(calls) + question + rest);
    assert(world.after(acts(calls)).after(question) == world.after(acts(calls)).after_act(Act::Query(query, reply)));
}

/// The calls that a new texture is prepared with.
pub(crate) proof fn lemma_preparing_texture(world: World, context: usize, texture: u32, resource: Resource)
    ensures
        world.current == Some(context) ==> world.after(acts(preparing_texture(texture)))
            == world.with_gl(context, GlState { bound_texture: texture, ..world.gl[context] }),
        balance(acts(preparing_texture(texture)), resource) == 0,
{
    reveal_with_fuel(World::after, 4);
    reveal_with_fuel(balance, 4);
}

/// The call that unbinds a texture.
pub(crate) proof fn lemma_unbinding(world: World, context: usize, resource: Resource)
    ensures
        world.current == Some(context) ==> world.after(acts(unbinding())) == world.with_gl(
            context,
            GlState { bound_texture: 0, ..world.gl[context] },
        ),
        balance(acts(unbinding()), resource) == 0,
{
    reveal_with_fuel(World::after, 2);
    reveal_with_fuel(balance, 2);
}

/// The calls that a new renderbuffer is prepared with.
pub(crate) proof fn lemma_preparing_renderbuffer(world: World, renderbuffer: u32, width: u32, height: u32, resource: Resource)
    ensures
        world.after(acts(preparing_renderbuffer(renderbuffer, width, height))) == world,
        balance(acts(preparing_renderbuffer(renderbuffer, width, height)), resource) == 0,
{
    reveal_with_fuel(World::after, 4);
    reveal_with_fuel(balance, 4);
}

/// The calls that hang a surface on a framebuffer.
pub(crate) proof fn lemma_attaching(world: World, context: usize, surface: Surface, framebuffer: u32, resource: Resource)
    ensures
        world.current == Some(context) ==> {
            let gl = world.gl[context];
            world.after(acts(surface.attaching(framebuffer))) == world.with_gl(
                context,
                GlState {
                    bound_framebuffer: framebuffer,
                    color: gl.color.insert(framebuffer, surface.texture),
                    depth_stencil: gl.depth_stencil.insert(framebuffer, surface.depth_stencil),
                    ..gl
                },
            )
        },
        balance(acts(surface.attaching(framebuffer)), resource) == 0,
{
    reveal_with_fuel(World::after, 4);
    reveal_with_fuel(balance, 4);
}

/// The calls that give up a surface.
pub(crate) proof fn lemma_destroying(world: World, context: usize, surface: Surface, resource: Resource)
    ensures
        world.current == Some(context) ==> world.after(acts(surface.destroying()))
            == world.with_gl(context, world.gl[context].without_surface(surface)),
        balance(acts(surface.destroying()), resource) == -surface_holds(surface, resource),
{
    reveal_with_fuel(World::after, 4);
    reveal_with_fuel(balance, 4);
}

/// The calls that have a layer show an `IOSurface`.
pub(crate) proof fn lemma_showing(world: World, layer: usize, io_surface: usize, scale: u64, resource: Resource)
    ensures
        world.after(acts(showing(layer, io_surface, scale))) == (World {
            contents: world.contents.insert(layer, io_surface),
            contents_scale: world.contents_scale.insert(layer, scale),
            ..world
        }),
        balance(acts(showing(layer, io_surface, scale)), resource) == 0,
{
    reveal_with_fuel(World::after, 3);
    reveal_with_fuel(balance, 3);
}

/// Making a surface and hanging it on a framebuffer.
pub(crate) proof fn lemma_surface_script(
    world: World,
    context: usize,
    answers: SurfaceAnswers,
    cgl: usize,
    width: u32,
    height: u32,
    framebuffer: u32,
    refused: Seq<Call>,
    rest: Seq<Act>,
    resource: Resource,
)
    ensures
        world.current == Some(context) ==> {
            let gl = world.gl[context];
            world.after(answers.script(cgl, width, height, framebuffer, refused, rest))
                == if answers.made() {
                world.with_gl(context, drawn_into(gl, framebuffer, answers)).after(rest)
            } else if answers.io_surface == NIL {
                world.after(acts(refused))
            } else {
                world.with_gl(context, GlState { bound_texture: 0, ..gl }).after(acts(refused))
            }
        },
        balance(answers.script(cgl, width, height, framebuffer, refused, rest), resource)
            == surface_takes(answers, resource) + if answers.made() {
            balance(rest, resource)
        } else {
            balance(acts(refused), resource)
        },
{
    broadcast use group_traces;

    let a = answers;
    let gl = world.gl[context];
    let s = a.surface(width, height);
    let hanging = preparing_renderbuffer(a.depth_stencil, s.width, s.height) + s.attaching(framebuffer);
    let status = Query::FramebufferStatus { target: GL_FRAMEBUFFER };
    let image = image_of(cgl, s.width, s.height, a.io_surface);
    let script4 = asked(hanging, status, Reply::Status(a.status), rest);
    let script3 = if a.code != 0 {
        acts(unbinding() + refused)
    } else {
        asked(unbinding(), Query::GenRenderbuffer, Reply::Name(a.depth_stencil), script4)
    };
    let script2 = asked(preparing_texture(a.texture), image, Reply::Code(a.code), script3);
    let script1 = if a.io_surface == NIL {
        acts(seq![] + refused)
    } else {
        asked(seq![], Query::GenTexture, Reply::Name(a.texture), script2)
    };
    let new = Query::NewIoSurface { properties: properties_of(s.width, s.height) };
    lemma_asked(world, seq![], new, Reply::Object(a.io_surface), script1, resource);
    if a.io_surface != NIL {
        lemma_asked(world, seq![], Query::GenTexture, Reply::Name(a.texture), script2, resource);
        lemma_preparing_texture(world, context, a.texture, resource);
        lemma_asked(world, preparing_texture(a.texture), image, Reply::Code(a.code), script3, resource);
        let bound = world.with_gl(context, GlState { bound_texture: a.texture, ..gl });
        if a.code != 0 {
            lemma_unbinding(bound, context, resource);
            assert(world.current == Some(context) ==> bound.after(acts(unbinding()))
                == world.with_gl(context, GlState { bound_texture: 0, ..gl }));
        } else {
            let pointed = world.with_gl(
                context,
                GlState {
                    bound_texture: a.texture,
                    image: gl.image.insert(a.texture, a.io_surface),
                    ..gl
                },
            );
            let free = world.with_gl(
                context,
                GlState {
                    bound_texture: 0,
                    image: gl.image.insert(a.texture, a.io_surface),
                    ..gl
                },
            );
            assert(world.current == Some(context) ==> bound.after_act(
                Act::Query(image, Reply::Code(a.code)),
            ) == pointed);
            lemma_unbinding(pointed, context, resource);
            assert(world.current == Some(context) ==> pointed.after(acts(unbinding())) == free);
            lemma_asked(
                pointed,
                unbinding(),
                Query::GenRenderbuffer,
                Reply::Name(a.depth_stencil),
                script4,
                resource,
            );
            lemma_preparing_renderbuffer(free, a.depth_stencil, s.width, s.height, resource);
            lemma_attaching(free, context, s, framebuffer, resource);
            assert(world.current == Some(context) ==> free.after(acts(hanging)) == world.with_gl(
                context,
                drawn_into(gl, framebuffer, a),
            ));
            lemma_asked(free, hanging, status, Reply::Status(a.status), rest, resource);
        }
    }
}

/// The calls that back a new view with a layer and put it into its parent.
pub(crate) proof fn lemma_installing(world: World, parent: usize, canvas: Canvas, resource: Resource)
    ensures
        world.after(acts(backing_with_layer(canvas.view))) == world,
        balance(acts(backing_with_layer(canvas.view)), resource) == 0,
        world.after(acts(installing(parent, canvas))) == (World {
            current: Some(canvas.context),
            superview: world.superview.insert(canvas.view, parent),
            ..world
        }),
        balance(acts(installing(parent, canvas)), resource) == 0,
{
    reveal_with_fuel(World::after, 5);
    reveal_with_fuel(balance, 5);
}

/// The last calls of an operation that shows a surface and then leaves no
/// context current.
pub(crate) proof fn lemma_showing_and_clearing(
    world: World,
    layer: usize,
    io_surface: usize,
    scale: u64,
    context: usize,
    resource: Resource,
)
    ensures
        ({
            let calls = showing(layer, io_surface, scale) + seq![Call::ClearCurrent { context }];
            &&& world.after(acts(calls)) == (World {
                current: None,
                contents: world.contents.insert(layer, io_surface),
                contents_scale: world.contents_scale.insert(layer, scale),
                ..world
            })
            &&& balance(acts(calls), resource) == 0
        }),
{
    broadcast use group_traces;

    lemma_showing(world, layer, io_surface, scale, resource);
}

/// What the drawing part of a creation amounts to.
pub(crate) proof fn lemma_creation_drawing(world: World, answers: CreationAnswers, resource: Resource)
    ensures
        balance(answers.drawing_script(), resource) == one_if(
            resource == Resource::Framebuffer(answers.framebuffer),
        ) + surface_takes(answers.surface, resource),
        world.current == Some(answers.context) && answers.surface.accepted() ==> {
            let gl = world.gl[answers.context];
            world.after(answers.drawing_script()) == (World {
                current: None,
                gl: world.gl.insert(
                    answers.context,
                    drawn_into(gl, answers.framebuffer, answers.surface),
                ),
                contents: world.contents.insert(answers.layer, answers.surface.io_surface),
                contents_scale: world.contents_scale.insert(answers.layer, answers.scale.scale()),
                ..world
            })
        },
        world.current == Some(answers.context) && !answers.surface.accepted() ==> {
            let after = world.after(answers.drawing_script());
            &&& after.current == world.current
            &&& after.superview == world.superview
            &&& after.contents == world.contents
        },
{
    broadcast use group_traces;

    let a = answers;
    let scale = a.scale.scale();
    let rest = if a.surface.accepted() {
        acts(
            showing(a.layer, a.surface.io_surface, scale) + seq![
                Call::ClearCurrent { context: a.context },
            ],
        )
    } else {
        acts(seq![])
    };
    let making = a.surface.script(a.cgl, a.width, a.height, a.framebuffer, seq![], rest);
    let generating = asked(seq![], Query::GenFramebuffer, Reply::Name(a.framebuffer), making);
    let drawn = world.with_gl(
        a.context,
        drawn_into(world.gl[a.context], a.framebuffer, a.surface),
    );
    lemma_asked(
        world,
        seq![],
        Query::ToPixels { size: a.frame.size, scale },
        Reply::Pixels { width: a.width, height: a.height },
        generating,
        resource,
    );
    lemma_asked(world, seq![], Query::GenFramebuffer, Reply::Name(a.framebuffer), making, resource);
    lemma_surface_script(
        world,
        a.context,
        a.surface,
        a.cgl,
        a.width,
        a.height,
        a.framebuffer,
        seq![],
        rest,
        resource,
    );
    lemma_showing_and_clearing(drawn, a.layer, a.surface.io_surface, scale, a.context, resource);
}

/// What a creation amounts to from the view on.
pub(crate) proof fn lemma_creation_view(world: World, answers: CreationAnswers, parent: usize, resource: Resource)
    ensures
        balance(answers.view_script(parent), resource) == one_if(
            resource == Resource::Framebuffer(answers.framebuffer),
        ) + surface_takes(answers.surface, resource),
        answers.surface.accepted() ==> world.after(answers.view_script(parent)) == created_world(
            world,
            answers,
            parent,
        ),
        !answers.surface.accepted() ==> {
            let after = world.after(answers.view_script(parent));
            &&& after.current == Some(answers.context)
            &&& after.superview == world.superview.insert(answers.view, parent)
            &&& after.contents == world.contents
        },
{
    let a = answers;
    let installed = World {
        current: Some(a.context),
        superview: world.superview.insert(a.view, parent),
        ..world
    };
    let script2 = a.scale.script(parent, a.drawing_script());
    let get_cgl = Query::CglContextOf { context: a.context };
    let script1 = asked(installing(parent, a.canvas()), get_cgl, Reply::Object(a.cgl), script2);
    let get_layer = Query::LayerOf { view: a.view };
    lemma_installing(world, parent, a.canvas(), resource);
    lemma_asked(
        world,
        backing_with_layer(a.view),
        get_layer,
        Reply::Object(a.layer),
        script1,
        resource,
    );
    lemma_asked(
        world,
        installing(parent, a.canvas()),
        get_cgl,
        Reply::Object(a.cgl),
        script2,
        resource,
    );
    lemma_scale_script(installed, a.scale, parent, a.drawing_script(), resource);
    lemma_creation_drawing(installed, a, resource);
}

/// The calls that follow the making of a context.
pub(crate) proof fn lemma_configuring(world: World, release: Call, interval: Call, resource: Resource)
    requires
        release is Release,
        interval is SetSwapInterval,
    ensures
        world.after(acts(seq![])) == world,
        balance(acts(seq![]), resource) == 0,
        world.after(acts(seq![release])) == world,
        balance(acts(seq![release]), resource) == gain(Act::Call(release), resource),
        world.after(acts(seq![release, interval])) == world,
        balance(acts(seq![release, interval]), resource) == gain(Act::Call(release), resource),
{
    reveal_with_fuel(World::after, 3);
    reveal_with_fuel(balance, 3);
}

/// What a whole creation amounts to.
pub(crate) proof fn lemma_creation_script(
    world: World,
    answers: CreationAnswers,
    parent: usize,
    wanted: PixelFormat,
    vsync: bool,
    resource: Resource,
)
    ensures
        balance(answers.script(parent, wanted, vsync), resource) == creation_takes(answers, resource),
        answers.accepted() ==> world.after(answers.script(parent, wanted, vsync)) == created_world(
            world,
            answers,
            parent,
        ),
        answers.pixel_format != NIL && answers.context != NIL && answers.view != NIL
            && !answers.surface.accepted() ==> {
            let after = world.after(answers.script(parent, wanted, vsync));
            &&& after.current == Some(answers.context)
            &&& after.superview == world.superview.insert(answers.view, parent)
            &&& after.contents == world.contents
        },
{
    let a = answers;
    let release = Call::Release { object: a.pixel_format };
    let interval = Call::SetSwapInterval { context: a.context, interval: if vsync { 1 } else { 0 } };
    let get_frame = Query::FrameOf { view: parent };
    let new_view = Query::NewView { frame: a.frame };
    let new_context = Query::NewContext { pixel_format: a.pixel_format, share: NIL };
    let new_format = Query::NewPixelFormat { wanted };
    let script4 = if a.view == NIL {
        acts(seq![])
    } else {
        a.view_script(parent)
    };
    let script3 = asked(seq![], new_view, Reply::Object(a.view), script4);
    let script2 = if a.context == NIL {
        acts(seq![release])
    } else {
        asked(seq![release, interval], get_frame, Reply::Frame(a.frame), script3)
    };
    let script1 = if a.pixel_format == NIL {
        acts(seq![])
    } else {
        asked(seq![], new_context, Reply::Object(a.context), script2)
    };
    lemma_configuring(world, release, interval, resource);
    lemma_creation_view(world, a, parent, resource);
    lemma_asked(world, seq![], new_format, Reply::Object(a.pixel_format), script1, resource);
    lemma_asked(world, seq![], new_context, Reply::Object(a.context), script2, resource);
    lemma_asked(world, seq![release, interval], get_frame, Reply::Frame(a.frame), script3, resource);
    lemma_asked(world, seq![], new_view, Reply::Object(a.view), script4, resource);
}

/// The world once a context has been resized.
pub open spec fn resized_world(world: World, context: GlContext, answers: ResizeAnswers) -> World {
    let surface = answers.surface;
    let gl = world.gl[context.context];
    let left = World { current: None, ..world };
    if answers.fits(context) {
        world
    } else if surface.io_surface == NIL {
        left
    } else if !surface.made() {
        left.with_gl(context.context, GlState { bound_texture: 0, ..gl })
    } else {
        let hung = drawn_into(gl, context.framebuffer, surface);
        if !surface.accepted() {
            left.with_gl(context.context, hung)
        } else {
            World {
                contents: world.contents.insert(answers.layer, surface.io_surface),
                contents_scale: world.contents_scale.insert(
                    answers.layer,
                    answers.scale_after(context.scale),
                ),
                ..left.with_gl(context.context, hung.without_surface(context.surface))
            }
        }
    }
}

/// How many of `resource` a resize takes, less what it gives up.
pub open spec fn resize_takes(context: GlContext, answers: ResizeAnswers, resource: Resource) -> int {
    if answers.fits(context) {
        0
    } else if answers.surface.accepted() {
        surface_takes(answers.surface, resource) - surface_holds(context.surface, resource)
    } else {
        surface_takes(answers.surface, resource)
    }
}

/// What the last part of a resize amounts to.
pub(crate) proof fn lemma_resize_replacing(world: World, context: GlContext, answers: ResizeAnswers, resource: Resource)
    ensures
        world.current == Some(context.context) ==> world.after(answers.replacing_script(context))
            == if answers.surface.accepted() {
            let gl = world.gl[context.context];
            World {
                current: None,
                gl: world.gl.insert(context.context, gl.without_surface(context.surface)),
                contents: world.contents.insert(answers.layer, answers.surface.io_surface),
                contents_scale: world.contents_scale.insert(
                    answers.layer,
                    answers.scale_after(context.scale),
                ),
                ..world
            }
        } else {
            World { current: None, ..world }
        },
        balance(answers.replacing_script(context), resource) == if answers.surface.accepted() {
            -surface_holds(context.surface, resource)
        } else {
            0
        },
{
    broadcast use group_traces;

    let clear = seq![Call::ClearCurrent { context: context.context }];
    let scale = answers.scale_after(context.scale);
    let last = acts(showing(answers.layer, answers.surface.io_surface, scale) + clear);
    let destroyed = world.after(acts(context.surface.destroying()));
    lemma_destroying(world, context.context, context.surface, resource);
    lemma_asked(
        world,
        context.surface.destroying(),
        Query::LayerOf { view: context.view },
        Reply::Object(answers.layer),
        last,
        resource,
    );
    lemma_showing_and_clearing(
        destroyed,
        answers.layer,
        answers.surface.io_surface,
        scale,
        context.context,
        resource,
    );
}

/// What a resize amounts to from the size in pixels on.
pub(crate) proof fn lemma_resize_drawing(
    world: World,
    context: GlContext,
    size: Size,
    answers: ResizeAnswers,
    resource: Resource,
)
    ensures
        world.after(answers.drawing_script(context, size)) == resized_world(world, context, answers),
        balance(answers.drawing_script(context, size), resource) == resize_takes(
            context,
            answers,
            resource,
        ),
{
    broadcast use group_traces;

    let a = answers;
    let clear = seq![Call::ClearCurrent { context: context.context }];
    let make = seq![Call::MakeCurrent { context: context.context }];
    let get_cgl = Query::CglContextOf { context: context.context };
    let rest = a.replacing_script(context);
    let making = a.surface.script(a.cgl, a.width, a.height, context.framebuffer, clear, rest);
    let script1 = if a.fits(context) {
        acts(seq![])
    } else {
        asked(make, get_cgl, Reply::Object(a.cgl), making)
    };
    lemma_asked(
        world,
        seq![],
        Query::ToPixels { size, scale: a.scale_after(context.scale) },
        Reply::Pixels { width: a.width, height: a.height },
        script1,
        resource,
    );
    if !a.fits(context) {
        let current = World { current: Some(context.context), ..world };
        assert(world.after(acts(make)) == current);
        lemma_asked(world, make, get_cgl, Reply::Object(a.cgl), making, resource);
        lemma_surface_script(
            current,
            context.context,
            a.surface,
            a.cgl,
            a.width,
            a.height,
            context.framebuffer,
            clear,
            rest,
            resource,
        );
        let gl = drawn_into(world.gl[context.context], context.framebuffer, a.surface);
        let hung = current.with_gl(context.context, gl);
        lemma_resize_replacing(hung, context, a, resource);
    }
}

/// What a whole resize amounts to.
pub(crate) proof fn lemma_resize_script(
    world: World,
    context: GlContext,
    size: Size,
    answers: ResizeAnswers,
    resource: Resource,
)
    ensures
        world.after(run(context.resizing(size), answers.replies()).0) == resized_world(
            world,
            context,
            answers,
        ),
        balance(run(context.resizing(size), answers.replies()).0, resource) == resize_takes(
            context,
            answers,
            resource,
        ),
{
    broadcast use group_traces;

    law_resize_outcome(context, size, answers);
    let frame = seq![Call::SetFrameSize { view: context.view, size }];
    let drawing = answers.drawing_script(context, size);
    let rest = if answers.superview == NIL {
        drawing
    } else {
        answers.scale.script(answers.superview, drawing)
    };
    assert(world.after(acts(frame)) == world);
    lemma_asked(
        world,
        frame,
        Query::SuperviewOf { view: context.view },
        Reply::Object(answers.superview),
        rest,
        resource,
    );
    lemma_scale_script(world, answers.scale, answers.superview, drawing, resource);
    lemma_resize_drawing(world, context, size, answers, resource);
}

/// The world once a context has been dropped.
pub open spec fn dropped_world(world: World, context: GlContext) -> World {
    let gl = world.gl[context.context];
    World {
        current: None,
        gl: world.gl.insert(
            context.context,
            gl.without_surface(context.surface).without_framebuffer(context.framebuffer),
        ),
        superview: world.superview.remove(context.view),
        ..world
    }
}

/// The last calls of dropping a context.
pub(crate) proof fn lemma_leaving(world: World, context: GlContext, last: Seq<Call>, resource: Resource)
    requires
        last == seq![
            Call::DeleteFramebuffer { framebuffer: context.framebuffer },
            Call::ClearCurrent { context: context.context },
            Call::RemoveFromSuperview { view: context.view },
            Call::Release { object: context.context },
            Call::Release { object: context.view },
        ],
    ensures
        world.current == Some(context.context) ==> {
            let gl = world.gl[context.context];
            world.after(acts(last)) == (World {
                current: None,
                gl: world.gl.insert(
                    context.context,
                    gl.without_framebuffer(context.framebuffer),
                ),
                superview: world.superview.remove(context.view),
                ..world
            })
        },
        balance(acts(last), resource) == -one_if(
            resource == Resource::Framebuffer(context.framebuffer),
        ) - one_if(resource == Resource::Object(context.context)) - one_if(
            resource == Resource::Object(context.view),
        ),
{
    reveal_with_fuel(World::after, 6);
    reveal_with_fuel(balance, 6);
}

} // verus!

//! What holds of the operations together.

use crate::call::{Call, Query, Reply, Size};
use crate::config::{GlConfig, GlError};
use crate::context::{GlContext, Publication};
use crate::effects::{
    created_world, creation_takes, dropped_world, lemma_asked, lemma_creation_script,
    lemma_destroying, lemma_leaving, lemma_resize_script, lemma_showing, resized_world,
    surface_takes,
};
use crate::history::{law_creation_outcome, law_resize_outcome, CreationAnswers, ResizeAnswers};
use crate::layer::showing;
use crate::machine::{
    acts, asked, lemma_run_ask, ready, run, then_replies, Act, Machine, Stage,
};
use crate::pixel_format::{profile_for, PixelFormat};
use crate::resize::Resizing;
use crate::window::{ParentWindow, NIL};
use crate::world::{balance, context_holds, group_traces, GlState, Resource, World};
use vstd::prelude::*;

verus! {

/// A context that was created draws into an `IOSurface` and its layer shows
/// that `IOSurface`; its view is in the parent, and no context is current.
pub proof fn law_creation_draws_and_shows(
    world: World,
    window: ParentWindow,
    config: GlConfig,
    answers: CreationAnswers,
)
    requires
        window.usable(),
        profile_for(config.version, config.profile) is Some,
        answers.accepted(),
    ensures
        ({
            let ran = run(GlContext::creating(window, config), answers.replies());
            let after = world.after(ran.0);
            let created = answers.created();
            &&& ran.1 == Some(Ok::<GlContext, GlError>(created))
            &&& after == created_world(world, answers, window->ns_view)
            &&& after.draws(created)
            &&& after.shows(created, answers.layer)
            &&& after.scales(created, answers.layer)
            &&& after.superview.contains_pair(created.view, window->ns_view)
            &&& after.current is None
        }),
{
    law_creation_outcome(window, config, answers);
    let wanted = PixelFormat::of(profile_for(config.version, config.profile)->0, config);
    lemma_creation_script(
        world,
        answers,
        window->ns_view,
        wanted,
        config.vsync,
        Resource::Object(NIL),
    );
}

/// A creation that is refused once its view is in the parent leaves the view
/// there and the context current, and no layer shows anything new.
pub proof fn law_creation_refused_late(
    world: World,
    window: ParentWindow,
    config: GlConfig,
    answers: CreationAnswers,
)
    requires
        window.usable(),
        profile_for(config.version, config.profile) is Some,
        answers.pixel_format != NIL,
        answers.context != NIL,
        answers.view != NIL,
        !answers.surface.accepted(),
    ensures
        ({
            let ran = run(GlContext::creating(window, config), answers.replies());
            let after = world.after(ran.0);
            &&& ran.1 == Some(Err::<GlContext, GlError>(GlError::CreationFailed(())))
            &&& after.current == Some(answers.context)
            &&& after.superview.contains_pair(answers.view, window->ns_view)
            &&& after.contents == world.contents
        }),
{
    law_creation_outcome(window, config, answers);
    let wanted = PixelFormat::of(profile_for(config.version, config.profile)->0, config);
    lemma_creation_script(
        world,
        answers,
        window->ns_view,
        wanted,
        config.vsync,
        Resource::Object(NIL),
    );
}

/// A creation takes exactly what the context that it gives holds: the pixel
/// format is given up whether or not there is a context. A creation that is
/// refused keeps what it has taken until then.
pub proof fn law_creation_takes(
    window: ParentWindow,
    config: GlConfig,
    answers: CreationAnswers,
    resource: Resource,
)
    requires
        window.usable(),
        profile_for(config.version, config.profile) is Some,
    ensures
        balance(run(GlContext::creating(window, config), answers.replies()).0, resource)
            == creation_takes(answers, resource),
        answers.accepted() ==> creation_takes(answers, resource) == context_holds(
            answers.created(),
            resource,
        ),
{
    law_creation_outcome(window, config, answers);
    let wanted = PixelFormat::of(profile_for(config.version, config.profile)->0, config);
    lemma_creation_script(
        arbitrary(),
        answers,
        window->ns_view,
        wanted,
        config.vsync,
        resource,
    );
}

/// What a resize amounts to, whether it fits, replaces the surface or is
/// refused. A new surface that is made but that the framebuffer cannot be drawn
/// into with stays hung on the framebuffer, and the layer shows the present one.
pub proof fn law_resize_world(world: World, context: GlContext, size: Size, answers: ResizeAnswers)
    ensures
        world.after(run(context.resizing(size), answers.replies()).0) == resized_world(
            world,
            context,
            answers,
        ),
{
    lemma_resize_script(world, context, size, answers, Resource::Object(NIL));
}

/// A resize that replaces the surface has the framebuffer draw into the new one
/// and the layer show it, and leaves no context current. The names of the new
/// surface's objects are not those of the present one's, which are in use.
pub proof fn law_resize_draws_and_shows(world: World, context: GlContext, size: Size, answers: ResizeAnswers)
    requires
        answers.replaces(context),
        answers.surface.texture != context.surface.texture,
        answers.surface.depth_stencil != context.surface.depth_stencil,
    ensures
        ({
            let ran = run(context.resizing(size), answers.replies());
            let after = world.after(ran.0);
            let resized = answers.outcome(context);
            &&& ran.1 == Some(resized)
            &&& after == resized_world(world, context, answers)
            &&& after.draws(resized)
            &&& after.shows(resized, answers.layer)
            &&& after.scales(resized, answers.layer)
            &&& after.current is None
        }),
{
    law_resize_outcome(context, size, answers);
    lemma_resize_script(world, context, size, answers, Resource::Object(NIL));
}

/// A resize to the size that the surface has already leaves the world as it is.
pub proof fn law_resize_same_size(world: World, context: GlContext, size: Size, answers: ResizeAnswers)
    requires
        answers.fits(context),
    ensures
        ({
            let ran = run(context.resizing(size), answers.replies());
            &&& ran.1 == Some(
                GlContext { scale: answers.scale_after(context.scale), ..context },
            )
            &&& world.after(ran.0) == world
        }),
{
    law_resize_outcome(context, size, answers);
    lemma_resize_script(world, context, size, answers, Resource::Object(NIL));
}

/// A resize whose new surface cannot be made keeps the present surface: what
/// was drawn into is still drawn into, what was shown is still shown, and no
/// context is current.
pub proof fn law_resize_refused(world: World, context: GlContext, size: Size, answers: ResizeAnswers)
    requires
        !answers.fits(context),
        !answers.surface.made(),
    ensures
        ({
            let ran = run(context.resizing(size), answers.replies());
            let after = world.after(ran.0);
            let resized = answers.outcome(context);
            &&& ran.1 == Some(resized)
            &&& resized.surface == context.surface
            &&& world.draws(context) ==> after.draws(resized)
            &&& after.contents == world.contents
            &&& after.contents_scale == world.contents_scale
            &&& after.current is None
        }),
{
    law_resize_outcome(context, size, answers);
    lemma_resize_script(world, context, size, answers, Resource::Object(NIL));
}

/// A resize takes the difference between what the context holds afterwards and
/// what it held before. A new surface that is refused keeps what was taken for
/// it.
pub proof fn law_resize_takes(context: GlContext, size: Size, answers: ResizeAnswers, resource: Resource)
    ensures
        balance(run(context.resizing(size), answers.replies()).0, resource) == context_holds(
            answers.outcome(context),
            resource,
        ) - context_holds(context, resource) + if answers.fits(context) || answers.replaces(context) {
            0
        } else {
            surface_takes(answers.surface, resource)
        },
{
    lemma_resize_script(arbitrary(), context, size, answers, resource);
}

/// A surface that has been replaced by one of the size that was asked for is
/// not replaced again at the same size.
pub proof fn law_resize_settles(context: GlContext, first: ResizeAnswers, second: ResizeAnswers)
    requires
        first.fits(context) || first.replaces(context),
        second.width == first.width,
        second.height == first.height,
    ensures
        second.fits(first.outcome(context)),
{
}

/// The replies are of the kinds that the queries of a run have.
pub open spec fn answered<M: Machine>(stage: Stage<M, M::Outcome>, replies: Seq<Reply>) -> bool
    decreases replies.len(),
{
    match stage {
        Stage::Finish { .. } => true,
        Stage::Ask { query, next, .. } => replies.len() == 0 || (replies[0].kind() == query.kind()
            && answered(next.transition(replies[0]), replies.drop_first())),
    }
}

/// An operation that begins sound finishes sound, whatever the results of its
/// queries: every context and every surface that it gives has an `IOSurface`, of
/// at least one pixel.
pub proof fn law_run_sound<M: Machine>(stage: Stage<M, M::Outcome>, replies: Seq<Reply>)
    requires
        ready(stage),
        answered(stage, replies),
    ensures
        run(stage, replies).1 matches Some(outcome) ==> M::sound(outcome),
    decreases replies.len(),
{
    if let Stage::Ask { next, .. } = stage {
        if replies.len() > 0 {
            next.lemma_transition(replies[0]);
            law_run_sound(next.transition(replies[0]), replies.drop_first());
        }
    }
}

/// The context is the same one: the same view, the same OpenGL context and the
/// same framebuffer.
pub open spec fn same_context(one: GlContext, other: GlContext) -> bool {
    &&& one.view == other.view
    &&& one.context == other.context
    &&& one.framebuffer == other.framebuffer
}

/// A framebuffer's name comes up or goes away.
pub open spec fn names_framebuffer(act: Act) -> bool {
    act matches Act::Query(Query::GenFramebuffer, _) || act matches Act::Call(
        Call::DeleteFramebuffer { .. },
    )
}

/// A resize that is under way is one of `context`, and what it wants next names
/// no framebuffer.
spec fn resizes(stage: Stage<Resizing, GlContext>, context: GlContext) -> bool {
    match stage {
        Stage::Ask { calls, query, next } => {
            &&& same_context(next.context(), context)
            &&& !(query is GenFramebuffer)
            &&& forall|i: int| 0 <= i < calls.len() ==> !(#[trigger] calls[i] is DeleteFramebuffer)
        },
        Stage::Finish { calls, result } => {
            &&& same_context(result, context)
            &&& forall|i: int| 0 <= i < calls.len() ==> !(#[trigger] calls[i] is DeleteFramebuffer)
        },
    }
}

proof fn lemma_resizes(stage: Stage<Resizing, GlContext>, context: GlContext, replies: Seq<Reply>)
    requires
        resizes(stage, context),
    ensures
        run(stage, replies).1 matches Some(resized) ==> same_context(resized, context),
        forall|i: int|
            0 <= i < run(stage, replies).0.len() ==> !names_framebuffer(
                #[trigger] run(stage, replies).0[i],
            ),
    decreases replies.len(),
{
    if let Stage::Ask { next, .. } = stage {
        if replies.len() > 0 {
            assert(resizes(next.transition(replies[0]), context));
            lemma_resizes(next.transition(replies[0]), context, replies.drop_first());
        }
    }
}

/// The framebuffer's name never changes: whatever the results of the queries, a
/// resize gives back the same view, the same OpenGL context and the same
/// framebuffer, and neither makes a framebuffer nor deletes one. So a renderer
/// that was told the name once stays correct.
pub proof fn law_framebuffer_is_stable(context: GlContext, size: Size, replies: Seq<Reply>)
    ensures
        run(context.resizing(size), replies).1 matches Some(resized) ==> same_context(
            resized,
            context,
        ),
        forall|i: int|
            0 <= i < run(context.resizing(size), replies).0.len() ==> !names_framebuffer(
                #[trigger] run(context.resizing(size), replies).0[i],
            ),
{
    lemma_resizes(context.resizing(size), context, replies);
}

/// Publishing a frame flushes, and hands the surface to the layer at the
/// context's scale. It swaps nothing: what is current, what is bound and what is
/// drawn into stay as they are.
pub proof fn law_publication(world: World, context: GlContext, layer: usize, resource: Resource)
    ensures
        ({
            let ran = run(context.publishing(), seq![Reply::Object(layer)]);
            let after = world.after(ran.0);
            &&& ran.1 == Some(())
            &&& ran.0 == asked(
                seq![Call::Flush],
                Query::LayerOf { view: context.view },
                Reply::Object(layer),
                acts(showing(layer, context.surface.io_surface, context.scale)),
            )
            &&& after == (World {
                contents: world.contents.insert(layer, context.surface.io_surface),
                contents_scale: world.contents_scale.insert(layer, context.scale),
                ..world
            })
            &&& after.shows(context, layer)
            &&& after.scales(context, layer)
            &&& balance(ran.0, resource) == 0
        }),
{
    broadcast use group_traces;

    let flush = seq![Call::Flush];
    let get_layer = Query::LayerOf { view: context.view };
    let publication = Publication { io_surface: context.surface.io_surface, scale: context.scale };
    lemma_run_ask(flush, get_layer, publication, Reply::Object(layer), seq![]);
    assert(then_replies(Reply::Object(layer), seq![]) =~= seq![Reply::Object(layer)]);
    assert(world.after(acts(flush)) == world);
    let last = acts(showing(layer, context.surface.io_surface, context.scale));
    lemma_asked(world, flush, get_layer, Reply::Object(layer), last, resource);
    lemma_showing(world, layer, context.surface.io_surface, context.scale, resource);
}

/// A context that was made current is, and its framebuffer is bound in it;
/// nothing else changes. Made not current again, none is.
pub proof fn law_current(world: World, context: GlContext)
    ensures
        world.after(acts(context.making_current())) == (World {
            current: Some(context.context),
            gl: world.gl.insert(
                context.context,
                GlState { bound_framebuffer: context.framebuffer, ..world.gl[context.context] },
            ),
            ..world
        }),
        world.after(acts(context.making_not_current())) == (World { current: None, ..world }),
        world.after(acts(context.making_current() + context.making_not_current())).current is None,
{
    broadcast use group_traces;

    reveal_with_fuel(World::after, 3);
}

/// Dropping a context gives up everything that it holds. Afterwards no context
/// is current, the view is in no other view, and neither the framebuffer nor the
/// texture draws into anything or is bound.
pub proof fn law_drop(world: World, context: GlContext, resource: Resource)
    ensures
        balance(acts(context.dropping()), resource) == -context_holds(context, resource),
        world.after(acts(context.dropping())) == dropped_world(world, context),
        ({
            let after = world.after(acts(context.dropping()));
            let gl = after.gl[context.context];
            &&& after.current is None
            &&& !after.superview.contains_key(context.view)
            &&& !gl.color.contains_key(context.framebuffer)
            &&& !gl.depth_stencil.contains_key(context.framebuffer)
            &&& !gl.image.contains_key(context.surface.texture)
            &&& context.framebuffer != 0 ==> gl.bound_framebuffer != context.framebuffer
            &&& context.surface.texture != 0 ==> gl.bound_texture != context.surface.texture
        }),
{
    broadcast use group_traces;

    let make = seq![Call::MakeCurrent { context: context.context }];
    let last = seq![
        Call::DeleteFramebuffer { framebuffer: context.framebuffer },
        Call::ClearCurrent { context: context.context },
        Call::RemoveFromSuperview { view: context.view },
        Call::Release { object: context.context },
        Call::Release { object: context.view },
    ];
    let current = World { current: Some(context.context), ..world };
    let destroyed = current.after(acts(context.surface.destroying()));
    assert(world.after(acts(make)) == current);
    lemma_destroying(current, context.context, context.surface, resource);
    lemma_leaving(destroyed, context, last, resource);
}

} // verus!

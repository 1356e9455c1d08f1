//! What holds over the life of a context.

use crate::call::{Reply, Size};
use crate::config::GlConfig;
use crate::context::GlContext;
use crate::history::{CreationAnswers, ResizeAnswers};
use crate::laws::{
    law_creation_draws_and_shows, law_creation_takes, law_current, law_drop, law_publication,
    law_resize_takes, law_resize_world, same_context,
};
use crate::machine::{acts, run, Act};
use crate::pixel_format::profile_for;
use crate::window::{ParentWindow, NIL};
use crate::world::{balance, context_holds, group_traces, Resource, World};
use vstd::prelude::*;

verus! {

/// What a context is used for, with the results of the queries.
pub enum Operation {
    Resize { size: Size, answers: ResizeAnswers },
    SwapBuffers { layer: usize },
    MakeCurrent,
    MakeNotCurrent,
}

impl Operation {
    /// What is done.
    pub open spec fn trace(self, context: GlContext) -> Seq<Act> {
        match self {
            Operation::Resize { size, answers } => run(context.resizing(size), answers.replies()).0,
            Operation::SwapBuffers { layer } => {
                run(context.publishing(), seq![Reply::Object(layer)]).0
            },
            Operation::MakeCurrent => acts(context.making_current()),
            Operation::MakeNotCurrent => acts(context.making_not_current()),
        }
    }

    /// The context afterwards.
    pub open spec fn outcome(self, context: GlContext) -> GlContext {
        match self {
            Operation::Resize { answers, .. } => answers.outcome(context),
            _ => context,
        }
    }

    /// No new surface is refused.
    pub open spec fn unrefused(self, context: GlContext) -> bool {
        self matches Operation::Resize { answers, .. } ==> answers.fits(context)
            || answers.replaces(context)
    }

    /// The framebuffer can be drawn into with every new surface that is hung on
    /// it, and OpenGL gives the new surface no name that is in use.
    pub open spec fn attached(self, context: GlContext) -> bool {
        self matches Operation::Resize { answers, .. } ==> {
            ||| answers.fits(context)
            ||| !answers.surface.made()
            ||| {
                &&& answers.surface.accepted()
                &&& answers.surface.texture != context.surface.texture
                &&& answers.surface.depth_stencil != context.surface.depth_stencil
            }
        }
    }

    /// The view's layer, if it is asked for, is `layer`.
    pub open spec fn in_layer(self, context: GlContext, layer: usize) -> bool {
        match self {
            Operation::Resize { answers, .. } => answers.replaces(context) ==> answers.layer == layer,
            Operation::SwapBuffers { layer: found } => found == layer,
            _ => true,
        }
    }
}

/// What is done by operations that follow each other, and the context after
/// them.
pub open spec fn life(context: GlContext, operations: Seq<Operation>) -> (Seq<Act>, GlContext)
    decreases operations.len(),
{
    if operations.len() == 0 {
        (seq![], context)
    } else {
        let rest = life(operations[0].outcome(context), operations.drop_first());
        (operations[0].trace(context) + rest.0, rest.1)
    }
}

/// Each of the operations is as it should be, given the context that it is used
/// on.
pub open spec fn throughout(
    context: GlContext,
    operations: Seq<Operation>,
    holds: spec_fn(Operation, GlContext) -> bool,
) -> bool
    decreases operations.len(),
{
    operations.len() > 0 ==> {
        &&& holds(operations[0], context)
        &&& throughout(operations[0].outcome(context), operations.drop_first(), holds)
    }
}

/// None of the operations has a new surface refused.
pub open spec fn unrefused(context: GlContext, operations: Seq<Operation>) -> bool {
    throughout(context, operations, |operation: Operation, used: GlContext| operation.unrefused(used))
}

/// Every new surface that the operations hang on the framebuffer can be drawn
/// into.
pub open spec fn attached(context: GlContext, operations: Seq<Operation>) -> bool {
    throughout(context, operations, |operation: Operation, used: GlContext| operation.attached(used))
}

/// Every operation that asks for the view's layer finds `layer`.
pub open spec fn in_layer(context: GlContext, operations: Seq<Operation>, layer: usize) -> bool {
    throughout(
        context,
        operations,
        |operation: Operation, used: GlContext| operation.in_layer(used, layer),
    )
}

/// What is done from the creation of a context through its use, and the context
/// after it.
pub open spec fn lived(
    window: ParentWindow,
    config: GlConfig,
    created: CreationAnswers,
    operations: Seq<Operation>,
) -> (Seq<Act>, GlContext) {
    let creation = run(GlContext::creating(window, config), created.replies()).0;
    let used = life(created.created(), operations);
    (creation + used.0, used.1)
}

/// One operation on the world.
proof fn lemma_operation(world: World, context: GlContext, operation: Operation, layer: usize)
    ensures
        world.draws(context) && operation.attached(context) ==> world.after(
            operation.trace(context),
        ).draws(operation.outcome(context)),
        world.shows(context, layer) && operation.in_layer(context, layer) ==> world.after(
            operation.trace(context),
        ).shows(operation.outcome(context), layer),
{
    match operation {
        Operation::Resize { size, answers } => law_resize_world(world, context, size, answers),
        Operation::SwapBuffers { layer: found } => law_publication(
            world,
            context,
            found,
            Resource::Object(NIL),
        ),
        _ => law_current(world, context),
    }
}

/// How many of `resource` one operation takes.
proof fn lemma_operation_takes(context: GlContext, operation: Operation, resource: Resource)
    ensures
        operation.unrefused(context) ==> balance(operation.trace(context), resource)
            == context_holds(operation.outcome(context), resource) - context_holds(context, resource),
{
    match operation {
        Operation::Resize { size, answers } => law_resize_takes(context, size, answers, resource),
        Operation::SwapBuffers { layer } => law_publication(arbitrary(), context, layer, resource),
        _ => reveal_with_fuel(balance, 3),
    }
}

proof fn lemma_life(world: World, context: GlContext, operations: Seq<Operation>, layer: usize, resource: Resource)
    ensures
        ({
            let used = life(context, operations);
            let after = world.after(used.0);
            &&& same_context(used.1, context)
            &&& context.well_formed() ==> used.1.well_formed()
            &&& unrefused(context, operations) ==> balance(used.0, resource) == context_holds(
                used.1,
                resource,
            ) - context_holds(context, resource)
            &&& world.draws(context) && attached(context, operations) ==> after.draws(used.1)
            &&& world.shows(context, layer) && in_layer(context, operations, layer) ==> after.shows(
                used.1,
                layer,
            )
        }),
    decreases operations.len(),
{
    broadcast use group_traces;

    if operations.len() > 0 {
        let operation = operations[0];
        let after = world.after(operation.trace(context));
        lemma_operation(world, context, operation, layer);
        lemma_operation_takes(context, operation, resource);
        lemma_life(after, operation.outcome(context), operations.drop_first(), layer, resource);
    }
}

/// From creation on, drawing and showing go together with the context.
proof fn lemma_lived(
    world: World,
    window: ParentWindow,
    config: GlConfig,
    created: CreationAnswers,
    operations: Seq<Operation>,
)
    requires
        window.usable(),
        profile_for(config.version, config.profile) is Some,
        created.accepted(),
    ensures
        ({
            let (trace, context) = lived(window, config, created, operations);
            let after = world.after(trace);
            &&& context.well_formed()
            &&& attached(created.created(), operations) ==> after.draws(context)
            &&& in_layer(created.created(), operations, created.layer) ==> after.shows(
                context,
                created.layer,
            )
        }),
{
    broadcast use group_traces;

    let creation = run(GlContext::creating(window, config), created.replies()).0;
    law_creation_draws_and_shows(world, window, config, created);
    lemma_life(
        world.after(creation),
        created.created(),
        operations,
        created.layer,
        Resource::Object(NIL),
    );
}

/// Over the life of a context its view, its OpenGL context and its framebuffer
/// stay the same, and its surface has an `IOSurface`, of at least one pixel.
pub proof fn law_life_is_stable(created: CreationAnswers, operations: Seq<Operation>)
    requires
        created.accepted(),
    ensures
        same_context(life(created.created(), operations).1, created.created()),
        life(created.created(), operations).1.well_formed(),
{
    lemma_life(arbitrary(), created.created(), operations, NIL, Resource::Object(NIL));
}

/// Over the life of a context its layer always shows the context's present
/// `IOSurface`, and never nothing.
pub proof fn law_life_shows(
    world: World,
    window: ParentWindow,
    config: GlConfig,
    created: CreationAnswers,
    operations: Seq<Operation>,
)
    requires
        window.usable(),
        profile_for(config.version, config.profile) is Some,
        created.accepted(),
        in_layer(created.created(), operations, created.layer),
    ensures
        ({
            let (trace, context) = lived(window, config, created, operations);
            &&& world.after(trace).contents.contains_pair(created.layer, context.surface.io_surface)
            &&& context.surface.io_surface != NIL
        }),
{
    lemma_lived(world, window, config, created, operations);
}

/// Over the life of a context drawing into its framebuffer ends up in the
/// context's present `IOSurface`, as long as the framebuffer can be drawn into
/// with every new surface that is hung on it.
pub proof fn law_life_draws(
    world: World,
    window: ParentWindow,
    config: GlConfig,
    created: CreationAnswers,
    operations: Seq<Operation>,
)
    requires
        window.usable(),
        profile_for(config.version, config.profile) is Some,
        created.accepted(),
        attached(created.created(), operations),
    ensures
        ({
            let (trace, context) = lived(window, config, created, operations);
            world.after(trace).draws(context)
        }),
{
    lemma_lived(world, window, config, created, operations);
}

/// A context that is made current at any time of its life is ready to be drawn
/// with: its framebuffer, which still has the name that it was created with, is
/// bound in it, and what is drawn ends up in the `IOSurface` that its layer
/// shows.
pub proof fn law_life_makes_current(
    world: World,
    window: ParentWindow,
    config: GlConfig,
    created: CreationAnswers,
    operations: Seq<Operation>,
)
    requires
        window.usable(),
        profile_for(config.version, config.profile) is Some,
        created.accepted(),
        attached(created.created(), operations),
        in_layer(created.created(), operations, created.layer),
    ensures
        ({
            let (trace, context) = lived(window, config, created, operations);
            let after = world.after(trace + acts(context.making_current()));
            let gl = after.gl[context.context];
            &&& after.current == Some(context.context)
            &&& gl.bound_framebuffer == context.framebuffer
            &&& context.framebuffer == created.framebuffer
            &&& gl.color.contains_pair(context.framebuffer, context.surface.texture)
            &&& gl.depth_stencil.contains_pair(context.framebuffer, context.surface.depth_stencil)
            &&& gl.image.contains_pair(context.surface.texture, context.surface.io_surface)
            &&& after.contents.contains_pair(created.layer, context.surface.io_surface)
            &&& context.surface.io_surface != NIL
        }),
{
    broadcast use group_traces;

    let (trace, context) = lived(window, config, created, operations);
    law_life_is_stable(created, operations);
    law_life_draws(world, window, config, created, operations);
    law_life_shows(world, window, config, created, operations);
    law_current(world.after(trace), context);
}

/// A context that was created, used without a surface being refused, and dropped
/// has given up everything that was taken for it.
pub proof fn law_life_gives_everything_up(
    window: ParentWindow,
    config: GlConfig,
    created: CreationAnswers,
    operations: Seq<Operation>,
    resource: Resource,
)
    requires
        window.usable(),
        profile_for(config.version, config.profile) is Some,
        created.accepted(),
        unrefused(created.created(), operations),
    ensures
        ({
            let (trace, context) = lived(window, config, created, operations);
            balance(trace + acts(context.dropping()), resource) == 0
        }),
{
    broadcast use group_traces;

    let context = life(created.created(), operations).1;
    law_creation_takes(window, config, created, resource);
    lemma_life(arbitrary(), created.created(), operations, NIL, resource);
    law_drop(arbitrary(), context, resource);
}

} // verus!

//! Whole operations: what is done from beginning to end, given the results of
//! all queries, and what comes of it.

use crate::call::{
    Call, Frame, Query, Reply, Size, GL_FRAMEBUFFER, GL_FRAMEBUFFER_COMPLETE, SCALE_ONE,
};
use crate::config::{GlConfig, GlError};
use crate::context::GlContext;
use crate::creation::{backing_with_layer, installing, Canvas, Creation};
use crate::layer::{showing, BackingScale};
use crate::machine::{
    acts, asked, lemma_run_ask, lemma_run_nested, nests, run, then_replies, Act, Machine, Stage,
};
use crate::pixel_format::{profile_for, PixelFormat};
use crate::resize::Resizing;
use crate::surface::{
    at_least_one, image_of, preparing_renderbuffer, preparing_texture, properties_of, unbinding,
    Surface, SurfaceBuild,
};
use crate::window::{ParentWindow, NIL};
use vstd::prelude::*;

verus! {

/// The results of the queries that look up a backing scale.
pub struct ScaleAnswers {
    pub window: usize,
    pub factor: u64,
}

impl ScaleAnswers {
    /// The scale that is found: the window's factor, and one without a window.
    pub open spec fn scale(self) -> u64 {
        if self.window == NIL {
            SCALE_ONE
        } else {
            self.factor
        }
    }

    pub open spec fn replies(self, rest: Seq<Reply>) -> Seq<Reply> {
        then_replies(
            Reply::Object(self.window),
            if self.window == NIL {
                rest
            } else {
                then_replies(Reply::Scale(self.factor), rest)
            },
        )
    }

    pub open spec fn script(self, view: usize, rest: Seq<Act>) -> Seq<Act> {
        asked(
            seq![],
            Query::WindowOf { view },
            Reply::Object(self.window),
            if self.window == NIL {
                rest
            } else {
                asked(
                    seq![],
                    Query::BackingScaleOf { window: self.window },
                    Reply::Scale(self.factor),
                    rest,
                )
            },
        )
    }
}

/// The results of the queries that make a surface and hang it on a framebuffer.
pub struct SurfaceAnswers {
    pub io_surface: usize,
    pub texture: u32,
    pub code: i32,
    pub depth_stencil: u32,
    pub status: u32,
}

impl SurfaceAnswers {
    /// There is an `IOSurface`, and a texture stands for it.
    pub open spec fn made(self) -> bool {
        self.io_surface != NIL && self.code == 0
    }

    /// The surface is made, and the framebuffer can be drawn into.
    pub open spec fn accepted(self) -> bool {
        self.made() && self.status == GL_FRAMEBUFFER_COMPLETE
    }

    /// The surface that is made for a size in pixels.
    pub open spec fn surface(self, width: u32, height: u32) -> Surface {
        Surface {
            io_surface: self.io_surface,
            texture: self.texture,
            depth_stencil: self.depth_stencil,
            width: at_least_one(width),
            height: at_least_one(height),
        }
    }

    pub open spec fn replies(self, rest: Seq<Reply>) -> Seq<Reply> {
        then_replies(
            Reply::Object(self.io_surface),
            then_replies(
                Reply::Name(self.texture),
                then_replies(
                    Reply::Code(self.code),
                    then_replies(
                        Reply::Name(self.depth_stencil),
                        then_replies(Reply::Status(self.status), rest),
                    ),
                ),
            ),
        )
    }

    /// The replies that are left over once the surface is made or refused.
    pub open spec fn left_over(self, rest: Seq<Reply>) -> Seq<Reply> {
        let last = then_replies(Reply::Status(self.status), rest);
        let name = then_replies(Reply::Name(self.depth_stencil), last);
        if self.io_surface == NIL {
            then_replies(Reply::Name(self.texture), then_replies(Reply::Code(self.code), name))
        } else if self.code != 0 {
            name
        } else {
            last
        }
    }

    /// What the making of the surface ends with.
    pub open spec fn end(self, width: u32, height: u32) -> Stage<SurfaceBuild, Result<Surface, GlError>> {
        let surface = self.surface(width, height);
        let refused = Err(GlError::CreationFailed(()));
        if self.io_surface == NIL {
            Stage::Finish { calls: seq![], result: refused }
        } else if self.code != 0 {
            Stage::Finish { calls: unbinding(), result: refused }
        } else {
            Stage::Finish {
                calls: preparing_renderbuffer(self.depth_stencil, surface.width, surface.height),
                result: Ok(surface),
            }
        }
    }

    /// What is done to make the surface, up to the last query; `rest` follows.
    pub open spec fn making(self, cgl: usize, width: u32, height: u32, rest: Seq<Act>) -> Seq<Act> {
        let width = at_least_one(width);
        let height = at_least_one(height);
        asked(
            seq![],
            Query::NewIoSurface { properties: properties_of(width, height) },
            Reply::Object(self.io_surface),
            if self.io_surface == NIL {
                rest
            } else {
                asked(
                    seq![],
                    Query::GenTexture,
                    Reply::Name(self.texture),
                    asked(
                        preparing_texture(self.texture),
                        image_of(cgl, width, height, self.io_surface),
                        Reply::Code(self.code),
                        if self.code != 0 {
                            rest
                        } else {
                            asked(
                                unbinding(),
                                Query::GenRenderbuffer,
                                Reply::Name(self.depth_stencil),
                                rest,
                            )
                        },
                    ),
                )
            },
        )
    }

    /// What is done to make the surface and hang it on `framebuffer`: `rest`
    /// follows if it is made, and the calls `refused` if it is not.
    pub open spec fn script(
        self,
        cgl: usize,
        width: u32,
        height: u32,
        framebuffer: u32,
        refused: Seq<Call>,
        rest: Seq<Act>,
    ) -> Seq<Act> {
        let calls = self.end(width, height)->Finish_calls;
        self.making(
            cgl,
            width,
            height,
            if self.made() {
                asked(
                    calls + self.surface(width, height).attaching(framebuffer),
                    Query::FramebufferStatus { target: GL_FRAMEBUFFER },
                    Reply::Status(self.status),
                    rest,
                )
            } else {
                acts(calls + refused)
            },
        )
    }
}

/// The results of the queries that create a context.
pub struct CreationAnswers {
    pub pixel_format: usize,
    pub context: usize,
    pub frame: Frame,
    pub view: usize,
    pub layer: usize,
    pub cgl: usize,
    pub scale: ScaleAnswers,
    pub width: u32,
    pub height: u32,
    pub framebuffer: u32,
    pub surface: SurfaceAnswers,
}

impl CreationAnswers {
    /// Nothing was refused.
    pub open spec fn accepted(self) -> bool {
        &&& self.pixel_format != NIL
        &&& self.context != NIL
        &&& self.view != NIL
        &&& self.surface.accepted()
    }

    /// The context that is created.
    pub open spec fn created(self) -> GlContext {
        GlContext {
            view: self.view,
            context: self.context,
            framebuffer: self.framebuffer,
            surface: self.surface.surface(self.width, self.height),
            scale: self.scale.scale(),
        }
    }

    pub open spec fn outcome(self) -> Result<GlContext, GlError> {
        if self.accepted() {
            Ok(self.created())
        } else {
            Err(GlError::CreationFailed(()))
        }
    }

    pub open spec fn canvas(self) -> Canvas {
        Canvas {
            context: self.context,
            view: self.view,
            layer: self.layer,
            size: self.frame.size,
        }
    }

    pub open spec fn replies(self) -> Seq<Reply> {
        then_replies(
            Reply::Object(self.pixel_format),
            then_replies(
                Reply::Object(self.context),
                then_replies(
                    Reply::Frame(self.frame),
                    then_replies(
                        Reply::Object(self.view),
                        then_replies(
                            Reply::Object(self.layer),
                            then_replies(
                                Reply::Object(self.cgl),
                                self.scale.replies(
                                    then_replies(
                                        Reply::Pixels { width: self.width, height: self.height },
                                        then_replies(
                                            Reply::Name(self.framebuffer),
                                            self.surface.replies(seq![]),
                                        ),
                                    ),
                                ),
                            ),
                        ),
                    ),
                ),
            ),
        )
    }

    /// What is done to create the context in the view `parent`. It ends where
    /// something is refused.
    pub open spec fn script(self, parent: usize, wanted: PixelFormat, vsync: bool) -> Seq<Act> {
        let release = Call::Release { object: self.pixel_format };
        asked(
            seq![],
            Query::NewPixelFormat { wanted },
            Reply::Object(self.pixel_format),
            if self.pixel_format == NIL {
                acts(seq![])
            } else {
                asked(
                    seq![],
                    Query::NewContext { pixel_format: self.pixel_format, share: NIL },
                    Reply::Object(self.context),
                    if self.context == NIL {
                        acts(seq![release])
                    } else {
                        asked(
                            seq![
                                release,
                                Call::SetSwapInterval {
                                    context: self.context,
                                    interval: if vsync { 1 } else { 0 },
                                },
                            ],
                            Query::FrameOf { view: parent },
                            Reply::Frame(self.frame),
                            asked(
                                seq![],
                                Query::NewView { frame: self.frame },
                                Reply::Object(self.view),
                                if self.view == NIL {
                                    acts(seq![])
                                } else {
                                    self.view_script(parent)
                                },
                            ),
                        )
                    },
                )
            },
        )
    }

    /// The part of it that follows the making of the view.
    pub open spec fn view_script(self, parent: usize) -> Seq<Act> {
        asked(
            backing_with_layer(self.view),
            Query::LayerOf { view: self.view },
            Reply::Object(self.layer),
            asked(
                installing(parent, self.canvas()),
                Query::CglContextOf { context: self.context },
                Reply::Object(self.cgl),
                self.scale.script(parent, self.drawing_script()),
            ),
        )
    }

    /// The part of it that follows the lookup of the scale.
    pub open spec fn drawing_script(self) -> Seq<Act> {
        asked(
            seq![],
            Query::ToPixels { size: self.frame.size, scale: self.scale.scale() },
            Reply::Pixels { width: self.width, height: self.height },
            asked(
                seq![],
                Query::GenFramebuffer,
                Reply::Name(self.framebuffer),
                self.surface.script(
                    self.cgl,
                    self.width,
                    self.height,
                    self.framebuffer,
                    seq![],
                    if self.surface.accepted() {
                        acts(
                            showing(self.layer, self.surface.io_surface, self.scale.scale())
                                + seq![Call::ClearCurrent { context: self.context }],
                        )
                    } else {
                        acts(seq![])
                    },
                ),
            ),
        )
    }
}

/// The results of the queries that resize a context.
pub struct ResizeAnswers {
    pub superview: usize,
    pub scale: ScaleAnswers,
    pub width: u32,
    pub height: u32,
    pub cgl: usize,
    pub surface: SurfaceAnswers,
    pub layer: usize,
}

impl ResizeAnswers {
    /// The scale afterwards: that of the view that the view is in, and the one
    /// from before if it is in none.
    pub open spec fn scale_after(self, before: u64) -> u64 {
        if self.superview == NIL {
            before
        } else {
            self.scale.scale()
        }
    }

    /// The surface has the right size already.
    pub open spec fn fits(self, context: GlContext) -> bool {
        &&& context.surface.width == at_least_one(self.width)
        &&& context.surface.height == at_least_one(self.height)
    }

    /// The surface is replaced.
    pub open spec fn replaces(self, context: GlContext) -> bool {
        !self.fits(context) && self.surface.accepted()
    }

    /// The context afterwards.
    pub open spec fn outcome(self, context: GlContext) -> GlContext {
        GlContext {
            scale: self.scale_after(context.scale),
            surface: if self.replaces(context) {
                self.surface.surface(self.width, self.height)
            } else {
                context.surface
            },
            ..context
        }
    }

    pub open spec fn replies(self) -> Seq<Reply> {
        then_replies(
            Reply::Object(self.superview),
            if self.superview == NIL {
                self.drawing_replies()
            } else {
                self.scale.replies(self.drawing_replies())
            },
        )
    }

    pub open spec fn drawing_replies(self) -> Seq<Reply> {
        then_replies(
            Reply::Pixels { width: self.width, height: self.height },
            then_replies(
                Reply::Object(self.cgl),
                self.surface.replies(then_replies(Reply::Object(self.layer), seq![])),
            ),
        )
    }

    /// What is done to resize the context.
    pub open spec fn script(self, context: GlContext, size: Size) -> Seq<Act> {
        asked(
            seq![Call::SetFrameSize { view: context.view, size }],
            Query::SuperviewOf { view: context.view },
            Reply::Object(self.superview),
            if self.superview == NIL {
                self.drawing_script(context, size)
            } else {
                self.scale.script(self.superview, self.drawing_script(context, size))
            },
        )
    }

    /// The part of it that follows the lookup of the scale.
    pub open spec fn drawing_script(self, context: GlContext, size: Size) -> Seq<Act> {
        asked(
            seq![],
            Query::ToPixels { size, scale: self.scale_after(context.scale) },
            Reply::Pixels { width: self.width, height: self.height },
            if self.fits(context) {
                acts(seq![])
            } else {
                asked(
                    seq![Call::MakeCurrent { context: context.context }],
                    Query::CglContextOf { context: context.context },
                    Reply::Object(self.cgl),
                    self.surface.script(
                        self.cgl,
                        self.width,
                        self.height,
                        context.framebuffer,
                        seq![Call::ClearCurrent { context: context.context }],
                        self.replacing_script(context),
                    ),
                )
            },
        )
    }

    /// The part of it that follows the making of the surface.
    pub open spec fn replacing_script(self, context: GlContext) -> Seq<Act> {
        let clear = seq![Call::ClearCurrent { context: context.context }];
        let scale = self.scale_after(context.scale);
        if self.surface.accepted() {
            asked(
                context.surface.destroying(),
                Query::LayerOf { view: context.view },
                Reply::Object(self.layer),
                acts(showing(self.layer, self.surface.io_surface, scale) + clear),
            )
        } else {
            acts(clear)
        }
    }
}

/// The making of a surface, within any machine.
proof fn lemma_making<M: Machine>(
    embed: spec_fn(Stage<SurfaceBuild, Result<Surface, GlError>>) -> Stage<M, M::Outcome>,
    wrap: spec_fn(SurfaceBuild) -> M,
    cgl: usize,
    width: u32,
    height: u32,
    answers: SurfaceAnswers,
    rest: Seq<Reply>,
)
    requires
        nests(embed, wrap),
    ensures
        ({
            let after = run(embed(answers.end(width, height)), answers.left_over(rest));
            run(embed(Surface::begin(cgl, width, height)), answers.replies(rest)) == (
                answers.making(cgl, width, height, after.0),
                after.1,
            )
        }),
{
    let w = at_least_one(width);
    let h = at_least_one(height);
    let io_surface = answers.io_surface;
    let texture = answers.texture;
    let rest3 = then_replies(Reply::Status(answers.status), rest);
    let rest2 = then_replies(Reply::Name(answers.depth_stencil), rest3);
    let rest1 = then_replies(Reply::Code(answers.code), rest2);
    let rest0 = then_replies(Reply::Name(texture), rest1);
    lemma_run_nested(
        embed,
        wrap,
        seq![],
        Query::NewIoSurface { properties: properties_of(w, h) },
        SurfaceBuild::IoSurface { cgl, width: w, height: h },
        Reply::Object(io_surface),
        rest0,
    );
    if io_surface != NIL {
        lemma_run_nested(
            embed,
            wrap,
            seq![],
            Query::GenTexture,
            SurfaceBuild::Texture { cgl, width: w, height: h, io_surface },
            Reply::Name(texture),
            rest1,
        );
        lemma_run_nested(
            embed,
            wrap,
            preparing_texture(texture),
            image_of(cgl, w, h, io_surface),
            SurfaceBuild::Image { width: w, height: h, io_surface, texture },
            Reply::Code(answers.code),
            rest2,
        );
        if answers.code == 0 {
            lemma_run_nested(
                embed,
                wrap,
                unbinding(),
                Query::GenRenderbuffer,
                SurfaceBuild::Renderbuffer { width: w, height: h, io_surface, texture },
                Reply::Name(answers.depth_stencil),
                rest3,
            );
        }
    }
}

/// The lookup of a scale, within any machine.
proof fn lemma_looking_up<M: Machine>(
    embed: spec_fn(Stage<BackingScale, u64>) -> Stage<M, M::Outcome>,
    wrap: spec_fn(BackingScale) -> M,
    view: usize,
    answers: ScaleAnswers,
    rest: Seq<Reply>,
)
    requires
        nests(embed, wrap),
    ensures
        ({
            let after = run(embed(Stage::Finish { calls: seq![], result: answers.scale() }), rest);
            run(embed(BackingScale::begin(view)), answers.replies(rest)) == (
                answers.script(view, after.0),
                after.1,
            )
        }),
{
    let window = answers.window;
    let rest0 = if window == NIL {
        rest
    } else {
        then_replies(Reply::Scale(answers.factor), rest)
    };
    lemma_run_nested(
        embed,
        wrap,
        seq![],
        Query::WindowOf { view },
        BackingScale::Window,
        Reply::Object(window),
        rest0,
    );
    if window != NIL {
        lemma_run_nested(
            embed,
            wrap,
            seq![],
            Query::BackingScaleOf { window },
            BackingScale::Factor,
            Reply::Scale(answers.factor),
            rest,
        );
    }
}

/// Making a surface succeeds exactly if there is an `IOSurface` and a texture
/// stands for it, and the surface then has the size that was asked for, raised
/// to one pixel each way. What is done is fixed by the results of the queries.
pub proof fn law_surface_outcome(cgl: usize, width: u32, height: u32, answers: SurfaceAnswers, rest: Seq<Reply>)
    ensures
        run(Surface::begin(cgl, width, height), answers.replies(rest)).1 == Some(
            if answers.made() {
                Ok(answers.surface(width, height))
            } else {
                Err(GlError::CreationFailed(()))
            },
        ),
        run(Surface::begin(cgl, width, height), answers.replies(rest)).0 == answers.making(
            cgl,
            width,
            height,
            acts(answers.end(width, height)->Finish_calls),
        ),
{
    let embed = |stage: Stage<SurfaceBuild, Result<Surface, GlError>>| stage;
    lemma_making(embed, |build: SurfaceBuild| build, cgl, width, height, answers, rest);
}

/// The scale that is found is the window's factor, and one without a window.
pub proof fn law_scale_outcome(view: usize, answers: ScaleAnswers, rest: Seq<Reply>)
    ensures
        run(BackingScale::begin(view), answers.replies(rest)).1 == Some(answers.scale()),
{
    let embed = |stage: Stage<BackingScale, u64>| stage;
    lemma_looking_up(embed, |lookup: BackingScale| lookup, view, answers, rest);
}

/// The part of a creation that makes the surface and hangs it on the
/// framebuffer.
proof fn lemma_creation_surface(
    canvas: Canvas,
    scale: u64,
    framebuffer: u32,
    cgl: usize,
    width: u32,
    height: u32,
    answers: SurfaceAnswers,
    rest: Seq<Reply>,
)
    ensures
        ({
            let surface = answers.surface(width, height);
            let ran = run(
                Creation::with_surface(canvas, scale, framebuffer, Surface::begin(cgl, width, height)),
                answers.replies(rest),
            );
            &&& ran.1 == Some(
                if answers.accepted() {
                    Ok::<GlContext, GlError>(
                        GlContext { view: canvas.view, context: canvas.context, framebuffer, surface, scale },
                    )
                } else {
                    Err(GlError::CreationFailed(()))
                },
            )
            &&& ran.0 == answers.script(
                cgl,
                width,
                height,
                framebuffer,
                seq![],
                if answers.accepted() {
                    acts(
                        showing(canvas.layer, answers.io_surface, scale)
                            + seq![Call::ClearCurrent { context: canvas.context }],
                    )
                } else {
                    acts(seq![])
                },
            )
        }),
{
    let embed = |stage: Stage<SurfaceBuild, Result<Surface, GlError>>|
        Creation::with_surface(canvas, scale, framebuffer, stage);
    let wrap = |build: SurfaceBuild| Creation::Build { canvas, scale, framebuffer, build };
    lemma_making(embed, wrap, cgl, width, height, answers, rest);
    let surface = answers.surface(width, height);
    lemma_run_ask(
        answers.end(width, height)->Finish_calls + surface.attaching(framebuffer),
        Query::FramebufferStatus { target: GL_FRAMEBUFFER },
        Creation::Attach { canvas, scale, framebuffer, surface },
        Reply::Status(answers.status),
        rest,
    );
    assert(seq![] + Seq::<Call>::empty() =~= seq![]);
    assert(unbinding() + Seq::<Call>::empty() =~= unbinding());
}

/// The part of a creation that looks up the scale.
proof fn lemma_creation_scale(canvas: Canvas, cgl: usize, view: usize, answers: ScaleAnswers, rest: Seq<Reply>)
    ensures
        ({
            let scale = answers.scale();
            let ran = run(
                Creation::with_scale(canvas, cgl, BackingScale::begin(view)),
                answers.replies(rest),
            );
            let after = run(
                Stage::Ask {
                    calls: seq![],
                    query: Query::ToPixels { size: canvas.size, scale },
                    next: Creation::Pixels { canvas, cgl, scale },
                },
                rest,
            );
            &&& ran.0 == answers.script(view, after.0)
            &&& ran.1 == after.1
        }),
{
    let embed = |stage: Stage<BackingScale, u64>| Creation::with_scale(canvas, cgl, stage);
    let wrap = |lookup: BackingScale| Creation::Scale { canvas, cgl, lookup };
    lemma_looking_up(embed, wrap, view, answers, rest);
}

/// A parent that is not an AppKit view is refused at once, and so is a version
/// that no profile offers; nothing is done then.
pub proof fn law_creation_refused(window: ParentWindow, config: GlConfig, replies: Seq<Reply>)
    requires
        !window.usable() || profile_for(config.version, config.profile) is None,
    ensures
        run(GlContext::creating(window, config), replies).0 == Seq::<Act>::empty(),
        run(GlContext::creating(window, config), replies).1 == Some(
            Err::<GlContext, GlError>(
                if !window.usable() {
                    GlError::InvalidWindowHandle
                } else {
                    GlError::VersionNotSupported
                },
            ),
        ),
{
    assert(acts(seq![]) =~= Seq::<Act>::empty());
}

/// In a usable parent and with a version that is offered, a context is created
/// exactly if nothing is refused: not the pixel format, the context, the view,
/// the `IOSurface`, the texture's image or the framebuffer. What is done, and
/// the context that it gives, are fixed by the results of the queries.
pub proof fn law_creation_outcome(window: ParentWindow, config: GlConfig, answers: CreationAnswers)
    requires
        window.usable(),
        profile_for(config.version, config.profile) is Some,
    ensures
        run(GlContext::creating(window, config), answers.replies()).1 == Some(answers.outcome()),
        run(GlContext::creating(window, config), answers.replies()).0 == answers.script(
            window->ns_view,
            PixelFormat::of(profile_for(config.version, config.profile)->0, config),
            config.vsync,
        ),
{
    let parent = window->ns_view;
    let vsync = config.vsync;
    let wanted = PixelFormat::of(profile_for(config.version, config.profile)->0, config);
    let a = answers;
    let scale = a.scale.scale();
    let canvas = a.canvas();
    let rest8 = a.surface.replies(seq![]);
    let rest7 = then_replies(Reply::Name(a.framebuffer), rest8);
    let rest6 = then_replies(Reply::Pixels { width: a.width, height: a.height }, rest7);
    let rest5 = a.scale.replies(rest6);
    let rest4 = then_replies(Reply::Object(a.cgl), rest5);
    let rest3 = then_replies(Reply::Object(a.layer), rest4);
    let rest2 = then_replies(Reply::Object(a.view), rest3);
    let rest1 = then_replies(Reply::Frame(a.frame), rest2);
    let rest0 = then_replies(Reply::Object(a.context), rest1);
    lemma_run_ask(
        seq![],
        Query::NewPixelFormat { wanted },
        Creation::PixelFormat { parent, vsync },
        Reply::Object(a.pixel_format),
        rest0,
    );
    if a.pixel_format != NIL {
        lemma_run_ask(
            seq![],
            Query::NewContext { pixel_format: a.pixel_format, share: NIL },
            Creation::Context { parent, vsync, pixel_format: a.pixel_format },
            Reply::Object(a.context),
            rest1,
        );
        if a.context != NIL {
            lemma_run_ask(
                seq![
                    Call::Release { object: a.pixel_format },
                    Call::SetSwapInterval { context: a.context, interval: if vsync { 1 } else { 0 } },
                ],
                Query::FrameOf { view: parent },
                Creation::ParentFrame { parent, context: a.context },
                Reply::Frame(a.frame),
                rest2,
            );
            lemma_run_ask(
                seq![],
                Query::NewView { frame: a.frame },
                Creation::View { parent, context: a.context, size: a.frame.size },
                Reply::Object(a.view),
                rest3,
            );
            if a.view != NIL {
                lemma_run_ask(
                    backing_with_layer(a.view),
                    Query::LayerOf { view: a.view },
                    Creation::Layer { parent, context: a.context, view: a.view, size: a.frame.size },
                    Reply::Object(a.layer),
                    rest4,
                );
                lemma_run_ask(
                    installing(parent, canvas),
                    Query::CglContextOf { context: a.context },
                    Creation::Cgl { parent, canvas },
                    Reply::Object(a.cgl),
                    rest5,
                );
                lemma_creation_scale(canvas, a.cgl, parent, a.scale, rest6);
                lemma_run_ask(
                    seq![],
                    Query::ToPixels { size: canvas.size, scale },
                    Creation::Pixels { canvas, cgl: a.cgl, scale },
                    Reply::Pixels { width: a.width, height: a.height },
                    rest7,
                );
                lemma_run_ask(
                    seq![],
                    Query::GenFramebuffer,
                    Creation::Framebuffer { canvas, cgl: a.cgl, scale, width: a.width, height: a.height },
                    Reply::Name(a.framebuffer),
                    rest8,
                );
                lemma_creation_surface(
                    canvas,
                    scale,
                    a.framebuffer,
                    a.cgl,
                    a.width,
                    a.height,
                    a.surface,
                    seq![],
                );
            }
        }
    }
}

/// The part of a resize that makes the surface and hangs it on the framebuffer.
proof fn lemma_resize_surface(
    context: GlContext,
    cgl: usize,
    width: u32,
    height: u32,
    answers: SurfaceAnswers,
    layer: usize,
)
    ensures
        ({
            let surface = answers.surface(width, height);
            let clear = seq![Call::ClearCurrent { context: context.context }];
            let ran = run(
                Resizing::with_surface(context, Surface::begin(cgl, width, height)),
                answers.replies(then_replies(Reply::Object(layer), seq![])),
            );
            &&& ran.1 == Some(
                if answers.accepted() {
                    GlContext { surface, ..context }
                } else {
                    context
                },
            )
            &&& ran.0 == answers.script(
                cgl,
                width,
                height,
                context.framebuffer,
                clear,
                if answers.accepted() {
                    asked(
                        context.surface.destroying(),
                        Query::LayerOf { view: context.view },
                        Reply::Object(layer),
                        acts(showing(layer, answers.io_surface, context.scale) + clear),
                    )
                } else {
                    acts(clear)
                },
            )
        }),
{
    let embed = |stage: Stage<SurfaceBuild, Result<Surface, GlError>>|
        Resizing::with_surface(context, stage);
    let wrap = |build: SurfaceBuild| Resizing::Build { context, build };
    let rest = then_replies(Reply::Object(layer), seq![]);
    lemma_making(embed, wrap, cgl, width, height, answers, rest);
    let surface = answers.surface(width, height);
    lemma_run_ask(
        answers.end(width, height)->Finish_calls + surface.attaching(context.framebuffer),
        Query::FramebufferStatus { target: GL_FRAMEBUFFER },
        Resizing::Attach { context, surface },
        Reply::Status(answers.status),
        rest,
    );
    lemma_run_ask(
        context.surface.destroying(),
        Query::LayerOf { view: context.view },
        Resizing::Layer { context: GlContext { surface, ..context } },
        Reply::Object(layer),
        seq![],
    );
}

/// The part of a resize that follows the lookup of the scale.
proof fn lemma_resize_drawing(context: GlContext, size: Size, answers: ResizeAnswers)
    ensures
        ({
            let scale = answers.scale_after(context.scale);
            let ran = run(
                Resizing::scaled(seq![], context, size, scale),
                answers.drawing_replies(),
            );
            &&& ran.1 == Some(answers.outcome(context))
            &&& ran.0 == answers.drawing_script(context, size)
        }),
{
    let scale = answers.scale_after(context.scale);
    let scaled = GlContext { scale, ..context };
    let w = at_least_one(answers.width);
    let h = at_least_one(answers.height);
    let rest1 = answers.surface.replies(then_replies(Reply::Object(answers.layer), seq![]));
    let rest0 = then_replies(Reply::Object(answers.cgl), rest1);
    lemma_run_ask(
        seq![],
        Query::ToPixels { size, scale },
        Resizing::Pixels { context: scaled },
        Reply::Pixels { width: answers.width, height: answers.height },
        rest0,
    );
    if !answers.fits(context) {
        lemma_run_ask(
            seq![Call::MakeCurrent { context: context.context }],
            Query::CglContextOf { context: context.context },
            Resizing::Cgl { context: scaled, width: w, height: h },
            Reply::Object(answers.cgl),
            rest1,
        );
        lemma_resize_surface(scaled, answers.cgl, w, h, answers.surface, answers.layer);
    }
}

/// The part of a resize that looks up the scale.
proof fn lemma_resize_scale(context: GlContext, size: Size, view: usize, answers: ScaleAnswers, rest: Seq<Reply>)
    ensures
        ({
            let ran = run(
                Resizing::with_scale(context, size, BackingScale::begin(view)),
                answers.replies(rest),
            );
            let after = run(Resizing::scaled(seq![], context, size, answers.scale()), rest);
            &&& ran.0 == answers.script(view, after.0)
            &&& ran.1 == after.1
        }),
{
    let embed = |stage: Stage<BackingScale, u64>| Resizing::with_scale(context, size, stage);
    let wrap = |lookup: BackingScale| Resizing::Scale { context, size, lookup };
    lemma_looking_up(embed, wrap, view, answers, rest);
}

/// A resize always ends with a context: with the scale of the view that its
/// view is in, and with a surface of the new size if the size is new and
/// nothing is refused, and its present surface otherwise. What is done is fixed
/// by the results of the queries.
pub proof fn law_resize_outcome(context: GlContext, size: Size, answers: ResizeAnswers)
    ensures
        run(context.resizing(size), answers.replies()).1 == Some(answers.outcome(context)),
        run(context.resizing(size), answers.replies()).0 == answers.script(context, size),
{
    let rest = answers.drawing_replies();
    lemma_resize_drawing(context, size, answers);
    if answers.superview == NIL {
        lemma_run_ask(
            seq![Call::SetFrameSize { view: context.view, size }],
            Query::SuperviewOf { view: context.view },
            Resizing::Superview { context, size },
            Reply::Object(answers.superview),
            rest,
        );
    } else {
        lemma_run_ask(
            seq![Call::SetFrameSize { view: context.view, size }],
            Query::SuperviewOf { view: context.view },
            Resizing::Superview { context, size },
            Reply::Object(answers.superview),
            answers.scale.replies(rest),
        );
        lemma_resize_scale(context, size, answers.superview, answers.scale, rest);
    }
}

} // verus!

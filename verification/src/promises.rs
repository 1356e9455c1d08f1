//! What the operations promise: what is asked of the outside and what comes of
//! it, in the numbers themselves, for all arguments and all results of queries.

use crate::call::{Call, Frame, IoSurfaceProperties, Property, Query, Reply, Size};
use crate::config::{GlConfig, GlError, Profile};
use crate::context::GlContext;
use crate::creation::Creation;
use crate::history::{
    law_creation_outcome, law_resize_outcome, law_surface_outcome, CreationAnswers, ResizeAnswers,
    ScaleAnswers, SurfaceAnswers,
};
use crate::layer::{showing, BackingScale};
use crate::machine::{acts, lemma_run_ask, run, then_replies, Act, Machine, Stage};
use crate::pixel_format::{profile_for, PixelFormat};
use crate::surface::{at_least_one, gl_length, Surface, SurfaceBuild};
use crate::window::ParentWindow;
use vstd::math::max;
use vstd::prelude::*;

verus! {

/// The profile for a version, by major and minor: the legacy one exactly below
/// 3.2 in the compatibility profile, the one of 3.2 exactly for 3.2 in the core
/// profile, the one of 4.1 exactly above 3.2 in the core profile, and none for
/// all others.
pub proof fn law_profile_by_version(major: u8, minor: u8, profile: Profile)
    ensures
        profile_for((major, minor), profile) == Some(0x1000u32) <==> profile is Compatibility && (
        major < 3 || major == 3 && minor < 2),
        profile_for((major, minor), profile) == Some(0x3200u32) <==> profile is Core && major == 3
            && minor == 2,
        profile_for((major, minor), profile) == Some(0x4100u32) <==> profile is Core && (major > 3
            || major == 3 && minor > 2),
        profile_for((major, minor), profile) is None <==> if profile is Core {
            major < 3 || major == 3 && minor < 2
        } else {
            major > 3 || major == 3 && minor >= 2
        },
{
}

/// A pixel format has the numbers of its configuration, each as it is: the
/// colour channels added, and samples exactly if the configuration has some.
pub proof fn law_pixel_format_numbers(profile: u32, config: GlConfig)
    ensures
        ({
            let format = PixelFormat::of(profile, config);
            &&& format.profile == profile
            &&& format.color_size == config.red_bits + config.green_bits + config.blue_bits
            &&& format.alpha_size == config.alpha_bits
            &&& format.depth_size == config.depth_bits
            &&& format.stencil_size == config.stencil_bits
            &&& format.samples is Some <==> config.samples is Some
            &&& config.samples matches Some(samples) ==> format.samples->0 == samples
        }),
{
}

/// The attribute list holds each number of the format behind the attribute that
/// it is for, asks for acceleration, asks for one sample buffer and the number of
/// samples exactly if there are samples, and ends with zero.
pub proof fn law_attribute_numbers(format: PixelFormat)
    ensures
        ({
            let list = format.list();
            &&& list.len() == if format.samples is Some {
                17nat
            } else {
                12nat
            }
            &&& list[0] == 99 && list[1] == format.profile
            &&& list[2] == 8 && list[3] == format.color_size
            &&& list[4] == 11 && list[5] == format.alpha_size
            &&& list[6] == 12 && list[7] == format.depth_size
            &&& list[8] == 13 && list[9] == format.stencil_size
            &&& list[10] == 73
            &&& format.samples matches Some(samples) ==> {
                &&& list[11] == 59
                &&& list[12] == 55 && list[13] == 1
                &&& list[14] == 56 && list[15] == samples
            }
            &&& list.last() == 0
        }),
{
}

/// Two formats that differ are asked for with attribute lists that differ.
pub proof fn law_attribute_lists_tell_apart(one: PixelFormat, other: PixelFormat)
    requires
        one.list() == other.list(),
    ensures
        one == other,
{
    law_attribute_numbers(one);
    law_attribute_numbers(other);
}

/// The scale of a view in a window is the window's factor, whatever it is; that
/// of a view in no window is 1.0. Only the window of that view is asked.
pub proof fn law_scale_is_the_factor(view: usize, window: usize, factor: u64)
    requires
        window != 0,
    ensures
        run(BackingScale::begin(view), seq![Reply::Object(window), Reply::Scale(factor)]) == (
            seq![
                Act::Query(Query::WindowOf { view }, Reply::Object(window)),
                Act::Query(Query::BackingScaleOf { window }, Reply::Scale(factor)),
            ],
            Some(factor),
        ),
        run(BackingScale::begin(view), seq![Reply::Object(0)]) == (
            seq![Act::Query(Query::WindowOf { view }, Reply::Object(0))],
            Some(0x3FF0_0000_0000_0000u64),
        ),
{
    let none = Seq::<Reply>::empty();
    let last = then_replies(Reply::Scale(factor), none);
    lemma_run_ask(seq![], Query::WindowOf { view }, BackingScale::Window, Reply::Object(window), last);
    lemma_run_ask(
        seq![],
        Query::BackingScaleOf { window },
        BackingScale::Factor,
        Reply::Scale(factor),
        none,
    );
    lemma_run_ask(seq![], Query::WindowOf { view }, BackingScale::Window, Reply::Object(0), none);
    assert(then_replies(Reply::Object(window), last) =~= seq![
        Reply::Object(window),
        Reply::Scale(factor),
    ]);
    assert(then_replies(Reply::Object(0), none) =~= seq![Reply::Object(0)]);
}

/// What is asked for with lengths is asked for with these: the width first, the
/// height second. OpenGL takes them in 32 bits.
pub open spec fn of_size(act: Act, width: int, height: int) -> bool {
    match act {
        Act::Query(Query::NewIoSurface { properties }, _) => {
            properties.width.value == width && properties.height.value == height
        },
        Act::Query(Query::TexImageIoSurface { width: w, height: h, .. }, _) => {
            w == width && h == height
        },
        Act::Call(Call::RenderbufferStorage { width: w, height: h, .. }) => {
            (w - width) % 0x1_0000_0000 == 0 && (h - height) % 0x1_0000_0000 == 0
        },
        _ => true,
    }
}

spec fn build_of_size(stage: Stage<SurfaceBuild, Result<Surface, GlError>>, width: int, height: int) -> bool {
    match stage {
        Stage::Ask { calls, query, next } => {
            &&& forall|i: int|
                0 <= i < calls.len() ==> of_size(Act::Call(#[trigger] calls[i]), width, height)
            &&& forall|reply: Reply| #[trigger] of_size(Act::Query(query, reply), width, height)
            &&& match next {
                SurfaceBuild::IoSurface { width: w, height: h, .. } => w == width && h == height,
                SurfaceBuild::Texture { width: w, height: h, .. } => w == width && h == height,
                SurfaceBuild::Image { width: w, height: h, .. } => w == width && h == height,
                SurfaceBuild::Renderbuffer { width: w, height: h, .. } => w == width && h == height,
            }
        },
        Stage::Finish { calls, result } => {
            &&& forall|i: int|
                0 <= i < calls.len() ==> of_size(Act::Call(#[trigger] calls[i]), width, height)
            &&& result matches Ok(surface) ==> surface.width == width && surface.height == height
        },
    }
}

proof fn lemma_build_of_size(
    stage: Stage<SurfaceBuild, Result<Surface, GlError>>,
    width: int,
    height: int,
    replies: Seq<Reply>,
)
    requires
        build_of_size(stage, width, height),
    ensures
        run(stage, replies).1 matches Some(Ok(surface)) ==> surface.width == width && surface.height
            == height,
        forall|i: int|
            0 <= i < run(stage, replies).0.len() ==> of_size(
                #[trigger] run(stage, replies).0[i],
                width,
                height,
            ),
    decreases replies.len(),
{
    if let Stage::Ask { next, .. } = stage {
        if replies.len() > 0 {
            assert(build_of_size(next.transition(replies[0]), width, height));
            lemma_build_of_size(next.transition(replies[0]), width, height, replies.drop_first());
        }
    }
}

/// The `IOSurface`, the texture's image, the depth and stencil buffer and the
/// surface that results all have the one size that was asked for, raised to one
/// pixel each way, whatever the results of the queries.
pub proof fn law_surface_has_one_size(cgl: usize, width: u32, height: u32, replies: Seq<Reply>)
    ensures
        ({
            let w = max(width as int, 1);
            let h = max(height as int, 1);
            let ran = run(Surface::begin(cgl, width, height), replies);
            &&& ran.1 matches Some(Ok(surface)) ==> surface.width == w && surface.height == h
            &&& forall|i: int| 0 <= i < ran.0.len() ==> of_size(#[trigger] ran.0[i], w, h)
        }),
{
    lemma_build_of_size(
        Surface::begin(cgl, width, height),
        max(width as int, 1),
        max(height as int, 1),
        replies,
    );
}

/// A surface that is made: an `IOSurface` of four bytes `BGRA` per pixel, a
/// linearly filtered rectangle texture that stands for it, and a buffer of depth
/// and stencil. Nothing is left bound, and the surface is of what was given out.
pub proof fn law_surface_in_full(
    cgl: usize,
    width: u32,
    height: u32,
    io_surface: usize,
    texture: u32,
    depth_stencil: u32,
    rest: Seq<Reply>,
)
    requires
        io_surface != 0,
    ensures
        ({
            let w = max(width as int, 1);
            let h = max(height as int, 1);
            let signed = |length: int|
                if length < 0x8000_0000 {
                    length as i32
                } else {
                    (length - 0x1_0000_0000) as i32
                };
            run(
                Surface::begin(cgl, width, height),
                seq![
                    Reply::Object(io_surface),
                    Reply::Name(texture),
                    Reply::Code(0),
                    Reply::Name(depth_stencil),
                ] + rest,
            ) == (
                seq![
                    Act::Query(
                        Query::NewIoSurface {
                            properties: IoSurfaceProperties {
                                width: Property { key: "IOSurfaceWidth", value: w as i64 },
                                height: Property { key: "IOSurfaceHeight", value: h as i64 },
                                bytes_per_element: Property {
                                    key: "IOSurfaceBytesPerElement",
                                    value: 4,
                                },
                                pixel_format: Property {
                                    key: "IOSurfacePixelFormat",
                                    value: 0x4247_5241,
                                },
                            },
                        },
                        Reply::Object(io_surface),
                    ),
                    Act::Query(Query::GenTexture, Reply::Name(texture)),
                    Act::Call(Call::BindTexture { target: 0x84F5, texture }),
                    Act::Call(Call::TexParameter { target: 0x84F5, name: 0x2801, value: 0x2601 }),
                    Act::Call(Call::TexParameter { target: 0x84F5, name: 0x2800, value: 0x2601 }),
                    Act::Query(
                        Query::TexImageIoSurface {
                            cgl,
                            target: 0x84F5,
                            internal_format: 0x1908,
                            width: w as u32,
                            height: h as u32,
                            format: 0x80E1,
                            ty: 0x8367,
                            io_surface,
                            plane: 0,
                        },
                        Reply::Code(0),
                    ),
                    Act::Call(Call::BindTexture { target: 0x84F5, texture: 0 }),
                    Act::Query(Query::GenRenderbuffer, Reply::Name(depth_stencil)),
                    Act::Call(Call::BindRenderbuffer { target: 0x8D41, renderbuffer: depth_stencil }),
                    Act::Call(
                        Call::RenderbufferStorage {
                            target: 0x8D41,
                            format: 0x88F0,
                            width: signed(w),
                            height: signed(h),
                        },
                    ),
                    Act::Call(Call::BindRenderbuffer { target: 0x8D41, renderbuffer: 0 }),
                ],
                Some(
                    Ok::<Surface, GlError>(
                        Surface {
                            io_surface,
                            texture,
                            depth_stencil,
                            width: w as u32,
                            height: h as u32,
                        },
                    ),
                ),
            )
        }),
{
    let rest3 = then_replies(Reply::Name(depth_stencil), rest);
    let rest2 = then_replies(Reply::Code(0), rest3);
    let rest1 = then_replies(Reply::Name(texture), rest2);
    let begin = Surface::begin(cgl, width, height);
    let named = begin->next.transition(Reply::Object(io_surface));
    let imaged = named->next.transition(Reply::Name(texture));
    let stored = imaged->next.transition(Reply::Code(0));
    lemma_run_ask(begin->Ask_calls, begin->query, begin->next, Reply::Object(io_surface), rest1);
    lemma_run_ask(named->Ask_calls, named->query, named->next, Reply::Name(texture), rest2);
    lemma_run_ask(imaged->Ask_calls, imaged->query, imaged->next, Reply::Code(0), rest3);
    lemma_run_ask(stored->Ask_calls, stored->query, stored->next, Reply::Name(depth_stencil), rest);
    assert(then_replies(Reply::Object(io_surface), rest1) =~= seq![
        Reply::Object(io_surface),
        Reply::Name(texture),
        Reply::Code(0),
        Reply::Name(depth_stencil),
    ] + rest);
}

/// A surface is refused without an `IOSurface`, at once, and if the texture
/// cannot stand for it, with nothing left bound.
pub proof fn law_surface_refused(
    cgl: usize,
    width: u32,
    height: u32,
    io_surface: usize,
    texture: u32,
    code: i32,
    rest: Seq<Reply>,
)
    requires
        io_surface != 0,
        code != 0,
    ensures
        ({
            let begin = Surface::begin(cgl, width, height);
            let refused = Some(Err::<Surface, GlError>(GlError::CreationFailed(())));
            &&& run(begin, seq![Reply::Object(0)] + rest) == (
                seq![Act::Query(begin->query, Reply::Object(0))],
                refused,
            )
            &&& run(
                begin,
                seq![Reply::Object(io_surface), Reply::Name(texture), Reply::Code(code)] + rest,
            ) == (
                seq![
                    Act::Query(begin->query, Reply::Object(io_surface)),
                    Act::Query(Query::GenTexture, Reply::Name(texture)),
                    Act::Call(Call::BindTexture { target: 0x84F5, texture }),
                    Act::Call(Call::TexParameter { target: 0x84F5, name: 0x2801, value: 0x2601 }),
                    Act::Call(Call::TexParameter { target: 0x84F5, name: 0x2800, value: 0x2601 }),
                    Act::Query(
                        Query::TexImageIoSurface {
                            cgl,
                            target: 0x84F5,
                            internal_format: 0x1908,
                            width: max(width as int, 1) as u32,
                            height: max(height as int, 1) as u32,
                            format: 0x80E1,
                            ty: 0x8367,
                            io_surface,
                            plane: 0,
                        },
                        Reply::Code(code),
                    ),
                    Act::Call(Call::BindTexture { target: 0x84F5, texture: 0 }),
                ],
                refused,
            )
        }),
{
    let rest2 = then_replies(Reply::Code(code), rest);
    let rest1 = then_replies(Reply::Name(texture), rest2);
    let begin = Surface::begin(cgl, width, height);
    let named = begin->next.transition(Reply::Object(io_surface));
    let imaged = named->next.transition(Reply::Name(texture));
    lemma_run_ask(begin->Ask_calls, begin->query, begin->next, Reply::Object(0), rest);
    lemma_run_ask(begin->Ask_calls, begin->query, begin->next, Reply::Object(io_surface), rest1);
    lemma_run_ask(named->Ask_calls, named->query, named->next, Reply::Name(texture), rest2);
    lemma_run_ask(imaged->Ask_calls, imaged->query, imaged->next, Reply::Code(code), rest);
    assert(then_replies(Reply::Object(io_surface), rest1) =~= seq![
        Reply::Object(io_surface),
        Reply::Name(texture),
        Reply::Code(code),
    ] + rest);
}

/// What follows the making of a surface can be parted from it.
proof fn lemma_making_parts(
    answers: SurfaceAnswers,
    cgl: usize,
    width: u32,
    height: u32,
    first: Seq<Act>,
    second: Seq<Act>,
)
    ensures
        answers.making(cgl, width, height, first + second) == answers.making(
            cgl,
            width,
            height,
            first,
        ) + second,
{
    assert(answers.making(cgl, width, height, first + second) =~= answers.making(
        cgl,
        width,
        height,
        first,
    ) + second);
}

/// A surface that is made, hung on a framebuffer, and what follows.
proof fn lemma_hanging_acts(
    answers: SurfaceAnswers,
    cgl: usize,
    width: u32,
    height: u32,
    framebuffer: u32,
    refused: Seq<Call>,
    rest: Seq<Act>,
)
    ensures
        ({
            let made = run(Surface::begin(cgl, width, height), answers.replies(seq![])).0;
            answers.script(cgl, width, height, framebuffer, refused, rest)
                == if answers.io_surface == 0 || answers.code != 0 {
                made + acts(refused)
            } else {
                made + seq![
                    Act::Call(Call::BindFramebuffer { target: 0x8D40, framebuffer }),
                    Act::Call(
                        Call::FramebufferTexture {
                            target: 0x8D40,
                            attachment: 0x8CE0,
                            textarget: 0x84F5,
                            texture: answers.texture,
                            level: 0,
                        },
                    ),
                    Act::Call(
                        Call::FramebufferRenderbuffer {
                            target: 0x8D40,
                            attachment: 0x821A,
                            rbtarget: 0x8D41,
                            renderbuffer: answers.depth_stencil,
                        },
                    ),
                    Act::Query(
                        Query::FramebufferStatus { target: 0x8D40 },
                        Reply::Status(answers.status),
                    ),
                ] + rest
            }
        }),
{
    let surface = answers.surface(width, height);
    let calls = answers.end(width, height)->Finish_calls;
    let attaching = seq![
        Act::Call(Call::BindFramebuffer { target: 0x8D40, framebuffer }),
        Act::Call(
            Call::FramebufferTexture {
                target: 0x8D40,
                attachment: 0x8CE0,
                textarget: 0x84F5,
                texture: answers.texture,
                level: 0,
            },
        ),
        Act::Call(
            Call::FramebufferRenderbuffer {
                target: 0x8D40,
                attachment: 0x821A,
                rbtarget: 0x8D41,
                renderbuffer: answers.depth_stencil,
            },
        ),
        Act::Query(Query::FramebufferStatus { target: 0x8D40 }, Reply::Status(answers.status)),
    ];
    law_surface_outcome(cgl, width, height, answers, seq![]);
    if answers.io_surface == 0 || answers.code != 0 {
        assert(acts(calls + refused) =~= acts(calls) + acts(refused));
        lemma_making_parts(answers, cgl, width, height, acts(calls), acts(refused));
    } else {
        let question = seq![
            Act::Query(Query::FramebufferStatus { target: 0x8D40 }, Reply::Status(answers.status)),
        ];
        assert(acts(surface.attaching(framebuffer)) + question =~= attaching);
        assert(acts(calls + surface.attaching(framebuffer)) + question + rest =~= acts(calls) + (
        attaching + rest));
        lemma_making_parts(answers, cgl, width, height, acts(calls), attaching + rest);
        let made = answers.making(cgl, width, height, acts(calls));
        assert(made + (attaching + rest) =~= made + attaching + rest);
    }
}

/// The lookup of a scale, and what follows.
proof fn lemma_lookup_acts(answers: ScaleAnswers, view: usize, rest: Seq<Act>)
    ensures
        ({
            let found = Act::Query(Query::WindowOf { view }, Reply::Object(answers.window));
            answers.script(view, rest) == if answers.window == 0 {
                seq![found] + rest
            } else {
                seq![
                    found,
                    Act::Query(
                        Query::BackingScaleOf { window: answers.window },
                        Reply::Scale(answers.factor),
                    ),
                ] + rest
            }
        }),
{
}

/// The results of a resize's queries, one after the other.
proof fn lemma_resize_replies(answers: ResizeAnswers)
    ensures
        ({
            let surface = answers.surface;
            let looked_up = if answers.superview == 0 {
                seq![]
            } else if answers.scale.window == 0 {
                seq![Reply::Object(answers.scale.window)]
            } else {
                seq![Reply::Object(answers.scale.window), Reply::Scale(answers.scale.factor)]
            };
            let built = seq![
                Reply::Object(surface.io_surface),
                Reply::Name(surface.texture),
                Reply::Code(surface.code),
                Reply::Name(surface.depth_stencil),
                Reply::Status(surface.status),
            ];
            &&& surface.replies(seq![]) == built
            &&& answers.replies() == seq![Reply::Object(answers.superview)] + looked_up + seq![
                Reply::Pixels { width: answers.width, height: answers.height },
                Reply::Object(answers.cgl),
            ] + built + seq![Reply::Object(answers.layer)]
        }),
{
}

/// What follows the lookup of the scale in a resize.
proof fn lemma_resize_acts(context: GlContext, size: Size, answers: ResizeAnswers)
    ensures
        ({
            let surface = answers.surface;
            let layer = answers.layer;
            let scale = answers.scale_after(context.scale);
            let w = max(answers.width as int, 1) as u32;
            let h = max(answers.height as int, 1) as u32;
            let asking = seq![
                Act::Query(
                    Query::ToPixels { size, scale },
                    Reply::Pixels { width: answers.width, height: answers.height },
                ),
            ];
            let making = asking + seq![
                Act::Call(Call::MakeCurrent { context: context.context }),
                Act::Query(
                    Query::CglContextOf { context: context.context },
                    Reply::Object(answers.cgl),
                ),
            ] + run(Surface::begin(answers.cgl, w, h), surface.replies(seq![])).0;
            let hanging = making + seq![
                Act::Call(
                    Call::BindFramebuffer { target: 0x8D40, framebuffer: context.framebuffer },
                ),
                Act::Call(
                    Call::FramebufferTexture {
                        target: 0x8D40,
                        attachment: 0x8CE0,
                        textarget: 0x84F5,
                        texture: surface.texture,
                        level: 0,
                    },
                ),
                Act::Call(
                    Call::FramebufferRenderbuffer {
                        target: 0x8D40,
                        attachment: 0x821A,
                        rbtarget: 0x8D41,
                        renderbuffer: surface.depth_stencil,
                    },
                ),
                Act::Query(Query::FramebufferStatus { target: 0x8D40 }, Reply::Status(surface.status)),
            ];
            let replacing = hanging + seq![
                Act::Call(Call::DeleteTexture { texture: context.surface.texture }),
                Act::Call(
                    Call::DeleteRenderbuffer { renderbuffer: context.surface.depth_stencil },
                ),
                Act::Call(Call::Release { object: context.surface.io_surface }),
                Act::Query(Query::LayerOf { view: context.view }, Reply::Object(layer)),
                Act::Call(Call::SetContentsScale { layer, scale }),
                Act::Call(Call::SetContents { layer, io_surface: surface.io_surface }),
            ];
            let clear = seq![Act::Call(Call::ClearCurrent { context: context.context })];
            answers.drawing_script(context, size) == if context.surface.width == w
                && context.surface.height == h {
                asking
            } else if surface.io_surface == 0 || surface.code != 0 {
                making + clear
            } else if surface.status != 0x8CD5 {
                hanging + clear
            } else {
                replacing + clear
            }
        }),
{
    let w = max(answers.width as int, 1) as u32;
    let h = max(answers.height as int, 1) as u32;
    let clear = seq![Call::ClearCurrent { context: context.context }];
    assert(acts(clear) =~= seq![Act::Call(clear[0])]);
    let rest = answers.replacing_script(context);
    if answers.surface.accepted() {
        assert(rest =~= seq![
            Act::Call(Call::DeleteTexture { texture: context.surface.texture }),
            Act::Call(Call::DeleteRenderbuffer { renderbuffer: context.surface.depth_stencil }),
            Act::Call(Call::Release { object: context.surface.io_surface }),
            Act::Query(Query::LayerOf { view: context.view }, Reply::Object(answers.layer)),
            Act::Call(
                Call::SetContentsScale {
                    layer: answers.layer,
                    scale: answers.scale_after(context.scale),
                },
            ),
            Act::Call(
                Call::SetContents {
                    layer: answers.layer,
                    io_surface: answers.surface.io_surface,
                },
            ),
        ] + acts(clear));
    }
    lemma_hanging_acts(answers.surface, answers.cgl, w, h, context.framebuffer, clear, rest);
    assert(answers.surface.script(answers.cgl, w, h, context.framebuffer, clear, rest)
        == answers.surface.script(
        answers.cgl,
        answers.width,
        answers.height,
        context.framebuffer,
        clear,
        rest,
    ));
}

/// A resize from beginning to end. The view takes the new size; the scale is
/// that of the view that it is in, and the present one if it is in none. A
/// surface of exactly the new size in pixels, raised to one each way, is kept as
/// it is. Any other is replaced, which begins with the context made current and
/// ends with none: a new surface of that size is made and hung on the framebuffer
/// that the context has, the present surface is given up, and the view's layer
/// shows the new one at that scale. If the new surface cannot be made or the
/// framebuffer cannot be drawn into with it, the present one is kept.
pub proof fn law_resize_in_full(
    context: GlContext,
    size: Size,
    superview: usize,
    window: usize,
    factor: u64,
    width: u32,
    height: u32,
    cgl: usize,
    io_surface: usize,
    texture: u32,
    code: i32,
    depth_stencil: u32,
    status: u32,
    layer: usize,
)
    ensures
        ({
            let found = Act::Query(Query::WindowOf { view: superview }, Reply::Object(window));
            let (looked_up, lookup, scale) = if superview == 0 {
                (seq![], seq![], context.scale)
            } else if window == 0 {
                (seq![Reply::Object(window)], seq![found], 0x3FF0_0000_0000_0000u64)
            } else {
                (
                    seq![Reply::Object(window), Reply::Scale(factor)],
                    seq![found, Act::Query(Query::BackingScaleOf { window }, Reply::Scale(factor))],
                    factor,
                )
            };
            let w = max(width as int, 1) as u32;
            let h = max(height as int, 1) as u32;
            let built = seq![
                Reply::Object(io_surface),
                Reply::Name(texture),
                Reply::Code(code),
                Reply::Name(depth_stencil),
                Reply::Status(status),
            ];
            let ran = run(
                context.resizing(size),
                seq![Reply::Object(superview)] + looked_up + seq![
                    Reply::Pixels { width, height },
                    Reply::Object(cgl),
                ] + built + seq![Reply::Object(layer)],
            );
            let begun = seq![
                Act::Call(Call::SetFrameSize { view: context.view, size }),
                Act::Query(Query::SuperviewOf { view: context.view }, Reply::Object(superview)),
            ] + lookup;
            let asking = seq![
                Act::Query(Query::ToPixels { size, scale }, Reply::Pixels { width, height }),
            ];
            let making = asking + seq![
                Act::Call(Call::MakeCurrent { context: context.context }),
                Act::Query(Query::CglContextOf { context: context.context }, Reply::Object(cgl)),
            ] + run(Surface::begin(cgl, w, h), built).0;
            let hanging = making + seq![
                Act::Call(
                    Call::BindFramebuffer { target: 0x8D40, framebuffer: context.framebuffer },
                ),
                Act::Call(
                    Call::FramebufferTexture {
                        target: 0x8D40,
                        attachment: 0x8CE0,
                        textarget: 0x84F5,
                        texture,
                        level: 0,
                    },
                ),
                Act::Call(
                    Call::FramebufferRenderbuffer {
                        target: 0x8D40,
                        attachment: 0x821A,
                        rbtarget: 0x8D41,
                        renderbuffer: depth_stencil,
                    },
                ),
                Act::Query(Query::FramebufferStatus { target: 0x8D40 }, Reply::Status(status)),
            ];
            let old = context.surface;
            let replacing = hanging + seq![
                Act::Call(Call::DeleteTexture { texture: old.texture }),
                Act::Call(Call::DeleteRenderbuffer { renderbuffer: old.depth_stencil }),
                Act::Call(Call::Release { object: old.io_surface }),
                Act::Query(Query::LayerOf { view: context.view }, Reply::Object(layer)),
                Act::Call(Call::SetContentsScale { layer, scale }),
                Act::Call(Call::SetContents { layer, io_surface }),
            ];
            let clear = seq![Act::Call(Call::ClearCurrent { context: context.context })];
            let kept = GlContext { scale, ..context };
            if old.width == w && old.height == h {
                ran == (begun + asking, Some(kept))
            } else if io_surface == 0 || code != 0 {
                ran == (begun + (making + clear), Some(kept))
            } else if status != 0x8CD5 {
                ran == (begun + (hanging + clear), Some(kept))
            } else {
                ran == (
                    begun + (replacing + clear),
                    Some(
                        GlContext {
                            surface: Surface { io_surface, texture, depth_stencil, width: w, height: h },
                            scale,
                            ..context
                        },
                    ),
                )
            }
        }),
{
    let answers = ResizeAnswers {
        superview,
        scale: ScaleAnswers { window, factor },
        width,
        height,
        cgl,
        surface: SurfaceAnswers { io_surface, texture, code, depth_stencil, status },
        layer,
    };
    law_resize_outcome(context, size, answers);
    lemma_resize_replies(answers);
    lemma_resize_acts(context, size, answers);
    let drawing = answers.drawing_script(context, size);
    lemma_lookup_acts(answers.scale, superview, drawing);
    let found = Act::Query(Query::WindowOf { view: superview }, Reply::Object(window));
    let lookup = if superview == 0 {
        seq![]
    } else if window == 0 {
        seq![found]
    } else {
        seq![found, Act::Query(Query::BackingScaleOf { window }, Reply::Scale(factor))]
    };
    let frame = Call::SetFrameSize { view: context.view, size };
    let parent = Act::Query(Query::SuperviewOf { view: context.view }, Reply::Object(superview));
    assert(answers.script(context, size) == acts(seq![frame]) + seq![parent] + (lookup + drawing));
    assert(acts(seq![frame]) + seq![parent] + (lookup + drawing) =~= seq![Act::Call(frame), parent]
        + lookup + drawing);
}

/// An `IOSurface` is made along the way.
pub open spec fn makes_io_surface(trace: Seq<Act>) -> bool {
    exists|i: int|
        0 <= i < trace.len() && #[trigger] trace[i] matches Act::Query(Query::NewIoSurface { .. }, _)
}

/// A resize to which nothing is refused gives a surface of exactly the size in
/// pixels that the window has now, raised to one each way. It makes a new
/// `IOSurface` for it exactly if the present surface differs in width or in
/// height.
pub proof fn law_resize_gives_the_size(
    context: GlContext,
    size: Size,
    superview: usize,
    window: usize,
    factor: u64,
    width: u32,
    height: u32,
    cgl: usize,
    io_surface: usize,
    texture: u32,
    depth_stencil: u32,
    layer: usize,
)
    requires
        io_surface != 0,
    ensures
        ({
            let looked_up = if superview == 0 {
                seq![]
            } else if window == 0 {
                seq![Reply::Object(window)]
            } else {
                seq![Reply::Object(window), Reply::Scale(factor)]
            };
            let ran = run(
                context.resizing(size),
                seq![Reply::Object(superview)] + looked_up + seq![
                    Reply::Pixels { width, height },
                    Reply::Object(cgl),
                ] + seq![
                    Reply::Object(io_surface),
                    Reply::Name(texture),
                    Reply::Code(0),
                    Reply::Name(depth_stencil),
                    Reply::Status(0x8CD5),
                ] + seq![Reply::Object(layer)],
            );
            let same = context.surface.width == max(width as int, 1) && context.surface.height
                == max(height as int, 1);
            &&& ran.1 matches Some(resized) && {
                &&& resized.surface.width == max(width as int, 1)
                &&& resized.surface.height == max(height as int, 1)
                &&& resized.framebuffer == context.framebuffer
                &&& same ==> resized.surface == context.surface
                &&& !same ==> resized.surface.io_surface == io_surface
            }
            &&& !same <==> makes_io_surface(ran.0)
        }),
{
    law_resize_in_full(
        context,
        size,
        superview,
        window,
        factor,
        width,
        height,
        cgl,
        io_surface,
        texture,
        0,
        depth_stencil,
        0x8CD5,
        layer,
    );
    let w = max(width as int, 1) as u32;
    let h = max(height as int, 1) as u32;
    let rest = seq![Reply::Status(0x8CD5)];
    law_surface_in_full(cgl, w, h, io_surface, texture, depth_stencil, rest);
    assert(seq![
        Reply::Object(io_surface),
        Reply::Name(texture),
        Reply::Code(0),
        Reply::Name(depth_stencil),
    ] + rest =~= seq![
        Reply::Object(io_surface),
        Reply::Name(texture),
        Reply::Code(0),
        Reply::Name(depth_stencil),
        Reply::Status(0x8CD5),
    ]);
    let looked_up = if superview == 0 {
        seq![]
    } else if window == 0 {
        seq![Reply::Object(window)]
    } else {
        seq![Reply::Object(window), Reply::Scale(factor)]
    };
    let ran = run(
        context.resizing(size),
        seq![Reply::Object(superview)] + looked_up + seq![
            Reply::Pixels { width, height },
            Reply::Object(cgl),
        ] + seq![
            Reply::Object(io_surface),
            Reply::Name(texture),
            Reply::Code(0),
            Reply::Name(depth_stencil),
            Reply::Status(0x8CD5),
        ] + seq![Reply::Object(layer)],
    );
    if context.surface.width != w || context.surface.height != h {
        let at = looked_up.len() as int + 5;
        assert(0 <= at < ran.0.len());
        assert(ran.0[at] matches Act::Query(Query::NewIoSurface { .. }, _));
        assert(makes_io_surface(ran.0));
    } else {
        assert(!makes_io_surface(ran.0));
    }
}

/// A creation begins with what the window and the configuration say. A parent
/// that is not an AppKit view, or none at all, and a version that no profile
/// offers are refused at once. Otherwise a pixel format with the numbers of the
/// configuration is asked for, and nothing is done before that.
pub proof fn law_creation_begins(window: ParentWindow, config: GlConfig)
    ensures
        ({
            let begin = GlContext::creating(window, config);
            let (major, minor) = config.version;
            let offered = if config.profile is Core {
                major > 3 || major == 3 && minor >= 2
            } else {
                major < 3 || major == 3 && minor < 2
            };
            if window is Other || window->ns_view == 0 {
                begin == (Stage::<Creation, Result<GlContext, GlError>>::Finish {
                    calls: seq![],
                    result: Err(GlError::InvalidWindowHandle),
                })
            } else if !offered {
                begin == (Stage::<Creation, Result<GlContext, GlError>>::Finish {
                    calls: seq![],
                    result: Err(GlError::VersionNotSupported),
                })
            } else {
                &&& begin matches Stage::Ask { calls, query: Query::NewPixelFormat { wanted }, .. }
                &&& calls == Seq::<Call>::empty()
                &&& wanted.profile == if config.profile is Compatibility {
                    0x1000u32
                } else if major == 3 && minor == 2 {
                    0x3200u32
                } else {
                    0x4100u32
                }
                &&& wanted.color_size == config.red_bits + config.green_bits + config.blue_bits
                &&& wanted.alpha_size == config.alpha_bits
                &&& wanted.depth_size == config.depth_bits
                &&& wanted.stencil_size == config.stencil_bits
                &&& wanted.samples is Some <==> config.samples is Some
                &&& config.samples matches Some(samples) ==> wanted.samples->0 == samples
            }
        }),
{
}

/// A context can be asked for unless a pixel format would be asked for whose
/// colour channels do not add up in eight bits.
pub proof fn law_creation_is_open_to(window: ParentWindow, config: GlConfig)
    ensures
        GlContext::can_create(window, config) <==> {
            ||| window is Other
            ||| window->ns_view == 0
            ||| config.profile is Core && (config.version.0 < 3 || config.version.0 == 3
                && config.version.1 < 2)
            ||| config.profile is Compatibility && (config.version.0 > 3 || config.version.0 == 3
                && config.version.1 >= 2)
            ||| config.red_bits + config.green_bits + config.blue_bits <= 255
        },
{
}

/// The results of a creation's queries, one after the other.
proof fn lemma_creation_replies(answers: CreationAnswers)
    ensures
        ({
            let surface = answers.surface;
            let looked_up = if answers.scale.window == 0 {
                seq![Reply::Object(answers.scale.window)]
            } else {
                seq![Reply::Object(answers.scale.window), Reply::Scale(answers.scale.factor)]
            };
            let built = seq![
                Reply::Object(surface.io_surface),
                Reply::Name(surface.texture),
                Reply::Code(surface.code),
                Reply::Name(surface.depth_stencil),
                Reply::Status(surface.status),
            ];
            &&& surface.replies(seq![]) == built
            &&& answers.replies() == seq![
                Reply::Object(answers.pixel_format),
                Reply::Object(answers.context),
                Reply::Frame(answers.frame),
                Reply::Object(answers.view),
                Reply::Object(answers.layer),
                Reply::Object(answers.cgl),
            ] + looked_up + seq![
                Reply::Pixels { width: answers.width, height: answers.height },
                Reply::Name(answers.framebuffer),
            ] + built
        }),
{
}

/// What follows the lookup of the scale in a creation.
proof fn lemma_creation_acts(answers: CreationAnswers)
    ensures
        ({
            let surface = answers.surface;
            let layer = answers.layer;
            let scale = answers.scale.scale();
            let making = seq![
                Act::Query(
                    Query::ToPixels { size: answers.frame.size, scale },
                    Reply::Pixels { width: answers.width, height: answers.height },
                ),
                Act::Query(Query::GenFramebuffer, Reply::Name(answers.framebuffer)),
            ] + run(
                Surface::begin(answers.cgl, answers.width, answers.height),
                surface.replies(seq![]),
            ).0;
            let hanging = making + seq![
                Act::Call(Call::BindFramebuffer { target: 0x8D40, framebuffer: answers.framebuffer }),
                Act::Call(
                    Call::FramebufferTexture {
                        target: 0x8D40,
                        attachment: 0x8CE0,
                        textarget: 0x84F5,
                        texture: surface.texture,
                        level: 0,
                    },
                ),
                Act::Call(
                    Call::FramebufferRenderbuffer {
                        target: 0x8D40,
                        attachment: 0x821A,
                        rbtarget: 0x8D41,
                        renderbuffer: surface.depth_stencil,
                    },
                ),
                Act::Query(Query::FramebufferStatus { target: 0x8D40 }, Reply::Status(surface.status)),
            ];
            let showing = hanging + seq![
                Act::Call(Call::SetContentsScale { layer, scale }),
                Act::Call(Call::SetContents { layer, io_surface: surface.io_surface }),
                Act::Call(Call::ClearCurrent { context: answers.context }),
            ];
            answers.drawing_script() == if surface.io_surface == 0 || surface.code != 0 {
                making
            } else if surface.status != 0x8CD5 {
                hanging
            } else {
                showing
            }
        }),
{
    let a = answers;
    let rest = if a.surface.accepted() {
        acts(
            showing(a.layer, a.surface.io_surface, a.scale.scale()) + seq![
                Call::ClearCurrent { context: a.context },
            ],
        )
    } else {
        acts(seq![])
    };
    if a.surface.accepted() {
        assert(rest =~= seq![
            Act::Call(Call::SetContentsScale { layer: a.layer, scale: a.scale.scale() }),
            Act::Call(Call::SetContents { layer: a.layer, io_surface: a.surface.io_surface }),
            Act::Call(Call::ClearCurrent { context: a.context }),
        ]);
    }
    assert(acts(seq![]) =~= seq![]);
    lemma_hanging_acts(a.surface, a.cgl, a.width, a.height, a.framebuffer, seq![], rest);
}

/// What precedes the lookup of the scale in a creation.
proof fn lemma_creation_prefix(answers: CreationAnswers, parent: usize, wanted: PixelFormat, vsync: bool)
    ensures
        ({
            let pixel_format = answers.pixel_format;
            let context = answers.context;
            let view = answers.view;
            let layer = answers.layer;
            let format = Act::Query(Query::NewPixelFormat { wanted }, Reply::Object(pixel_format));
            let new = Act::Query(
                Query::NewContext { pixel_format, share: 0 },
                Reply::Object(context),
            );
            let release = Act::Call(Call::Release { object: pixel_format });
            let configured = seq![
                format,
                new,
                release,
                Act::Call(Call::SetSwapInterval { context, interval: if vsync { 1 } else { 0 } }),
                Act::Query(Query::FrameOf { view: parent }, Reply::Frame(answers.frame)),
                Act::Query(Query::NewView { frame: answers.frame }, Reply::Object(view)),
            ];
            let found = Act::Query(
                Query::WindowOf { view: parent },
                Reply::Object(answers.scale.window),
            );
            let lookup = if answers.scale.window == 0 {
                seq![found]
            } else {
                seq![
                    found,
                    Act::Query(
                        Query::BackingScaleOf { window: answers.scale.window },
                        Reply::Scale(answers.scale.factor),
                    ),
                ]
            };
            answers.script(parent, wanted, vsync) == if pixel_format == 0 {
                seq![format]
            } else if context == 0 {
                seq![format, new, release]
            } else if view == 0 {
                configured
            } else {
                configured + seq![
                    Act::Call(Call::SetWantsLayer { view, wants: true }),
                    Act::Call(Call::SetLayerContentsPlacement { view, placement: 0 }),
                    Act::Query(Query::LayerOf { view }, Reply::Object(layer)),
                    Act::Call(Call::SetContentsGravity { layer, gravity: "bottomLeft" }),
                    Act::Call(Call::SetOpaque { layer, opaque: true }),
                    Act::Call(Call::AddSubview { parent, view }),
                    Act::Call(Call::MakeCurrent { context }),
                    Act::Query(Query::CglContextOf { context }, Reply::Object(answers.cgl)),
                ] + lookup + answers.drawing_script()
            }
        }),
{
    lemma_lookup_acts(answers.scale, parent, answers.drawing_script());
    let view = answers.view;
    let layer = answers.layer;
    let rest = answers.scale.script(parent, answers.drawing_script());
    let viewing = answers.view_script(parent);
    assert(viewing =~= seq![
        Act::Call(Call::SetWantsLayer { view, wants: true }),
        Act::Call(Call::SetLayerContentsPlacement { view, placement: 0 }),
        Act::Query(Query::LayerOf { view }, Reply::Object(layer)),
        Act::Call(Call::SetContentsGravity { layer, gravity: "bottomLeft" }),
        Act::Call(Call::SetOpaque { layer, opaque: true }),
        Act::Call(Call::AddSubview { parent, view }),
        Act::Call(Call::MakeCurrent { context: answers.context }),
        Act::Query(Query::CglContextOf { context: answers.context }, Reply::Object(answers.cgl)),
    ] + rest);
}

/// A creation from beginning to end, in a view of AppKit and with a version that
/// is offered. The pixel format is given up again in any case. The new view has
/// the frame of the parent, is backed by an opaque layer that reads its contents
/// from the bottom left, and is put into the parent. The scale is that of the
/// parent's window; a surface of the view's size in pixels is made, hung on a new
/// framebuffer, and shown in the layer at that scale. Then no context is current,
/// and the context is of what was given out. What is refused ends the creation
/// there.
pub proof fn law_creation_in_full(
    parent: usize,
    config: GlConfig,
    pixel_format: usize,
    context: usize,
    frame: Frame,
    view: usize,
    layer: usize,
    cgl: usize,
    window: usize,
    factor: u64,
    width: u32,
    height: u32,
    framebuffer: u32,
    io_surface: usize,
    texture: u32,
    code: i32,
    depth_stencil: u32,
    status: u32,
)
    requires
        parent != 0,
        if config.profile is Core {
            config.version.0 > 3 || config.version.0 == 3 && config.version.1 >= 2
        } else {
            config.version.0 < 3 || config.version.0 == 3 && config.version.1 < 2
        },
    ensures
        ({
            let found = Act::Query(Query::WindowOf { view: parent }, Reply::Object(window));
            let (looked_up, lookup, scale) = if window == 0 {
                (seq![Reply::Object(window)], seq![found], 0x3FF0_0000_0000_0000u64)
            } else {
                (
                    seq![Reply::Object(window), Reply::Scale(factor)],
                    seq![found, Act::Query(Query::BackingScaleOf { window }, Reply::Scale(factor))],
                    factor,
                )
            };
            let built = seq![
                Reply::Object(io_surface),
                Reply::Name(texture),
                Reply::Code(code),
                Reply::Name(depth_stencil),
                Reply::Status(status),
            ];
            let begin = GlContext::creating(ParentWindow::AppKit { ns_view: parent }, config);
            let ran = run(
                begin,
                seq![
                    Reply::Object(pixel_format),
                    Reply::Object(context),
                    Reply::Frame(frame),
                    Reply::Object(view),
                    Reply::Object(layer),
                    Reply::Object(cgl),
                ] + looked_up + seq![
                    Reply::Pixels { width, height },
                    Reply::Name(framebuffer),
                ] + built,
            );
            let format = Act::Query(begin->query, Reply::Object(pixel_format));
            let new = Act::Query(
                Query::NewContext { pixel_format, share: 0 },
                Reply::Object(context),
            );
            let release = Act::Call(Call::Release { object: pixel_format });
            let configured = seq![
                format,
                new,
                release,
                Act::Call(
                    Call::SetSwapInterval { context, interval: if config.vsync { 1 } else { 0 } },
                ),
                Act::Query(Query::FrameOf { view: parent }, Reply::Frame(frame)),
                Act::Query(Query::NewView { frame }, Reply::Object(view)),
            ];
            let installed = configured + seq![
                Act::Call(Call::SetWantsLayer { view, wants: true }),
                Act::Call(Call::SetLayerContentsPlacement { view, placement: 0 }),
                Act::Query(Query::LayerOf { view }, Reply::Object(layer)),
                Act::Call(Call::SetContentsGravity { layer, gravity: "bottomLeft" }),
                Act::Call(Call::SetOpaque { layer, opaque: true }),
                Act::Call(Call::AddSubview { parent, view }),
                Act::Call(Call::MakeCurrent { context }),
                Act::Query(Query::CglContextOf { context }, Reply::Object(cgl)),
            ] + lookup;
            let making = seq![
                Act::Query(
                    Query::ToPixels { size: frame.size, scale },
                    Reply::Pixels { width, height },
                ),
                Act::Query(Query::GenFramebuffer, Reply::Name(framebuffer)),
            ] + run(Surface::begin(cgl, width, height), built).0;
            let hanging = making + seq![
                Act::Call(Call::BindFramebuffer { target: 0x8D40, framebuffer }),
                Act::Call(
                    Call::FramebufferTexture {
                        target: 0x8D40,
                        attachment: 0x8CE0,
                        textarget: 0x84F5,
                        texture,
                        level: 0,
                    },
                ),
                Act::Call(
                    Call::FramebufferRenderbuffer {
                        target: 0x8D40,
                        attachment: 0x821A,
                        rbtarget: 0x8D41,
                        renderbuffer: depth_stencil,
                    },
                ),
                Act::Query(Query::FramebufferStatus { target: 0x8D40 }, Reply::Status(status)),
            ];
            let showing = hanging + seq![
                Act::Call(Call::SetContentsScale { layer, scale }),
                Act::Call(Call::SetContents { layer, io_surface }),
                Act::Call(Call::ClearCurrent { context }),
            ];
            let refused = Some(Err::<GlContext, GlError>(GlError::CreationFailed(())));
            if pixel_format == 0 {
                ran == (seq![format], refused)
            } else if context == 0 {
                ran == (seq![format, new, release], refused)
            } else if view == 0 {
                ran == (configured, refused)
            } else if io_surface == 0 || code != 0 {
                ran == (installed + making, refused)
            } else if status != 0x8CD5 {
                ran == (installed + hanging, refused)
            } else {
                ran == (
                    installed + showing,
                    Some(
                        Ok::<GlContext, GlError>(
                            GlContext {
                                view,
                                context,
                                framebuffer,
                                surface: Surface {
                                    io_surface,
                                    texture,
                                    depth_stencil,
                                    width: max(width as int, 1) as u32,
                                    height: max(height as int, 1) as u32,
                                },
                                scale,
                            },
                        ),
                    ),
                )
            }
        }),
{
    let answers = CreationAnswers {
        pixel_format,
        context,
        frame,
        view,
        layer,
        cgl,
        scale: ScaleAnswers { window, factor },
        width,
        height,
        framebuffer,
        surface: SurfaceAnswers { io_surface, texture, code, depth_stencil, status },
    };
    let parent_window = ParentWindow::AppKit { ns_view: parent };
    let wanted = PixelFormat::of(profile_for(config.version, config.profile)->0, config);
    law_profile_by_version(config.version.0, config.version.1, config.profile);
    law_creation_outcome(parent_window, config, answers);
    lemma_creation_replies(answers);
    lemma_creation_acts(answers);
    lemma_lookup_acts(answers.scale, parent, answers.drawing_script());
    lemma_creation_prefix(answers, parent, wanted, config.vsync);
}

/// A length of a surface is the one that was asked for, and at least one. OpenGL
/// takes it in 32 bits with a sign: what it takes differs from the length by
/// nothing or by 2^32.
pub proof fn law_lengths(length: u32)
    ensures
        at_least_one(length) == max(length as int, 1),
        (gl_length(length) - length) % 0x1_0000_0000 == 0,
        length <= 0x7FFF_FFFF <==> gl_length(length) == length,
{
}

/// A surface is hung on the framebuffer that is named, as its colour and as its
/// depth and stencil, and given up by what it is made of.
pub proof fn law_surface_calls(surface: Surface, framebuffer: u32)
    ensures
        surface.attaching(framebuffer) == seq![
            Call::BindFramebuffer { target: 0x8D40, framebuffer },
            Call::FramebufferTexture {
                target: 0x8D40,
                attachment: 0x8CE0,
                textarget: 0x84F5,
                texture: surface.texture,
                level: 0,
            },
            Call::FramebufferRenderbuffer {
                target: 0x8D40,
                attachment: 0x821A,
                rbtarget: 0x8D41,
                renderbuffer: surface.depth_stencil,
            },
        ],
        surface.destroying() == seq![
            Call::DeleteTexture { texture: surface.texture },
            Call::DeleteRenderbuffer { renderbuffer: surface.depth_stencil },
            Call::Release { object: surface.io_surface },
        ],
{
}

/// A layer is told the scale and then the `IOSurface`, each as it is.
pub proof fn law_showing_calls(layer: usize, io_surface: usize, scale: u64)
    ensures
        showing(layer, io_surface, scale) == seq![
            Call::SetContentsScale { layer, scale },
            Call::SetContents { layer, io_surface },
        ],
{
}

/// Making a context current binds its framebuffer once it is, making it not
/// current clears it, and dropping it gives up its surface and its framebuffer
/// while it is current, and the rest after that.
pub proof fn law_context_calls(context: GlContext)
    ensures
        context.making_current() == seq![
            Call::MakeCurrent { context: context.context },
            Call::BindFramebuffer { target: 0x8D40, framebuffer: context.framebuffer },
        ],
        context.making_not_current() == seq![Call::ClearCurrent { context: context.context }],
        context.dropping() == seq![
            Call::MakeCurrent { context: context.context },
            Call::DeleteTexture { texture: context.surface.texture },
            Call::DeleteRenderbuffer { renderbuffer: context.surface.depth_stencil },
            Call::Release { object: context.surface.io_surface },
            Call::DeleteFramebuffer { framebuffer: context.framebuffer },
            Call::ClearCurrent { context: context.context },
            Call::RemoveFromSuperview { view: context.view },
            Call::Release { object: context.context },
            Call::Release { object: context.view },
        ],
{
}

/// A frame is published by a flush and by nothing else but handing the context's
/// `IOSurface` to the layer of its view, at the context's scale.
pub proof fn law_publication_in_full(context: GlContext, layer: usize)
    ensures
        run(context.publishing(), seq![Reply::Object(layer)]) == (
            seq![
                Act::Call(Call::Flush),
                Act::Query(Query::LayerOf { view: context.view }, Reply::Object(layer)),
                Act::Call(Call::SetContentsScale { layer, scale: context.scale }),
                Act::Call(Call::SetContents { layer, io_surface: context.surface.io_surface }),
            ],
            Some(()),
        ),
{
    let begin = context.publishing();
    lemma_run_ask(begin->Ask_calls, begin->query, begin->next, Reply::Object(layer), seq![]);
    assert(then_replies(Reply::Object(layer), seq![]) =~= seq![Reply::Object(layer)]);
}

/// Which results answer which queries.
pub proof fn law_kinds_of_results(query: Query, reply: Reply)
    ensures
        reply.kind() == query.kind() <==> match query {
            Query::FrameOf { .. } => reply is Frame,
            Query::BackingScaleOf { .. } => reply is Scale,
            Query::ToPixels { .. } => reply is Pixels,
            Query::TexImageIoSurface { .. } => reply is Code,
            Query::GenTexture => reply is Name,
            Query::GenRenderbuffer => reply is Name,
            Query::GenFramebuffer => reply is Name,
            Query::FramebufferStatus { .. } => reply is Status,
            _ => reply is Object,
        },
{
}

} // verus!

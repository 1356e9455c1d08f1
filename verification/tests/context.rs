use iosurface_gl::call::{Call, Query, Reply, Size};
use iosurface_gl::context::GlContext;
use iosurface_gl::layer::{backing_scale, set_layer_contents};
use iosurface_gl::machine::{Machine, Step};
use iosurface_gl::surface::Surface;

fn surface() -> Surface {
    Surface { io_surface: 1, texture: 2, depth_stencil: 3, width: 640, height: 480 }
}

fn context() -> GlContext {
    GlContext {
        view: 6,
        context: 7,
        framebuffer: 8,
        surface: surface(),
        scale: 1.0f64.to_bits(),
    }
}

fn size() -> Size {
    Size { width: 400.0f64.to_bits(), height: 300.0f64.to_bits() }
}

/// Drives an operation with `replies`; gives all calls, all queries, and the
/// result.
fn drive<M: Machine>(
    mut step: Step<M, M::Outcome>,
    replies: &[Reply],
) -> (Vec<Call>, Vec<Query>, M::Outcome) {
    let mut made = Vec::new();
    let mut asked = Vec::new();
    let mut replies = replies.iter();
    loop {
        match step {
            Step::Ask { calls, query, next } => {
                made.extend(calls);
                asked.push(query);
                let reply = replies.next().unwrap();
                assert!(query.answered_by(reply));
                step = next.resume(*reply);
            }
            Step::Finish { calls, result } => {
                made.extend(calls);
                assert!(replies.next().is_none());
                return (made, asked, result);
            }
        }
    }
}

fn new_surface() -> Surface {
    Surface { io_surface: 21, texture: 22, depth_stencil: 23, width: 800, height: 600 }
}

fn resize_replies() -> Vec<Reply> {
    vec![
        Reply::Object(9),
        Reply::Object(10),
        Reply::Scale(2.0f64.to_bits()),
        Reply::Pixels { width: 800, height: 600 },
        Reply::Object(11),
        Reply::Object(21),
        Reply::Name(22),
        Reply::Code(0),
        Reply::Name(23),
        Reply::Status(0x8CD5),
        Reply::Object(12),
    ]
}

#[test]
fn framebuffer_is_what_it_was_made_with() {
    assert_eq!(context().framebuffer(), 8);
}

#[test]
fn making_current_binds_the_framebuffer() {
    assert_eq!(
        context().make_current(),
        vec![
            Call::MakeCurrent { context: 7 },
            Call::BindFramebuffer { target: 0x8D40, framebuffer: 8 },
        ]
    );
}

#[test]
fn making_not_current_clears() {
    assert_eq!(context().make_not_current(), vec![Call::ClearCurrent { context: 7 }]);
}

#[test]
fn entry_points_are_looked_up_in_the_opengl_bundle() {
    let context = context();
    let lookup = context.get_proc_address("glFlush");
    assert_eq!(lookup.bundle, "com.apple.opengl");
    assert_eq!(lookup.symbol, "glFlush");
}

#[test]
fn publishing_flushes_and_hands_the_surface_over() {
    let (calls, queries, ()) = drive(context().swap_buffers(), &[Reply::Object(12)]);
    assert_eq!(
        calls,
        vec![
            Call::Flush,
            Call::SetContentsScale { layer: 12, scale: 1.0f64.to_bits() },
            Call::SetContents { layer: 12, io_surface: 1 },
        ]
    );
    assert_eq!(queries, vec![Query::LayerOf { view: 6 }]);
}

#[test]
fn a_layer_is_given_scale_and_contents() {
    assert_eq!(
        set_layer_contents(3, 4, 5),
        vec![
            Call::SetContentsScale { layer: 3, scale: 5 },
            Call::SetContents { layer: 3, io_surface: 4 },
        ]
    );
}

#[test]
fn the_backing_scale_is_that_of_the_window() {
    let factor = 1.5f64.to_bits();
    let (calls, queries, scale) =
        drive(backing_scale(3), &[Reply::Object(4), Reply::Scale(factor)]);
    assert_eq!(calls, vec![]);
    assert_eq!(queries, vec![Query::WindowOf { view: 3 }, Query::BackingScaleOf { window: 4 }]);
    assert_eq!(scale, factor);
}

#[test]
fn the_backing_scale_without_a_window_is_one() {
    let (_, queries, scale) = drive(backing_scale(3), &[Reply::Object(0)]);
    assert_eq!(queries, vec![Query::WindowOf { view: 3 }]);
    assert_eq!(scale, 1.0f64.to_bits());
}

#[test]
fn a_resize_from_beginning_to_end() {
    let (calls, queries, resized) = drive(context().resize(size()), &resize_replies());
    assert_eq!(
        resized,
        GlContext { surface: new_surface(), scale: 2.0f64.to_bits(), ..context() }
    );
    assert_eq!(
        calls,
        vec![
            Call::SetFrameSize { view: 6, size: size() },
            Call::MakeCurrent { context: 7 },
            Call::BindTexture { target: 0x84F5, texture: 22 },
            Call::TexParameter { target: 0x84F5, name: 0x2801, value: 0x2601 },
            Call::TexParameter { target: 0x84F5, name: 0x2800, value: 0x2601 },
            Call::BindTexture { target: 0x84F5, texture: 0 },
            Call::BindRenderbuffer { target: 0x8D41, renderbuffer: 23 },
            Call::RenderbufferStorage { target: 0x8D41, format: 0x88F0, width: 800, height: 600 },
            Call::BindRenderbuffer { target: 0x8D41, renderbuffer: 0 },
            Call::BindFramebuffer { target: 0x8D40, framebuffer: 8 },
            Call::FramebufferTexture {
                target: 0x8D40,
                attachment: 0x8CE0,
                textarget: 0x84F5,
                texture: 22,
                level: 0,
            },
            Call::FramebufferRenderbuffer {
                target: 0x8D40,
                attachment: 0x821A,
                rbtarget: 0x8D41,
                renderbuffer: 23,
            },
            Call::DeleteTexture { texture: 2 },
            Call::DeleteRenderbuffer { renderbuffer: 3 },
            Call::Release { object: 1 },
            Call::SetContentsScale { layer: 12, scale: 2.0f64.to_bits() },
            Call::SetContents { layer: 12, io_surface: 21 },
            Call::ClearCurrent { context: 7 },
        ]
    );
    assert_eq!(queries[0], Query::SuperviewOf { view: 6 });
    assert_eq!(queries[1], Query::WindowOf { view: 9 });
    assert_eq!(queries[2], Query::BackingScaleOf { window: 10 });
    assert_eq!(queries[3], Query::ToPixels { size: size(), scale: 2.0f64.to_bits() });
    assert_eq!(queries[4], Query::CglContextOf { context: 7 });
    assert!(matches!(queries[7], Query::TexImageIoSurface { cgl: 11, io_surface: 21, .. }));
    assert_eq!(queries[9], Query::FramebufferStatus { target: 0x8D40 });
    assert_eq!(queries[10], Query::LayerOf { view: 6 });
}

#[test]
fn a_resize_to_the_same_size_only_takes_the_scale_over() {
    let mut replies = resize_replies();
    replies.truncate(3);
    replies.push(Reply::Pixels { width: 640, height: 480 });
    let (calls, _, resized) = drive(context().resize(size()), &replies);
    assert_eq!(calls, vec![Call::SetFrameSize { view: 6, size: size() }]);
    assert_eq!(resized, GlContext { scale: 2.0f64.to_bits(), ..context() });
}

#[test]
fn a_resize_of_one_length_alone_replaces_the_surface() {
    for (width, height) in [(640, 481), (641, 480)] {
        let mut replies = resize_replies();
        replies[3] = Reply::Pixels { width, height };
        let (_, _, resized) = drive(context().resize(size()), &replies);
        assert_eq!((resized.surface.width, resized.surface.height), (width, height));
    }
}

#[test]
fn a_resize_settles() {
    let (_, _, resized) = drive(context().resize(size()), &resize_replies());
    let mut replies = resize_replies();
    replies.truncate(4);
    let (calls, _, again) = drive(resized.resize(size()), &replies);
    assert_eq!(calls.len(), 1);
    assert_eq!(again, resized);
}

#[test]
fn a_resize_outside_a_view_keeps_the_scale() {
    let mut replies = resize_replies();
    replies[0] = Reply::Object(0);
    replies.remove(2);
    replies.remove(1);
    let (_, queries, resized) = drive(context().resize(size()), &replies);
    assert_eq!(queries[1], Query::ToPixels { size: size(), scale: 1.0f64.to_bits() });
    assert_eq!(resized, GlContext { surface: new_surface(), ..context() });
}

#[test]
fn a_resize_outside_a_window_has_scale_one() {
    let mut replies = resize_replies();
    replies[1] = Reply::Object(0);
    replies.remove(2);
    let mut before = context();
    before.scale = 3.0f64.to_bits();
    let (_, _, resized) = drive(before.resize(size()), &replies);
    assert_eq!(resized.scale, 1.0f64.to_bits());
}

#[test]
fn a_resize_to_nothing_has_one_pixel() {
    let mut replies = resize_replies();
    replies[3] = Reply::Pixels { width: 0, height: 0 };
    let (_, _, resized) = drive(context().resize(size()), &replies);
    assert_eq!((resized.surface.width, resized.surface.height), (1, 1));
}

#[test]
fn a_resize_that_is_refused_keeps_the_surface() {
    let kept = GlContext { scale: 2.0f64.to_bits(), ..context() };

    let mut no_surface = resize_replies();
    no_surface.truncate(5);
    no_surface.push(Reply::Object(0));
    let (calls, _, resized) = drive(context().resize(size()), &no_surface);
    assert_eq!(resized, kept);
    assert_eq!(
        calls,
        vec![
            Call::SetFrameSize { view: 6, size: size() },
            Call::MakeCurrent { context: 7 },
            Call::ClearCurrent { context: 7 },
        ]
    );

    let mut no_image = resize_replies();
    no_image.truncate(7);
    no_image.push(Reply::Code(1));
    let (calls, _, resized) = drive(context().resize(size()), &no_image);
    assert_eq!(resized, kept);
    assert_eq!(calls[calls.len() - 2], Call::BindTexture { target: 0x84F5, texture: 0 });
    assert_eq!(calls[calls.len() - 1], Call::ClearCurrent { context: 7 });

    let mut incomplete = resize_replies();
    incomplete.truncate(9);
    incomplete.push(Reply::Status(0));
    let (calls, _, resized) = drive(context().resize(size()), &incomplete);
    assert_eq!(resized, kept);
    assert_eq!(calls[calls.len() - 1], Call::ClearCurrent { context: 7 });
    assert!(!calls.contains(&Call::DeleteTexture { texture: 2 }));
}

#[test]
fn the_framebuffer_stays_the_same_through_resizes() {
    let (calls, queries, resized) = drive(context().resize(size()), &resize_replies());
    assert_eq!(resized.framebuffer(), context().framebuffer());
    assert!(!queries.contains(&Query::GenFramebuffer));
    assert!(!calls.contains(&Call::DeleteFramebuffer { framebuffer: 8 }));
}

#[test]
fn dropping_gives_everything_up() {
    assert_eq!(
        context().drop(),
        vec![
            Call::MakeCurrent { context: 7 },
            Call::DeleteTexture { texture: 2 },
            Call::DeleteRenderbuffer { renderbuffer: 3 },
            Call::Release { object: 1 },
            Call::DeleteFramebuffer { framebuffer: 8 },
            Call::ClearCurrent { context: 7 },
            Call::RemoveFromSuperview { view: 6 },
            Call::Release { object: 7 },
            Call::Release { object: 6 },
        ]
    );
}

#[test]
fn replies_of_the_wrong_kind_are_told_apart() {
    assert!(Query::GenTexture.answered_by(&Reply::Name(1)));
    assert!(!Query::GenTexture.answered_by(&Reply::Object(1)));
    assert!(!Query::LayerOf { view: 1 }.answered_by(&Reply::Name(1)));
    assert!(!Query::FramebufferStatus { target: 1 }.answered_by(&Reply::Code(0)));
}

use iosurface_gl::call::{Call, Frame, Query, Reply, Size, SCALE_ONE};
use iosurface_gl::config::{GlConfig, GlError, Profile};
use iosurface_gl::context::GlContext;
use iosurface_gl::creation::Creation;
use iosurface_gl::machine::{Machine, Step};
use iosurface_gl::pixel_format::PixelFormat;
use iosurface_gl::surface::Surface;
use iosurface_gl::window::ParentWindow;
use raw_window_handle::{AppKitWindowHandle, RawWindowHandle, XlibWindowHandle};

type Creating = Step<Creation, Result<GlContext, GlError>>;

fn config() -> GlConfig {
    GlConfig {
        version: (3, 2),
        profile: Profile::Core,
        red_bits: 8,
        blue_bits: 8,
        green_bits: 8,
        alpha_bits: 8,
        depth_bits: 24,
        stencil_bits: 8,
        samples: None,
        vsync: true,
    }
}

fn frame() -> Frame {
    let size = Size { width: 320.0f64.to_bits(), height: 240.0f64.to_bits() };
    Frame { x: 1.0f64.to_bits(), y: 2.0f64.to_bits(), size }
}

/// Drives a creation with `replies`; gives all calls, all queries, and the
/// result if there is one.
fn drive(
    mut step: Creating,
    replies: &[Reply],
) -> (Vec<Call>, Vec<Query>, Option<Result<GlContext, GlError>>) {
    let mut made = Vec::new();
    let mut asked = Vec::new();
    let mut replies = replies.iter();
    loop {
        match step {
            Step::Ask { calls, query, next } => {
                made.extend(calls);
                asked.push(query);
                match replies.next() {
                    None => return (made, asked, None),
                    Some(reply) => {
                        assert!(query.answered_by(reply));
                        step = next.resume(*reply);
                    }
                }
            }
            Step::Finish { calls, result } => {
                made.extend(calls);
                assert!(replies.next().is_none());
                return (made, asked, Some(result));
            }
        }
    }
}

fn start() -> Creating {
    GlContext::create_in(ParentWindow::AppKit { ns_view: 100 }, config())
}

fn replies() -> Vec<Reply> {
    vec![
        Reply::Object(10),
        Reply::Object(11),
        Reply::Frame(frame()),
        Reply::Object(12),
        Reply::Object(13),
        Reply::Object(14),
        Reply::Object(15),
        Reply::Scale(2.0f64.to_bits()),
        Reply::Pixels { width: 640, height: 480 },
        Reply::Name(16),
        Reply::Object(17),
        Reply::Name(18),
        Reply::Code(0),
        Reply::Name(19),
        Reply::Status(0x8CD5),
    ]
}

#[test]
fn a_creation_from_beginning_to_end() {
    let (calls, queries, result) = drive(start(), &replies());
    assert_eq!(
        result,
        Some(Ok(GlContext {
            view: 12,
            context: 11,
            framebuffer: 16,
            surface: Surface {
                io_surface: 17,
                texture: 18,
                depth_stencil: 19,
                width: 640,
                height: 480,
            },
            scale: 2.0f64.to_bits(),
        }))
    );
    assert_eq!(
        calls,
        vec![
            Call::Release { object: 10 },
            Call::SetSwapInterval { context: 11, interval: 1 },
            Call::SetWantsLayer { view: 12, wants: true },
            Call::SetLayerContentsPlacement { view: 12, placement: 0 },
            Call::SetContentsGravity { layer: 13, gravity: "bottomLeft" },
            Call::SetOpaque { layer: 13, opaque: true },
            Call::AddSubview { parent: 100, view: 12 },
            Call::MakeCurrent { context: 11 },
            Call::BindTexture { target: 0x84F5, texture: 18 },
            Call::TexParameter { target: 0x84F5, name: 0x2801, value: 0x2601 },
            Call::TexParameter { target: 0x84F5, name: 0x2800, value: 0x2601 },
            Call::BindTexture { target: 0x84F5, texture: 0 },
            Call::BindRenderbuffer { target: 0x8D41, renderbuffer: 19 },
            Call::RenderbufferStorage { target: 0x8D41, format: 0x88F0, width: 640, height: 480 },
            Call::BindRenderbuffer { target: 0x8D41, renderbuffer: 0 },
            Call::BindFramebuffer { target: 0x8D40, framebuffer: 16 },
            Call::FramebufferTexture {
                target: 0x8D40,
                attachment: 0x8CE0,
                textarget: 0x84F5,
                texture: 18,
                level: 0,
            },
            Call::FramebufferRenderbuffer {
                target: 0x8D40,
                attachment: 0x821A,
                rbtarget: 0x8D41,
                renderbuffer: 19,
            },
            Call::SetContentsScale { layer: 13, scale: 2.0f64.to_bits() },
            Call::SetContents { layer: 13, io_surface: 17 },
            Call::ClearCurrent { context: 11 },
        ]
    );
    let wanted = PixelFormat::new(0x3200, config());
    assert_eq!(queries[0], Query::NewPixelFormat { wanted });
    assert_eq!(queries[1], Query::NewContext { pixel_format: 10, share: 0 });
    assert_eq!(queries[2], Query::FrameOf { view: 100 });
    assert_eq!(queries[3], Query::NewView { frame: frame() });
    assert_eq!(queries[4], Query::LayerOf { view: 12 });
    assert_eq!(queries[5], Query::CglContextOf { context: 11 });
    assert_eq!(queries[6], Query::WindowOf { view: 100 });
    assert_eq!(queries[7], Query::BackingScaleOf { window: 15 });
    assert_eq!(
        queries[8],
        Query::ToPixels { size: frame().size, scale: 2.0f64.to_bits() }
    );
    assert_eq!(queries[9], Query::GenFramebuffer);
    assert!(matches!(queries[10], Query::NewIoSurface { .. }));
    assert_eq!(queries[11], Query::GenTexture);
    assert!(matches!(queries[12], Query::TexImageIoSurface { cgl: 14, io_surface: 17, .. }));
    assert_eq!(queries[13], Query::GenRenderbuffer);
    assert_eq!(queries[14], Query::FramebufferStatus { target: 0x8D40 });
    assert_eq!(queries.len(), 15);
}

#[test]
fn without_a_window_the_scale_is_one() {
    assert_eq!(SCALE_ONE, 1.0f64.to_bits());
    let mut replies = replies();
    replies[6] = Reply::Object(0);
    replies.remove(7);
    let (_, queries, result) = drive(start(), &replies);
    assert_eq!(queries[7], Query::ToPixels { size: frame().size, scale: 1.0f64.to_bits() });
    assert_eq!(result.unwrap().unwrap().scale, 1.0f64.to_bits());
}

#[test]
fn without_vsync_the_interval_is_zero() {
    let mut config = config();
    config.vsync = false;
    let step = GlContext::create_in(ParentWindow::AppKit { ns_view: 100 }, config);
    let (calls, _, _) = drive(step, &replies());
    assert_eq!(calls[1], Call::SetSwapInterval { context: 11, interval: 0 });
}

#[test]
fn an_empty_view_gets_a_surface_of_one_pixel() {
    let mut replies = replies();
    replies[8] = Reply::Pixels { width: 0, height: 0 };
    let (_, _, result) = drive(start(), &replies);
    let surface = result.unwrap().unwrap().surface;
    assert_eq!((surface.width, surface.height), (1, 1));
}

#[test]
fn parents_that_are_no_appkit_view_are_refused() {
    for window in [ParentWindow::Other, ParentWindow::AppKit { ns_view: 0 }] {
        let (calls, queries, result) = drive(GlContext::create_in(window, config()), &[]);
        assert_eq!(calls, vec![]);
        assert_eq!(queries, vec![]);
        assert_eq!(result, Some(Err(GlError::InvalidWindowHandle)));
    }
}

#[test]
fn the_parent_is_judged_before_the_version() {
    let mut config = config();
    config.version = (2, 0);
    let (_, _, result) = drive(GlContext::create_in(ParentWindow::Other, config), &[]);
    assert_eq!(result, Some(Err(GlError::InvalidWindowHandle)));
}

#[test]
fn versions_that_are_not_offered_are_refused() {
    let mut config = config();
    config.version = (2, 0);
    let step = GlContext::create_in(ParentWindow::AppKit { ns_view: 100 }, config);
    let (calls, queries, result) = drive(step, &[]);
    assert_eq!(calls, vec![]);
    assert_eq!(queries, vec![]);
    assert_eq!(result, Some(Err(GlError::VersionNotSupported)));
}

#[test]
fn no_pixel_format_is_a_failure() {
    let (calls, _, result) = drive(start(), &[Reply::Object(0)]);
    assert_eq!(calls, vec![]);
    assert_eq!(result, Some(Err(GlError::CreationFailed(()))));
}

#[test]
fn no_context_is_a_failure_and_the_pixel_format_is_released() {
    let (calls, _, result) = drive(start(), &[Reply::Object(10), Reply::Object(0)]);
    assert_eq!(calls, vec![Call::Release { object: 10 }]);
    assert_eq!(result, Some(Err(GlError::CreationFailed(()))));
}

#[test]
fn no_view_is_a_failure() {
    let mut replies = replies();
    replies.truncate(3);
    replies.push(Reply::Object(0));
    let (_, _, result) = drive(start(), &replies);
    assert_eq!(result, Some(Err(GlError::CreationFailed(()))));
}

#[test]
fn a_surface_that_is_refused_is_a_failure() {
    let mut no_surface = replies();
    no_surface.truncate(10);
    no_surface.push(Reply::Object(0));
    assert_eq!(drive(start(), &no_surface).2, Some(Err(GlError::CreationFailed(()))));

    let mut no_image = replies();
    no_image.truncate(12);
    no_image.push(Reply::Code(-1));
    assert_eq!(drive(start(), &no_image).2, Some(Err(GlError::CreationFailed(()))));

    let mut incomplete = replies();
    incomplete[14] = Reply::Status(0x8CDD);
    assert_eq!(drive(start(), &incomplete).2, Some(Err(GlError::CreationFailed(()))));
}

#[test]
fn a_raw_handle_of_another_window_system_is_refused() {
    let parent = RawWindowHandle::Xlib(XlibWindowHandle::empty());
    let (_, _, result) = drive(GlContext::create(&parent, config()), &[]);
    assert_eq!(result, Some(Err(GlError::InvalidWindowHandle)));
}

#[test]
fn a_raw_handle_without_a_view_is_refused() {
    let parent = RawWindowHandle::AppKit(AppKitWindowHandle::empty());
    let (_, _, result) = drive(GlContext::create(&parent, config()), &[]);
    assert_eq!(result, Some(Err(GlError::InvalidWindowHandle)));
}

#[test]
fn a_raw_handle_with_a_view_is_the_parent() {
    let mut handle = AppKitWindowHandle::empty();
    handle.ns_view = std::ptr::NonNull::dangling().as_ptr();
    let view = handle.ns_view as usize;
    assert!(view != 0);
    let parent = RawWindowHandle::AppKit(handle);
    let (calls, queries, result) = drive(GlContext::create(&parent, config()), &replies());
    assert_eq!(queries[2], Query::FrameOf { view });
    assert!(calls.contains(&Call::AddSubview { parent: view, view: 12 }));
    assert!(result.unwrap().is_ok());
}

#[test]
fn too_many_colour_bits_are_noticed() {
    let mut handle = AppKitWindowHandle::empty();
    handle.ns_view = std::ptr::NonNull::dangling().as_ptr();
    let parent = RawWindowHandle::AppKit(handle);
    let mut config = config();
    config.red_bits = 200;
    config.blue_bits = 55;
    config.green_bits = 0;
    assert!(GlContext::checked_create(&parent, config).is_some());
    config.green_bits = 1;
    assert!(GlContext::checked_create(&parent, config).is_none());
    config.version = (3, 1);
    let step = GlContext::checked_create(&parent, config).unwrap();
    assert_eq!(drive(step, &[]).2, Some(Err(GlError::VersionNotSupported)));
    let empty = RawWindowHandle::AppKit(AppKitWindowHandle::empty());
    let step = GlContext::checked_create(&empty, config).unwrap();
    assert_eq!(drive(step, &[]).2, Some(Err(GlError::InvalidWindowHandle)));
}

use iosurface_gl::call::{
    Call, Query, Reply, GL_BGRA, GL_COLOR_ATTACHMENT0, GL_DEPTH24_STENCIL8,
    GL_DEPTH_STENCIL_ATTACHMENT, GL_FRAMEBUFFER, GL_FRAMEBUFFER_COMPLETE, GL_LINEAR,
    GL_RENDERBUFFER, GL_RGBA, GL_TEXTURE_MAG_FILTER, GL_TEXTURE_MIN_FILTER, GL_TEXTURE_RECTANGLE,
    GL_UNSIGNED_INT_8_8_8_8_REV,
};
use iosurface_gl::config::GlError;
use iosurface_gl::machine::{Machine, Step};
use iosurface_gl::surface::{clamp_length, Surface, SurfaceBuild};

type Building = Step<SurfaceBuild, Result<Surface, GlError>>;

fn ask(step: Building) -> (Vec<Call>, Query, SurfaceBuild) {
    match step {
        Step::Ask { calls, query, next } => (calls, query, next),
        Step::Finish { .. } => panic!("finished"),
    }
}

fn finish(step: Building) -> (Vec<Call>, Result<Surface, GlError>) {
    match step {
        Step::Ask { .. } => panic!("not finished"),
        Step::Finish { calls, result } => (calls, result),
    }
}

fn build(width: u32, height: u32) -> (Vec<Call>, Result<Surface, GlError>) {
    let (_, _, next) = ask(Surface::new(1, width, height));
    let (_, _, next) = ask(next.resume(Reply::Object(2)));
    let (_, _, next) = ask(next.resume(Reply::Name(3)));
    let (_, _, next) = ask(next.resume(Reply::Code(0)));
    finish(next.resume(Reply::Name(4)))
}

#[test]
fn constants_are_those_of_opengl() {
    assert_eq!(GL_FRAMEBUFFER, 0x8D40);
    assert_eq!(GL_COLOR_ATTACHMENT0, 0x8CE0);
    assert_eq!(GL_DEPTH_STENCIL_ATTACHMENT, 0x821A);
    assert_eq!(GL_RENDERBUFFER, 0x8D41);
    assert_eq!(GL_DEPTH24_STENCIL8, 0x88F0);
    assert_eq!(GL_TEXTURE_RECTANGLE, 0x84F5);
    assert_eq!(GL_TEXTURE_MIN_FILTER, 0x2801);
    assert_eq!(GL_TEXTURE_MAG_FILTER, 0x2800);
    assert_eq!(GL_LINEAR, 0x2601);
    assert_eq!(GL_RGBA, 0x1908);
    assert_eq!(GL_BGRA, 0x80E1);
    assert_eq!(GL_UNSIGNED_INT_8_8_8_8_REV, 0x8367);
    assert_eq!(GL_FRAMEBUFFER_COMPLETE, 0x8CD5);
}

#[test]
fn properties_describe_the_surface() {
    let (calls, query, _) = ask(Surface::new(1, 640, 480));
    assert_eq!(calls, vec![]);
    match query {
        Query::NewIoSurface { properties } => {
            assert_eq!((properties.width.key, properties.width.value), ("IOSurfaceWidth", 640));
            assert_eq!((properties.height.key, properties.height.value), ("IOSurfaceHeight", 480));
            let bytes = properties.bytes_per_element;
            assert_eq!((bytes.key, bytes.value), ("IOSurfaceBytesPerElement", 4));
            let format = properties.pixel_format;
            let bgra = i64::from(u32::from_be_bytes(*b"BGRA"));
            assert_eq!((format.key, format.value), ("IOSurfacePixelFormat", bgra));
        }
        _ => panic!("not an IOSurface"),
    }
}

#[test]
fn a_surface_is_made_step_by_step() {
    let (_, _, next) = ask(Surface::new(1, 640, 480));
    let (calls, query, next) = ask(next.resume(Reply::Object(2)));
    assert_eq!(calls, vec![]);
    assert_eq!(query, Query::GenTexture);
    let (calls, query, next) = ask(next.resume(Reply::Name(3)));
    assert_eq!(
        calls,
        vec![
            Call::BindTexture { target: 0x84F5, texture: 3 },
            Call::TexParameter { target: 0x84F5, name: 0x2801, value: 0x2601 },
            Call::TexParameter { target: 0x84F5, name: 0x2800, value: 0x2601 },
        ]
    );
    assert_eq!(
        query,
        Query::TexImageIoSurface {
            cgl: 1,
            target: 0x84F5,
            internal_format: 0x1908,
            width: 640,
            height: 480,
            format: 0x80E1,
            ty: 0x8367,
            io_surface: 2,
            plane: 0,
        }
    );
    let (calls, query, next) = ask(next.resume(Reply::Code(0)));
    assert_eq!(calls, vec![Call::BindTexture { target: 0x84F5, texture: 0 }]);
    assert_eq!(query, Query::GenRenderbuffer);
    let (calls, result) = finish(next.resume(Reply::Name(4)));
    assert_eq!(
        calls,
        vec![
            Call::BindRenderbuffer { target: 0x8D41, renderbuffer: 4 },
            Call::RenderbufferStorage { target: 0x8D41, format: 0x88F0, width: 640, height: 480 },
            Call::BindRenderbuffer { target: 0x8D41, renderbuffer: 0 },
        ]
    );
    assert_eq!(
        result,
        Ok(Surface { io_surface: 2, texture: 3, depth_stencil: 4, width: 640, height: 480 })
    );
}

#[test]
fn no_io_surface_is_a_failure() {
    let (_, _, next) = ask(Surface::new(1, 640, 480));
    let (calls, result) = finish(next.resume(Reply::Object(0)));
    assert_eq!(calls, vec![]);
    assert_eq!(result, Err(GlError::CreationFailed(())));
}

#[test]
fn a_refused_image_is_a_failure_and_unbinds() {
    let (_, _, next) = ask(Surface::new(1, 640, 480));
    let (_, _, next) = ask(next.resume(Reply::Object(2)));
    let (_, _, next) = ask(next.resume(Reply::Name(3)));
    let (calls, result) = finish(next.resume(Reply::Code(10008)));
    assert_eq!(calls, vec![Call::BindTexture { target: 0x84F5, texture: 0 }]);
    assert_eq!(result, Err(GlError::CreationFailed(())));
}

#[test]
fn a_surface_has_at_least_one_pixel() {
    let (_, result) = build(0, 0);
    let surface = result.unwrap();
    assert_eq!((surface.width, surface.height), (1, 1));
    assert_eq!(clamp_length(0), 1);
    assert_eq!(clamp_length(1), 1);
    assert_eq!(clamp_length(u32::MAX), u32::MAX);
}

#[test]
fn huge_lengths_turn_negative_for_the_renderbuffer() {
    let (calls, _) = build(0x8000_0000, u32::MAX);
    assert_eq!(
        calls[1],
        Call::RenderbufferStorage {
            target: 0x8D41,
            format: 0x88F0,
            width: i32::MIN,
            height: -1,
        }
    );
    let (calls, _) = build(0x7FFF_FFFF, 1);
    assert_eq!(
        calls[1],
        Call::RenderbufferStorage { target: 0x8D41, format: 0x88F0, width: i32::MAX, height: 1 }
    );
}

#[test]
fn attaching_hangs_texture_and_renderbuffer_on_the_framebuffer() {
    let surface = Surface { io_surface: 2, texture: 3, depth_stencil: 4, width: 5, height: 6 };
    let (calls, query) = surface.attach_to(9);
    assert_eq!(
        calls,
        vec![
            Call::BindFramebuffer { target: 0x8D40, framebuffer: 9 },
            Call::FramebufferTexture {
                target: 0x8D40,
                attachment: 0x8CE0,
                textarget: 0x84F5,
                texture: 3,
                level: 0,
            },
            Call::FramebufferRenderbuffer {
                target: 0x8D40,
                attachment: 0x821A,
                rbtarget: 0x8D41,
                renderbuffer: 4,
            },
        ]
    );
    assert_eq!(query, Query::FramebufferStatus { target: 0x8D40 });
}

#[test]
fn only_a_complete_framebuffer_is_attached() {
    assert_eq!(Surface::attached(0x8CD5), Ok(()));
    assert_eq!(Surface::attached(0x8CD6), Err(GlError::CreationFailed(())));
    assert_eq!(Surface::attached(0), Err(GlError::CreationFailed(())));
}

#[test]
fn destroying_gives_up_all_three_objects() {
    let surface = Surface { io_surface: 2, texture: 3, depth_stencil: 4, width: 5, height: 6 };
    assert_eq!(
        surface.destroy(),
        vec![
            Call::DeleteTexture { texture: 3 },
            Call::DeleteRenderbuffer { renderbuffer: 4 },
            Call::Release { object: 2 },
        ]
    );
}

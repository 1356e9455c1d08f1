use iosurface_gl::call::{Call, Frame, Query, Reply, Size};
use iosurface_gl::config::{GlConfig, Profile};
use iosurface_gl::context::GlContext;
use iosurface_gl::machine::{Machine, Step};
use iosurface_gl::window::ParentWindow;
use std::collections::HashMap;

/// What is held, by kind and name, what is current, what is bound and hangs
/// where in the one context there is, and what the layers show.
struct Ledger {
    held: Vec<(&'static str, usize)>,
    current: Option<usize>,
    bound_framebuffer: u32,
    bound_texture: u32,
    color: HashMap<u32, u32>,
    depth_stencil: HashMap<u32, u32>,
    image: HashMap<u32, usize>,
    contents: HashMap<usize, usize>,
}

impl Ledger {
    fn new() -> Ledger {
        Ledger {
            held: Vec::new(),
            current: None,
            bound_framebuffer: 0,
            bound_texture: 0,
            color: HashMap::new(),
            depth_stencil: HashMap::new(),
            image: HashMap::new(),
            contents: HashMap::new(),
        }
    }

    fn take(&mut self, kind: &'static str, name: usize) {
        self.held.push((kind, name));
    }

    fn give_up(&mut self, kind: &'static str, name: usize) {
        let at = self.held.iter().position(|held| *held == (kind, name)).unwrap();
        self.held.remove(at);
    }

    fn perform(&mut self, calls: &[Call]) {
        for call in calls {
            match *call {
                Call::Release { object } => self.give_up("object", object),
                Call::DeleteTexture { texture } => self.give_up("texture", texture as usize),
                Call::DeleteRenderbuffer { renderbuffer } => {
                    self.give_up("renderbuffer", renderbuffer as usize)
                }
                Call::DeleteFramebuffer { framebuffer } => {
                    self.give_up("framebuffer", framebuffer as usize)
                }
                Call::MakeCurrent { context } => self.current = Some(context),
                Call::ClearCurrent { .. } => self.current = None,
                Call::SetContents { layer, io_surface } => {
                    self.contents.insert(layer, io_surface);
                }
                _ => {}
            }
            if self.current.is_some() {
                self.draw(*call);
            }
        }
    }

    fn draw(&mut self, call: Call) {
        match call {
            Call::BindFramebuffer { framebuffer, .. } => self.bound_framebuffer = framebuffer,
            Call::BindTexture { texture, .. } => self.bound_texture = texture,
            Call::FramebufferTexture { texture, .. } => {
                self.color.insert(self.bound_framebuffer, texture);
            }
            Call::FramebufferRenderbuffer { renderbuffer, .. } => {
                self.depth_stencil.insert(self.bound_framebuffer, renderbuffer);
            }
            Call::DeleteTexture { texture } => {
                if self.color.get(&self.bound_framebuffer) == Some(&texture) {
                    self.color.remove(&self.bound_framebuffer);
                }
                self.image.remove(&texture);
            }
            Call::DeleteRenderbuffer { renderbuffer } => {
                if self.depth_stencil.get(&self.bound_framebuffer) == Some(&renderbuffer) {
                    self.depth_stencil.remove(&self.bound_framebuffer);
                }
            }
            Call::DeleteFramebuffer { framebuffer } => {
                self.color.remove(&framebuffer);
                self.depth_stencil.remove(&framebuffer);
                if self.bound_framebuffer == framebuffer {
                    self.bound_framebuffer = 0;
                }
            }
            _ => {}
        }
    }

    fn note(&mut self, query: Query, reply: Reply) {
        match (query, reply) {
            (Query::TexImageIoSurface { io_surface, .. }, Reply::Code(0)) => {
                if self.current.is_some() {
                    self.image.insert(self.bound_texture, io_surface);
                }
            }
            (Query::NewPixelFormat { .. }, Reply::Object(object))
            | (Query::NewContext { .. }, Reply::Object(object))
            | (Query::NewView { .. }, Reply::Object(object))
            | (Query::NewIoSurface { .. }, Reply::Object(object)) => {
                if object != 0 {
                    self.take("object", object)
                }
            }
            (Query::GenTexture, Reply::Name(name)) => self.take("texture", name as usize),
            (Query::GenRenderbuffer, Reply::Name(name)) => self.take("renderbuffer", name as usize),
            (Query::GenFramebuffer, Reply::Name(name)) => self.take("framebuffer", name as usize),
            _ => {}
        }
    }

    fn drive<M: Machine>(&mut self, mut step: Step<M, M::Outcome>, replies: &[Reply]) -> M::Outcome {
        let mut replies = replies.iter();
        loop {
            match step {
                Step::Ask { calls, query, next } => {
                    self.perform(&calls);
                    let reply = *replies.next().unwrap();
                    self.note(query, reply);
                    step = next.resume(reply);
                }
                Step::Finish { calls, result } => {
                    self.perform(&calls);
                    return result;
                }
            }
        }
    }
}

fn size() -> Size {
    Size { width: 64.0f64.to_bits(), height: 48.0f64.to_bits() }
}

fn start() -> Step<iosurface_gl::creation::Creation, Result<GlContext, iosurface_gl::config::GlError>>
{
    let config = GlConfig {
        version: (4, 1),
        profile: Profile::Core,
        red_bits: 8,
        blue_bits: 8,
        green_bits: 8,
        alpha_bits: 8,
        depth_bits: 24,
        stencil_bits: 8,
        samples: Some(2),
        vsync: false,
    };
    GlContext::create_in(ParentWindow::AppKit { ns_view: 900 }, config)
}

fn creation(status: u32) -> Vec<Reply> {
    vec![
        Reply::Object(101),
        Reply::Object(102),
        Reply::Frame(Frame { x: 0, y: 0, size: size() }),
        Reply::Object(103),
        Reply::Object(104),
        Reply::Object(105),
        Reply::Object(0),
        Reply::Pixels { width: 64, height: 48 },
        Reply::Name(1),
        Reply::Object(106),
        Reply::Name(2),
        Reply::Code(0),
        Reply::Name(3),
        Reply::Status(status),
    ]
}

fn resize(width: u32, io_surface: usize, texture: u32, renderbuffer: u32, status: u32) -> Vec<Reply> {
    vec![
        Reply::Object(0),
        Reply::Pixels { width, height: 48 },
        Reply::Object(105),
        Reply::Object(io_surface),
        Reply::Name(texture),
        Reply::Code(0),
        Reply::Name(renderbuffer),
        Reply::Status(status),
        Reply::Object(104),
    ]
}

#[test]
fn a_life_gives_everything_up() {
    let mut ledger = Ledger::new();
    let context = ledger.drive(start(), &creation(0x8CD5)).unwrap();
    assert_eq!(ledger.held.len(), 6);
    assert_eq!(ledger.current, None);
    let wider = ledger.drive(context.resize(size()), &resize(65, 107, 4, 5, 0x8CD5));
    assert_eq!(ledger.held.len(), 6);
    let same = ledger.drive(wider.resize(size()), &resize(65, 0, 0, 0, 0));
    assert_eq!(same, wider);
    let narrow = ledger.drive(same.resize(size()), &resize(0, 108, 6, 7, 0x8CD5));
    assert_eq!(narrow.surface.width, 1);
    assert_eq!(narrow.framebuffer(), context.framebuffer());
    assert_eq!(ledger.current, None);
    ledger.perform(&narrow.drop());
    assert_eq!(ledger.held, vec![]);
    assert_eq!(ledger.current, None);
    assert_eq!(ledger.bound_framebuffer, 0);
    assert!(ledger.color.is_empty());
    assert!(ledger.depth_stencil.is_empty());
    assert!(ledger.image.is_empty());
}

#[test]
fn a_refused_surface_keeps_what_was_taken_for_it() {
    let mut ledger = Ledger::new();
    let context = ledger.drive(start(), &creation(0x8CD5)).unwrap();
    let kept = ledger.drive(context.resize(size()), &resize(65, 107, 4, 5, 0));
    assert_eq!(kept, context);
    assert_eq!(ledger.held.len(), 9);
    assert_eq!(ledger.current, None);
}

#[test]
fn a_creation_refused_late_leaves_the_context_current() {
    let mut ledger = Ledger::new();
    assert!(ledger.drive(start(), &creation(0)).is_err());
    assert_eq!(ledger.current, Some(102));
}

#[test]
fn making_current_and_not_current_leaves_none_current() {
    let mut ledger = Ledger::new();
    let context = ledger.drive(start(), &creation(0x8CD5)).unwrap();
    ledger.perform(&context.make_current());
    assert_eq!(ledger.current, Some(102));
    ledger.perform(&context.make_not_current());
    assert_eq!(ledger.current, None);
}

#[test]
fn a_context_made_current_late_in_its_life_draws_into_what_its_layer_shows() {
    let mut ledger = Ledger::new();
    let created = ledger.drive(start(), &creation(0x8CD5)).unwrap();
    assert_eq!(ledger.contents.get(&104), Some(&106));
    ledger.perform(&created.make_current());
    ledger.drive(created.swap_buffers(), &[Reply::Object(104)]);
    let wider = ledger.drive(created.resize(size()), &resize(65, 107, 4, 5, 0x8CD5));
    ledger.perform(&wider.make_not_current());
    // No `IOSurface` is to be had for this size.
    let kept = ledger.drive(wider.resize(size()), &resize(66, 0, 0, 0, 0));
    assert_eq!(kept, wider);
    let mut without_image = resize(67, 108, 6, 7, 0x8CD5);
    without_image[5] = Reply::Code(10008);
    let kept = ledger.drive(kept.resize(size()), &without_image);
    assert_eq!(kept, wider);
    ledger.drive(kept.swap_buffers(), &[Reply::Object(104)]);
    ledger.perform(&kept.make_current());
    assert_eq!(ledger.current, Some(102));
    assert_eq!(ledger.bound_framebuffer, 1);
    assert_eq!(kept.framebuffer(), 1);
    assert_eq!(ledger.color.get(&1), Some(&4));
    assert_eq!(ledger.depth_stencil.get(&1), Some(&5));
    assert_eq!(ledger.image.get(&4), Some(&107));
    assert_eq!(ledger.contents.get(&104), Some(&107));
}

#[test]
fn a_surface_that_cannot_be_drawn_into_stays_hung_and_is_not_shown() {
    let mut ledger = Ledger::new();
    let context = ledger.drive(start(), &creation(0x8CD5)).unwrap();
    let kept = ledger.drive(context.resize(size()), &resize(65, 107, 4, 5, 0));
    assert_eq!(kept, context);
    assert_eq!(ledger.color.get(&1), Some(&4));
    assert_eq!(ledger.contents.get(&104), Some(&106));
}

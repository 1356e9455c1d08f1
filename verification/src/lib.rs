//! An OpenGL context on macOS that draws into an `IOSurface`, which a plain
//! `CALayer` then shows.
//!
//! OpenGL, the window system and Core Animation are reached by the program
//! around this library. What is asked of them, in which order, and what is made
//! of the answers is decided here: every operation of [`context::GlContext`]
//! either names the calls to make or is a [`machine::Machine`], which names
//! calls, puts a query, and goes on with its result.

pub mod call;
pub mod config;
pub mod context;
pub mod creation;
pub mod effects;
pub mod history;
pub mod laws;
pub mod layer;
pub mod life;
pub mod machine;
pub mod pixel_format;
pub mod promises;
pub mod resize;
pub mod surface;
pub mod window;
pub mod world;

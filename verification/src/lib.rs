//! Verified core of a small 3D plotting library.
//!
//! The crate computes everything a renderer needs before it touches the GPU:
//! the geometry of axes, ticks and grids, the placement of glyphs in a font
//! atlas, the layout of text labels, and the ordered list of GPU calls that
//! draws or tears down a scene. It never talks to the GPU itself: calls are
//! appended to a log of [`gl_wrap::GlCall`] values which the application
//! replays against the graphics API.
//!
//! All coordinates are exact integers in fixed units, see [`vertices`].

pub mod gl_wrap;
pub mod scene;
pub mod vertices;
pub mod plot;
pub mod ticks;
pub mod axis_vert;
pub mod text;
pub mod font_map;
pub mod plan;
pub mod axis;
pub mod label_draw;
pub mod window;

//! Character-art path tracing: the discrete side of the renderer, verified.
//!
//! The geometry runs on floating point outside this library. What it decides from
//! the geometry's comparisons stands here: which root of a sphere a ray hits, which
//! side it meets, which way each material scatters, when a list of objects has a
//! bounding box, and how the trace of a ray steps on to its end within its depth.
//! Once each pixel has been shaded, the library picks the glyph for its brightness
//! level and the cell for the render mode, places each pixel in the raster-ordered
//! frame and says what the display is sent. It also resolves the output size, maps
//! key presses to camera commands and each command to the axis it moves along.

pub mod camera;
pub mod control;
pub mod frame;
pub mod glyph;
pub mod render;
pub mod scene;
pub mod trace;

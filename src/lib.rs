//! Integer core of a small Monte Carlo ray tracer: packing of tone-mapped
//! channels into 24-bit pixel words, the layout of the frame buffer that a
//! render fills row by row, and the viewer's reaction to keyboard input
//! (camera position steps and sample-count changes).
pub mod color;
pub mod frame;
pub mod viewer;

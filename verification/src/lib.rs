//! The portable core of a native font backend: the pixel canvas that glyph
//! textures are copied into, the buffer that collects outline callbacks, and
//! the decisions that turn a native engine's answers into portable values.

pub mod canvas;
pub mod descriptor;
pub mod font;
pub mod geometry;
pub mod outline;

//! The discrete core of an ASCII ray caster: the character frame and its
//! layout, the mapping from shading levels to glyphs, the input-to-camera
//! decisions and the per-pixel render loop, sequential or parallel.
pub mod controls;
pub mod frame;
pub mod render;
pub mod shade;

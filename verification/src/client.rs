//! Client-side components: screen geometry and vertex-format bookkeeping.

pub mod gui;
pub mod render;

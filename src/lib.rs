pub mod face;
pub mod framebuffer;
pub mod nearest;
pub mod texture;
pub mod trace;

pub mod color;
pub mod framebuffer;
pub mod texture;

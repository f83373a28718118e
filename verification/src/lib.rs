pub mod line_buffer;
pub mod render;
pub mod session;

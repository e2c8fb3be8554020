pub mod rectangle;
pub mod render;

pub mod color;
pub mod scroll;

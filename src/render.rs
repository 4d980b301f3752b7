pub mod frame;
pub mod input;
pub mod palette;
pub mod renderer;
pub mod tile;

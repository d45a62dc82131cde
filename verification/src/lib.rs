pub mod color_map;
pub mod constants;
pub mod pool;
pub mod render;
pub mod rng;
pub mod screen;
pub mod text;
pub mod world;

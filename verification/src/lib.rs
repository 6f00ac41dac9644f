pub mod cache;
pub mod components;
pub mod renderer;
pub mod texture_generation;

pub mod geometry;
pub mod input;
pub mod map;
pub mod text;
pub mod combat;
pub mod windows;
pub mod game_states;
pub mod laws;

pub mod vec2;
pub mod grid;
pub mod snek;
pub mod food;
pub mod state;
pub mod mode;
pub mod players;
pub mod settings;

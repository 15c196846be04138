pub mod cube;
pub mod game;
pub mod input;
pub mod render;
pub mod util;
pub mod win_line;

pub mod game;
pub mod laws;
pub mod models;
pub mod session;
pub mod text;

pub mod campaign;
pub mod game;
pub mod house;
pub mod player;
pub mod program_admin;

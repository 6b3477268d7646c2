pub mod channel;
pub mod conf;
pub mod game;

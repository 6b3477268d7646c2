pub mod handle;
pub mod middleware;
pub mod model;
pub mod websocket;

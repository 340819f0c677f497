pub mod handlers;
pub mod hub;
pub mod models;
pub mod websocket;

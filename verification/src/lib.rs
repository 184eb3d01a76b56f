pub mod text;
pub mod origin;
pub mod notification;
pub mod server;
pub mod model;
pub mod focus;
pub mod platform;
pub mod applications;
pub mod laws;
pub mod schedule;

pub mod build_mode;
pub mod capability;
pub mod config;
pub mod coordinator;
pub mod gate;
pub mod lifecycle;
pub mod window;

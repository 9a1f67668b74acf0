pub mod color;
pub mod config;
pub mod hex;
pub mod ipc;
pub mod params;
pub mod raymarch;
pub mod renderer;
pub mod slideshow;
pub mod text;
pub mod wlclient;

pub mod text;
pub mod config;
pub mod credential;
pub mod pages;
pub mod input;
pub mod order;
pub mod quality;
pub mod app;
pub mod logging;
pub mod qr_renderer;

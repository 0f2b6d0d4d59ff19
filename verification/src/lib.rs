//! The core of a desktop GUI toolkit: what an application holds, and the course of its run.
pub mod app;
pub mod app_state;
pub mod closing;
pub mod event;
pub mod images;
pub mod laws;
pub mod main_loop;
pub mod palette;
pub mod platform;
pub mod registry;
pub mod render;
pub mod resources;
pub mod run_state;
pub mod steps;
pub mod text_cache;
pub mod ui_state;
pub mod window;

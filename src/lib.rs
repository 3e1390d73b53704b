//! Colour resolution, stylesheet rendering, action layout and dispatch for a
//! configurable logout / power menu.
pub mod text;
pub mod config;
pub mod style;
pub mod theme;
pub mod json;
pub mod layout;
pub mod dispatch;
pub mod gate;
pub mod present;

//! A small constants service: settings with a safe fallback, batch resolution
//! of named constants, a display-safe dataset viewer and the life cycle of
//! the server, as plain values with proved contracts.

pub mod config;
pub mod handler;
pub mod lifecycle;
pub mod reply;
pub mod service;
pub mod text;
pub mod viewer;

pub use service::{health_check, hello, quit, request_constants};
pub use viewer::view_csv_content;

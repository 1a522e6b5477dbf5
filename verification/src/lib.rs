//! Interactive byte-level diff viewer engine.
//!
//! The library holds the pure state model of the viewer: the diff list
//! extracted from two byte buffers, the navigation and viewport controller,
//! the search engine, the byte-range selection, and the clipboard text
//! encoders.  Terminal I/O, event polling and rendering live outside.

pub mod app;
pub mod clipboard;
pub mod diff;
pub mod display;
pub mod nav;
pub mod search;
pub mod text;
pub mod viewer;

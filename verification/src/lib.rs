//! A retained-mode UI composition engine for a single-window kiosk view: a
//! tree of positioned layout and widget nodes, the geometry rules that
//! place children within their parents, and the two traversals that turn
//! the tree into paint commands and route key events through it.

pub mod content;
pub mod geometry;
pub mod scene;
pub mod traversal;
pub mod widgets;

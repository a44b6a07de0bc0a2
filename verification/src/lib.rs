//! A terminal text viewer's core: an immutable document, a sliding viewport
//! window over its lines, a cursor constrained to the visible area, and the
//! navigation rules that tie the three together.

pub mod cursor;
pub mod document;
pub mod viewer;
pub mod window;

//! Text drawing on a GPU through a glyph cache: the atlas-resize retry loop
//! of a draw, and the builder that pairs the glyph cache with its render
//! target.
pub mod atlas;
pub mod builder;
pub mod draw;

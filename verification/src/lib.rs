//! Verified HTML-rendering backend for a stream of markdown structure events.
//!
//! The renderer consumes a linear sequence of events (tag boundaries, text
//! runs, raw HTML, breaks, footnote references) produced by an external
//! markdown parser, and appends HTML markup to a byte buffer. Escaping,
//! footnote numbering, autolinking of bare URLs and raw-text flattening are
//! all verified against spec-level models of the output.

pub mod autolink;
pub mod escape;
pub mod events;
pub mod html;
pub mod lit;
pub mod model;

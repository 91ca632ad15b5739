//! Request resolution and response rendering for a command-line HTTP client.
//!
//! The crate turns loosely structured, repeatable `name value` flags into one
//! well-formed request, and decides how the response is shown: written to a
//! file, pretty-printed, highlighted, or printed as it is. Nothing here
//! touches the network, the terminal or the file system; a front end sends
//! the request and carries out the rendering.
//!
//! - [`pairs`]: the pair lists that the flags amount to.
//! - [`parsers`]: a target, headers and a body, each from the strings of its
//!   flag.
//! - [`target`], [`header`], [`encode`]: the URL, the header check and the
//!   body encodings behind them.
//! - [`request`]: the resolver, which settles method, URL, headers and body
//!   together.
//! - [`render`], [`highlight`]: the renderer and its highlighter.
//! - [`error`]: what an invocation can fail with.
//! - [`text`]: the tools on characters and lines that the rest shares.
//!
//! Parsing a URL, checking a header, escaping a string and painting a line
//! are done by the crates that an HTTP client uses anyway. Each such call
//! stands in a small function of its own whose contract is taken on trust and
//! says so; everything around it is proved.

pub mod encode;
pub mod error;
pub mod header;
pub mod highlight;
pub mod pairs;
pub mod parsers;
pub mod render;
pub mod request;
pub mod target;
pub mod text;

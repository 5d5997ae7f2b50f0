//! Static file-serving policy.
//!
//! Two stateless handlers share one resolution pattern: [`Static`] resolves a
//! request path against a root directory — serving an exact file match, an
//! `index.html` fallback for directory-style paths, or a redirect adding a
//! trailing slash — and [`Favicon`] serves one fixed asset when the request
//! target ends in the literal segment `favicon`.
//!
//! Both handlers are pure policy functions: the host performs the filesystem
//! probes and the I/O, hands the results in as plain values, and receives
//! back a [`HandlerOutcome`] saying whether the handler terminated the chain
//! with a response or declined in favour of a later handler.
//!
//! Paths are byte strings, as they are on the filesystem itself.

pub mod favicon;
pub mod outcome;
pub mod paths;
pub mod static_files;

pub use favicon::Favicon;
pub use outcome::HandlerOutcome;
pub use outcome::ServedResponse;
pub use static_files::FsProbe;
pub use static_files::Static;
pub use static_files::StaticRequest;

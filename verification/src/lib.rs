//! Resolution of a repository endpoint from configuration text.
//!
//! The configuration is INI text with a `configuration` section whose `url`
//! key holds an absolute URL. Resolution yields either a [`Repository`] or a
//! [`MyError`] that tells which of four things went wrong.

pub mod bindings;
pub mod error;
pub mod kind;
pub mod laws;
pub mod repository;
pub mod scan;

pub use error::{Cause, MyError};
pub use kind::ErrorKind;
pub use repository::{
    accept_url, from_text, require_section, require_value, select_url, try_from_text, Repository,
};
pub use scan::has_surrogate_escape;

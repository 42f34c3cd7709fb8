//! Multiscale image-pyramid metadata: a uniform, versioned view over the
//! revision-specific metadata shapes used by multiscale image stores.
//!
//! Each supported schema revision has its own raw document shape and its own
//! conformance rules; the [`multiscale::Multiscale`] sum type wraps exactly
//! one revision's document and forwards axis queries and conformance checks
//! to it, so callers need not know which revision they hold.

pub mod axis;
pub mod multiscale;
pub mod util;
pub mod v0_2;
pub mod v0_3;
pub mod v0_4;

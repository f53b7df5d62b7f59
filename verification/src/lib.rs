//! Presentation rules for a directory listing: permission strings, recency
//! and size buckets, column padding, and styled text fragments.

pub mod align;
pub mod calendar;
pub mod classify;
pub mod formatter;
pub mod meta;
pub mod perm;
pub mod style;

//! Net cross-border power export of one country, computed from directed
//! flow records and kept in a single-slot cache.
//!
//! - [`flow`]: one flow record, whether it crosses the country's boundary,
//!   and the sign with which it counts.
//! - [`aggregate`]: the net export of a whole feed.
//! - [`cache`]: the latest net export and the time it was published.
//! - [`config`]: the settings of a sampler.
//! - [`sampler`]: the cycle of waiting, fetching and publishing, as a state
//!   machine that its caller drives.
//! - [`text`]: comparisons of text that the other modules rest on.
//!
//! The crate does no input or output, reads no clock and starts no task.
//! Flow values are carried as the bit patterns of IEEE 754 doubles; times
//! are nanoseconds of a monotonic clock that the caller reads.

pub mod aggregate;
pub mod cache;
pub mod config;
pub mod flow;
pub mod sampler;
pub mod text;

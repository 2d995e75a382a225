//! A local-disk filesystem backend for a completion-based I/O substrate.
//!
//! Every operation is split in two: this crate resolves virtual paths and
//! makes each decision (what to submit next, what the caller gets back), and
//! the driver performs the submissions and reports what completed.
pub mod create;
pub mod error;
pub mod fs;
pub mod listing;
pub mod open;
pub mod options;
pub mod path;

pub use error::Error;
pub use fs::{FileSystemTag, TokioUringFs};
pub use listing::FileMeta;
pub use options::OpenOptions;
pub use path::Path;

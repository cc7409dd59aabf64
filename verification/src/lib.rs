//! A wrapper around a `Vec<T>` that hands out the vector's "spare" tail — a
//! writable window beyond the committed contents — so callers can fill data
//! in place and then *commit* a prefix of the window, folding it into the
//! vector's visible contents without copying.
//!
//! Two steps are always required, usually performed in a loop:
//! 1. Allocate a new spare window of at least the wanted length with
//!    [`SpareBuffer::allocate_spare`], and fill a prefix of it with
//!    [`SpareBuffer::write_spare`].
//! 2. Commit the window with [`SpareBuffer::commit`], once it has been
//!    filled with some valid data.
//!
//! After step 1 the window is *not* yet a valid part of the buffer's
//! contents. Committing, in step 2, appends the first `n` window elements to
//! the contents. It is not necessary to fill the whole window; only the
//! first `n` elements are committed, but every element that is committed
//! should have been written first, or the committed contents hold
//! unspecified filler values.

mod buffer;
mod primitive;

pub use buffer::CommitError;
pub use buffer::SpareBuffer;
pub use buffer::commit_would_exceed;
pub use buffer::committed_after;
pub use buffer::counts_sum;
pub use buffer::lemma_run_commits_length;
pub use buffer::limit_valid;
pub use buffer::run_commits;
pub use buffer::within_limit;
pub use primitive::Primitive;

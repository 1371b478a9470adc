//! Engine pieces: task bookkeeping, module validation and discovery, and
//! observability set-up.
pub mod extensions;
pub mod observability;
pub mod tasks;

//! A verified model of a one-dimensional read/write symbol tape: bounded
//! cell storage (`tape`), an interactive cursor/mode session layered on top
//! of it (`session`), and a run-length persistence codec for saving and
//! restoring tape contents (`codec`, `persist`).

pub mod codec;
pub mod persist;
pub mod session;
pub mod tape;

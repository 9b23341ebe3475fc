//! Bulk discovery and mirroring of every repository visible to an account on
//! a GitLab instance.
//!
//! The verified core is the decision logic of the pipeline: the keyset
//! pagination state machine that walks the project listing to exhaustion
//! (`gitlab`), the selection of transport URL, destination path and outcome
//! classification for one mirror attempt (`git`), and the progress aggregator
//! that tracks outstanding work and decides when a run is finished
//! (`progress`). Network transfer, the filesystem and task scheduling are
//! collaborators that live outside this crate; they hand these functions
//! plain values and carry their results.

pub mod git;
pub mod gitlab;
pub mod progress;
pub mod project;

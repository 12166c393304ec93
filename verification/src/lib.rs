//! Two small pieces of concurrency groundwork, with their logic proved:
//! a value that keeps a pointer to one of its own fields, and the
//! schedule by which one thread hands values to another.

pub mod handoff;
pub mod self_referential;

//! Sandboxed execution engine of a code judge: the syscall tracer's decisions,
//! the description of a launched program, and the classification of each test
//! case's outcome.
pub mod verdict;
pub mod process;
pub mod debugger;
pub mod executor;
pub mod judge;

//! A verified job-control core for a minimal interactive command interpreter.
//!
//! The interpreter reads a line, launches the named program as a child
//! process, hands it the controlling terminal while it runs, and takes the
//! terminal back afterwards. Everything that decides belongs to this crate;
//! the system calls themselves are made by the caller, which performs the
//! action a state machine asks for and reports what the operating system
//! answered.
//!
//! - `line` turns the outcome of a read into the next line.
//! - `command` cuts a line into an argument vector, and `argv` puts the
//!   vector into the form the system takes.
//! - `job` is the controller of one foreground job, in the parent and in the
//!   child.
//! - `shell` is the interpreter's loop around the three.
//! - `signals` names the job-control signals and their settings.
//! - `report` words what the user is told.
//! - `world` models the two processes, the pipe and the terminal, and
//!   `guarantees` proves what the controller achieves in every run of that
//!   model: the program runs only once it owns the terminal, and the
//!   terminal is back with the interpreter when the job is over.

pub mod argv;
pub mod command;
pub mod guarantees;
pub mod job;
pub mod line;
pub mod report;
pub mod shell;
pub mod signals;
pub mod world;

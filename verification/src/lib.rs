//! The engine of a system-call tracer for Linux on x86-64.
//!
//! A tracer stops a process each time it enters a system call and each time
//! the call returns, reads what the process is doing, and lets it run on.
//! This library is the part of such a tracer that decides: what a stop
//! means, what is to be printed and counted, which call of which process a
//! return belongs to, and when tracing is over. It touches no process. The
//! program around it waits for the stops, reads the registers and prints;
//! it hands what it saw to a session as plain values and carries out the
//! actions the session answers with.
//!
//! - [`single`] traces one process, [`forks`] a process together with the
//!   processes it creates; [`action`] is what both ask of their caller.
//! - [`errno`] recovers error numbers from return registers, and
//!   [`failure`] tells why the registers of a process could not be read.
//! - [`summary`] tallies the calls, [`rank`] orders them and [`report`]
//!   writes the table that ends a session.
//! - [`memory`] follows the program break, [`cli`] reads the command line,
//!   and [`syscall`], [`signal`], [`flags`] and [`text`] hold what the
//!   others share.

pub mod action;
pub mod cli;
pub mod errno;
pub mod failure;
pub mod flags;
pub mod forks;
pub mod memory;
pub mod rank;
pub mod report;
pub mod signal;
pub mod single;
pub mod summary;
pub mod syscall;
pub mod text;

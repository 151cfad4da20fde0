//! The output-emission layer of a source-code formatter, without the I/O.
//!
//! Given the original and the freshly formatted text of a file, the library
//! decides where and how the result goes: in place with a backup, in place
//! without one, or as a presentation on an output sink. It performs no I/O
//! itself. It hands its host one action at a time (read this file, write
//! that one, rename, render), takes the host's report, and says what comes
//! next; a failure that the host reports ends the work and is its result.
//!
//! - [`config`]: the settings that emission reads, and the file name.
//! - [`source_map`]: the registry of texts that are in memory already.
//! - [`emitter`]: the six emitters and the steps that they plan.
//! - [`source_file`]: the driver, which picks the emitter and starts the
//!   work on a file or on a batch of files.
//! - [`job`] and [`batch`]: the exchange with the host, action by action.
//! - [`disk`] and [`run`]: a mathematical model of the disk, and what whole
//!   runs leave on it.
//! - [`std_specs`]: what is taken from the standard library on trust.

pub mod batch;
pub mod config;
pub mod std_specs;
pub mod disk;
pub mod emitter;
pub mod job;
pub mod run;
pub mod source_file;
pub mod source_map;

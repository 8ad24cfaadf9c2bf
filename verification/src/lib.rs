//! Turns the captured in-memory image of a process's primary module into a
//! file that tools for the on-disk executable format can read.
//!
//! A module captured from live memory is laid out by virtual addresses, while
//! its section table still records the compact on-disk layout. The library
//! checks the shape of the captured headers, rewrites the section table so the
//! declared file layout mirrors the mapped one, and names the output file.
//! Reading the target's memory and writing the file are left to the caller.

pub mod bytes;
pub mod layout;
pub mod pe;
pub mod validate;
pub mod sections;
pub mod capture;
pub mod clock;
pub mod name;
pub mod dump;
pub mod verbosity;

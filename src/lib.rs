//! Routing engine for a cross-compiling front end to the native build tool.
//!
//! The library decides, for one invocation, whether the command runs natively
//! or inside a container built for the requested target, and which toolchain
//! and emulator preparations must come first. All outside work (spawning
//! processes, reading the disk) is left to the caller: the library is a state
//! machine that hands out actions and takes back their outcomes.
pub mod triple;
pub mod session;
pub mod laws;

//! Injects JavaScript into the pages of a Chromium-based application through
//! its remote-debugging protocol.
//!
//! The library holds the decisions of the injection run: the settings and
//! their validation, the wire text of the evaluate call, the reading of its
//! reply, and the coordinator that drives discovery and injection as a state
//! machine. The program around it performs the I/O that the coordinator asks
//! for and reports back what happened.

mod text;
pub mod config;
pub mod protocol;
pub mod injector;

//! Helpers around the executor: byte scanning, library discovery, start-up
//! configuration and the once-only platform setup.

pub mod bytes;
pub mod initialization;
pub mod obs_string;
pub mod path;
pub mod startup;
pub mod linux;

//! Line colorizer for the output of wrapped commands: a verified highlighting
//! engine, its renderer, and the decisions of the process supervisor.
use vstd::prelude::*;

pub mod color;
pub mod pattern;
pub mod highlight;
pub mod laws;
pub mod render;
pub mod supervisor;
pub mod duration;
pub mod registry;
pub mod text;
pub mod cli;

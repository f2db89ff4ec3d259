use vstd::prelude::*;

pub mod cache;
pub mod cli;
pub mod model;
pub mod text;
pub mod template;
pub mod github;

//! Translates hot numeric Python functions into the source of a native
//! extension module.

use vstd::prelude::*;

pub mod analyzer;
pub mod ast;
pub mod builder;
pub mod generator;
pub mod parser;
pub mod text;
pub mod utils;

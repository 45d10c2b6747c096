//! An HTTP front end to an SQLite database: the rules by which requests are
//! checked, statements run and results given.

use vstd::prelude::*;

pub mod db;
pub mod errors;
pub mod execution;
pub mod failure;
pub mod handler;
pub mod json;
pub mod logging;
pub mod opening;
pub mod settings;
pub mod state;
pub mod text;

verus! {

/// The version of the service.
pub const VERSION: &'static str = "0.1.0";

} // verus!

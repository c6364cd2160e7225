use vstd::prelude::*;

pub mod config;
pub mod email;
pub mod models;
pub mod pipeline;
pub mod scrapers;
pub mod text;

verus! {

} // verus!

//! Upcoming public holidays of a country, with a per-day cache of what the
//! holiday service answered.
use vstd::prelude::*;

pub mod cache;
pub mod country;
pub mod date;
pub mod errors;
pub mod flow;
pub mod model;
pub mod present;

verus! {

} // verus!

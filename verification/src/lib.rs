//! Counterparty screening that never holds the counterparty's personal data.
//!
//! Screening against sanctions lists, adverse media and politically exposed
//! persons needs a real name and a real date of birth. Here the request to the
//! screening provider carries `{{profile.<field>}}` markers in their place, and
//! the host fills them in after this code has run. What comes back is a decision,
//! a hit count and an audit record.
//!
//! [`policy`] holds the rules, [`screening`] the three exports as chains of
//! stages between which the host acts, and [`laws`] what holds of the whole.
//! [`marker`], [`json`], [`codec`] and [`text`] are what these are written in.
use vstd::prelude::*;

pub mod codec;
pub mod json;
pub mod laws;
pub mod marker;
pub mod policy;
pub mod screening;
pub mod text;

verus! {

/// The version that every audit record is stamped with.
pub const CONTRACT_VERSION: &'static str = "0.1.0";

} // verus!

//! Verified core of the AstroDolph Discord bot: the texts it answers with,
//! the decisions its commands take, and the small computations behind them.
use vstd::prelude::*;

pub mod astrodolph;
pub mod calc;
pub mod dispatch;
pub mod members;
pub mod meta;
pub mod moderation;
pub mod notice;
pub mod ship;
pub mod text;

verus! {

} // verus!

//! An append-only columnar series of market candles that works out its own
//! time direction and sampling resolution from the first two rows, and checks
//! the continuity of every later row against them.

use vstd::prelude::*;

pub mod candle;
pub mod data_source;

pub use candle::{Candle, Candles, ContinuityError, Direction, ResolutionState, Timestamp};
pub use data_source::Resolution;

verus! {

} // verus!

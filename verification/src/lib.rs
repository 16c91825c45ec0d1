//! Verified building blocks for a small tour of language mechanics: a
//! bounded counting sequence, ownership hand-off helpers, toy units of
//! parallel work joined at a barrier, a fixed song, bounded random
//! draws, and simple integer arithmetic.

pub mod counter;
pub mod ownership;
pub mod parallel;
pub mod random;
pub mod shapes;
pub mod song;
pub mod util;

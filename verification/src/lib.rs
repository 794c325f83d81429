//! Decision logic of a candle-chart trading bot: interval ladders, status
//! codes of watched swings and orders, the cradle entry signal, the bar
//! windows that the highest/lowest scans read, and where a zigzag pass
//! starts again.

pub mod model;
pub mod common;
pub mod text;
pub mod interval;
pub mod window;
pub mod pivot;
pub mod signal;
pub mod order;
pub mod ema;

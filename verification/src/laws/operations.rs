//! Laws of the operations themselves: what holds of the arguments and the result of any call.
pub mod connecting;
pub mod delivering;
pub mod transmitting;
pub mod values;

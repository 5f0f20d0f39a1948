//! Laws that span several functions: what every operation keeps, what one operation undoes or
//! completes of another, and what holds over a sequence of operations.
pub mod acknowledging;
pub mod clock;
pub mod contents;
pub mod handshake;
pub mod operations;
pub mod queue;
pub mod receiving;
pub mod retransmitting;
pub mod segments;
pub mod sending;
pub mod sequence;
pub mod timeout;
pub mod window;

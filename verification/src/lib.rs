//! The control path of a user-space TCP stack: connection setup, acknowledgement
//! processing, window-limited transmission, retransmission decisions and in-order
//! delivery, as functions of plain values with machine-checked contracts.
//!
//! A connection is a [`ctrlblk::ControlBlock`], made of four components: connection
//! management, ordered delivery, flow control and congestion control. Each component
//! writes only its own state. The functions of [`tcp_events`] and [`ctrlblk`] hand an
//! event to the components one after the other. Nothing here performs I/O: a function
//! that has something to transmit returns the segment.
pub mod active_open;
pub mod addr;
pub mod config;
pub mod congestion_control;
pub mod congestion_control_state;
pub mod connection_management_state;
pub mod ctrlblk;
pub mod delivery_state;
pub mod fail;
pub mod flow_control_state;
pub mod header;
pub mod laws;
pub mod receiver;
pub mod rto;
pub mod sender;
pub mod seq_number;
pub mod tcp_events;
pub mod time;

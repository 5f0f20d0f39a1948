# demitcp

The control path of a user-space TCP stack, verified with Verus: connection setup,
acknowledgement processing, window-limited transmission, retransmission decisions and in-order
delivery.

- `src/` is the library. A connection is a `ControlBlock` of four components: connection
  management, ordered delivery, flow control and congestion control. Functions that would wait
  or transmit return what is to be done instead, and take in what came of it.
- `src/laws/` holds the properties that span several functions.
- `app/` drives the library from asynchronous tasks, on top of a runtime and a network layer.
- `tests/` runs the library on concrete values.

Congestion control algorithms implement the traits of `src/congestion_control.rs`. Sequence
numbers are compared in serial-number order, times are whole nanoseconds, and sums of a window
and its limited-transmit increase stop at the largest 32-bit number.

//! Display-surface lifecycle and input-dispatch core.
//!
//! The library claims an exclusive fullscreen rendering surface from the host
//! windowing subsystem, registers its window class once per process, and runs
//! a message pump that turns raw window messages into a small set of
//! application-level events. Everything the core decides or computes is stated
//! here over plain values and verified; the host's own calls are issued by the
//! surrounding program, which feeds their results back in.

pub mod dispatch;

pub mod errors;

pub mod events;

pub mod pump;

pub mod registrar;

pub mod window;

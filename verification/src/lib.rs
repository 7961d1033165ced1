//! A verified frame renderer for a terminal system monitor.
//!
//! The library turns one immutable snapshot of host metrics (CPU, memory,
//! swap, disks, network interfaces, processes, uptime) into a deterministic
//! sequence of styled terminal instructions. Formatting is pure and fully
//! specified: numeric values are fixed-point integers, colors are chosen by
//! banded thresholds, and the exact instruction sequence of a frame is pinned
//! down by a specification function. Applying the instructions to a real
//! terminal is left to an unverified sink around the library.

pub mod color;
pub mod fmt;
pub mod snapshot;
pub mod units;
pub mod frame;

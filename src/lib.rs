//! Driver for a 2.9 inch black/red e-paper panel (128 x 296 pixels).
//!
//! The library holds the two one-bit-per-pixel image planes and turns each
//! lifecycle operation of the panel (reset, initialisation, plane upload,
//! refresh, sleep) into the exact list of bus operations that the panel's
//! controller expects. Whoever owns the serial bus and the control lines
//! performs those operations in order.
pub mod plane;
pub mod protocol;
pub mod busy;
pub mod epaper29;

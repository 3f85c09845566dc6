//! Host side of the two-port embedded-controller protocol: port grants,
//! bounded status polling, and the register read/write handshakes, written
//! as a state machine whose actions a host performs on real ports.

pub mod ec;
pub mod handshake;
pub mod sim;
pub mod cooling;

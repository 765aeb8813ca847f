//! Client-side companion to the Streamflow token-vesting protocol.
//!
//! The crate models the stream record that the protocol keeps on chain and
//! verifies the unlock-schedule arithmetic over it: how much of a deposited
//! amount is released at a given time under a periodic schedule, an optional
//! cliff, pause intervals and mid-stream rate changes, and how a fee
//! percentage is applied to the released amounts.

pub mod pda;
pub mod state;
